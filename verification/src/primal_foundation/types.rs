//! Common types used across the primal foundation.

use crate::clock;
use crate::text;
use vstd::prelude::*;

verus! {

/// Timestamp with nanosecond precision since the Unix epoch.
#[derive(Clone, Copy, Debug, PartialEq, Eq, PartialOrd, Ord, Hash)]
pub struct Timestamp {
    /// Seconds since Unix epoch.
    pub secs: u64,
    /// Nanoseconds within the second.
    pub nanos: u32,
}

impl Timestamp {
    /// A timestamp is well formed when its nanoseconds lie within the second.
    pub open spec fn wf(self) -> bool {
        self.nanos < 1_000_000_000
    }

    /// Milliseconds since the epoch, as a mathematical integer.
    pub open spec fn millis(self) -> int {
        self.secs * 1000 + self.nanos / 1_000_000
    }

    /// A timestamp for the current moment; the epoch `(0, 0)` if the clock
    /// reads before the epoch.
    pub fn now() -> (t: Self)
        ensures
            t.wf(),
    {
        let t = clock::system_now();
        match clock::since_unix_epoch(t) {
            Some(d) => Timestamp { secs: clock::duration_secs(&d), nanos: clock::duration_subsec_nanos(&d) },
            None => Timestamp { secs: 0, nanos: 0 },
        }
    }

    /// A timestamp from whole seconds since the epoch.
    pub fn from_secs(secs: u64) -> (t: Self)
        ensures
            t.secs == secs,
            t.nanos == 0,
    {
        Timestamp { secs, nanos: 0 }
    }

    /// A timestamp from milliseconds since the epoch.
    pub fn from_millis(millis: u64) -> (t: Self)
        ensures
            t.secs == millis / 1000,
            t.nanos == (millis % 1000) * 1_000_000,
            t.wf(),
            t.millis() == millis,
    {
        let r = millis % 1000;
        assert(r * 1_000_000 < 1_000_000_000) by (nonlinear_arith)
            requires
                r < 1000,
        ;
        let nanos: u32 = (r * 1_000_000) as u32;
        assert(nanos / 1_000_000 == r) by (nonlinear_arith)
            requires
                nanos == r * 1_000_000,
        ;
        Timestamp { secs: millis / 1000, nanos }
    }

    /// Milliseconds since the epoch. The product must fit in `u64`, as it
    /// must for the computation not to overflow.
    pub fn as_millis(&self) -> (m: u64)
        requires
            self.millis() <= u64::MAX,
        ensures
            m == self.millis(),
    {
        assert(self.secs * 1000 <= self.millis()) by (nonlinear_arith)
            requires
                self.nanos / 1_000_000 >= 0,
                self.millis() == self.secs * 1000 + self.nanos / 1_000_000,
        ;
        self.secs * 1000 + (self.nanos / 1_000_000) as u64
    }

    /// The debug-style rendering: `Timestamp(<secs>.<nanos, at least nine
    /// digits>)`.
    pub open spec fn debug_view(self) -> Seq<char> {
        "Timestamp("@ + text::decimal(self.secs as nat) + "."@ + pad_nine(text::decimal(self.nanos as nat))
            + ")"@
    }

    /// The display text given what the platform rendered for the instant:
    /// that rendering when there is one and it is not empty, else the
    /// debug-style rendering.
    pub open spec fn display_choice(self, rendered: Option<Seq<char>>) -> Seq<char> {
        match rendered {
            Some(s) => if s.len() > 0 {
                s
            } else {
                self.debug_view()
            },
            None => self.debug_view(),
        }
    }

    /// The display text from what the platform rendered for the instant this
    /// timestamp denotes (`None` where the platform cannot represent it): see
    /// `display_choice`.
    pub fn display_from(&self, rendered: Option<String>) -> (r: String)
        ensures
            r@ == self.display_choice(rendered_view(rendered)),
            r@.len() > 0,
    {
        proof {
            reveal_strlit("Timestamp(");
        }
        match rendered {
            Some(s) => {
                if s.as_str().unicode_len() > 0 {
                    s
                } else {
                    self.debug_text()
                }
            },
            None => self.debug_text(),
        }
    }

    /// Display rendering: std's debug form of the `SystemTime` this
    /// timestamp denotes (`UNIX_EPOCH` plus `secs` seconds and `nanos`
    /// nanoseconds, the whole seconds in `nanos` carried); its exact text
    /// depends on the platform. Where the platform cannot represent the
    /// instant, or renders nothing, the debug-style rendering instead. The
    /// carry must not overflow the seconds (as std's `Duration::new`
    /// requires).
    pub fn display_text(&self) -> (r: String)
        requires
            self.secs + self.nanos / 1_000_000_000 <= u64::MAX,
        ensures
            r@.len() > 0,
            exists|rendered: Option<Seq<char>>| r@ == self.display_choice(rendered),
    {
        let d = clock::duration_new(self.secs, self.nanos);
        let rendered = match clock::epoch_checked_add(d) {
            Some(t) => Some(clock::system_time_debug_text(&t)),
            None => None,
        };
        let ghost rv = rendered_view(rendered);
        let r = self.display_from(rendered);
        assert(r@ == self.display_choice(rv));
        r
    }

    /// Debug-style rendering: `Timestamp(<secs>.<nanos, nine digits>)`.
    pub fn debug_text(&self) -> (r: String)
        ensures
            r@ == self.debug_view(),
    {
        let mut r = String::from_str("Timestamp(");
        text::push_decimal(&mut r, self.secs);
        r.append(".");
        let digits = text::decimal_text(self.nanos as u64);
        let len: usize = digits.as_str().unicode_len();
        let pad: usize = if len < 9 { 9 - len } else { 0 };
        let ghost before = r@;
        let ghost d = digits@;
        let mut k: usize = 0;
        while k < pad
            invariant
                k <= pad,
                r@ == before + Seq::new(k as nat, |_i: int| '0'),
            decreases pad - k,
        {
            r.append("0");
            proof {
                reveal_strlit("0");
                assert(r@ =~= before + Seq::new((k + 1) as nat, |_i: int| '0'));
            }
            k = k + 1;
        }
        r.append(digits.as_str());
        r.append(")");
        proof {
            reveal_strlit("Timestamp(");
            reveal_strlit(".");
            reveal_strlit(")");
            assert(Seq::new(pad as nat, |_i: int| '0') + d =~= pad_nine(d));
        }
        r
    }
}

/// The text of an optional rendering.
pub open spec fn rendered_view(r: Option<String>) -> Option<Seq<char>> {
    match r {
        Some(s) => Some(s@),
        None => None,
    }
}

/// Left-pads a digit string with zeros to at least nine characters.
pub open spec fn pad_nine(d: Seq<char>) -> Seq<char> {
    if d.len() >= 9 {
        d
    } else {
        Seq::new((9 - d.len()) as nat, |_i: int| '0') + d
    }
}

} // verus!
