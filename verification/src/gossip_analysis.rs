//! Gossip entry analysis for pre-accept validation.
//!
//! Before storing an epidemic gossip entry, a peer asks for a verdict. Eight
//! checks run independently (topic, key format, origin identity, TTL, payload
//! size, freshness, lifetime, origin quarantine) and combine into one
//! verdict. Every check passing gives `Allow`; a failed origin identity or
//! quarantine check gives `Block`; any other failure gives `Warn`.

use crate::clock;
use crate::text;
use crate::Verdict;
use vstd::prelude::*;
use vstd::utf8::encode_utf8;

verus! {

/// Longest accepted key, in bytes.
pub const MAX_KEY_LEN: usize = 256;

/// Largest accepted payload (compact JSON text), in bytes.
pub const MAX_PAYLOAD_BYTES: usize = 16384;

/// Largest accepted hop count.
pub const MAX_TTL: u8 = 16;

/// Longest accepted lifetime, in seconds.
pub const MAX_LIFETIME_SECS: u64 = 86400;

/// Gossip entry submitted for analysis.
#[derive(Debug, Clone)]
pub struct GossipEntryParams {
    /// Gossip domain: `tower`, `data`, or `compute`.
    pub topic: String,
    /// Unique key within the topic (e.g. `capability.advertise:sporeGate:nestGate`).
    pub key: String,
    /// Topic-specific payload, as its compact JSON text.
    pub payload: String,
    /// Gate that originally created this entry.
    pub origin_gate: String,
    /// Remaining hops before the entry is dropped.
    pub ttl: u8,
    /// Monotonic version for conflict resolution (higher wins).
    pub version: u64,
    /// When the entry was created (epoch seconds; 0 when unset).
    pub created_at_epoch: u64,
    /// When the entry should be evicted (epoch seconds; 0 when unset).
    pub expires_at_epoch: u64,
}

/// Per-check result for transparency.
#[derive(Debug, Clone)]
pub struct GossipCheckResult {
    /// Name of the check that ran.
    pub check: String,
    /// Whether the check passed.
    pub passed: bool,
    /// Detail message (present on failure or notable conditions).
    pub detail: Option<String>,
}

/// What a check result says: its name, whether it passed, and its detail.
pub type CheckView = (Seq<char>, bool, Option<Seq<char>>);

impl View for GossipCheckResult {
    type V = CheckView;

    open spec fn view(&self) -> CheckView {
        (self.check@, self.passed, match self.detail {
            Some(d) => Some(d@),
            None => None,
        })
    }
}

/// Overall verdict from gossip entry analysis.
#[derive(Debug, Clone)]
pub struct GossipVerdict {
    /// Overall verdict of the analysis.
    pub verdict: Verdict,
    /// Human-readable summary of the verdict.
    pub reason: String,
    /// Gate that originated the gossip entry.
    pub origin_gate: String,
    /// Individual check results for transparency.
    pub checks: Vec<GossipCheckResult>,
}

/// Whether a topic is one of the three gossip domains.
pub open spec fn topic_ok(topic: Seq<char>) -> bool {
    topic == "tower"@ || topic == "data"@ || topic == "compute"@
}

/// A control character (Unicode general category Cc).
pub open spec fn is_control(c: char) -> bool {
    (c as u32) <= 0x1f || (0x7f <= (c as u32) && (c as u32) <= 0x9f)
}

/// Whether a text holds a control character.
pub open spec fn has_control(s: Seq<char>) -> bool {
    exists|i: int| 0 <= i < s.len() && is_control(#[trigger] s[i])
}

/// The length of a text in UTF-8 bytes, as `str::len` reports it.
pub open spec fn byte_len(s: Seq<char>) -> nat {
    (encode_utf8(s).len() as usize) as nat
}

/// The topic check.
pub open spec fn topic_check(e: GossipEntryParams) -> CheckView {
    let ok = topic_ok(e.topic@);
    ("topic_valid"@, ok, if ok { None } else { Some("unknown topic: "@ + e.topic@) })
}

/// The key-format check: non-empty, at most 256 bytes, no control character.
pub open spec fn key_check(e: GossipEntryParams) -> CheckView {
    let empty = e.key@.len() == 0;
    let too_long = byte_len(e.key@) > MAX_KEY_LEN;
    let control = has_control(e.key@);
    ("key_format"@, !empty && !too_long && !control, if empty {
        Some("empty key"@)
    } else if too_long {
        Some("key too long: "@ + text::decimal(byte_len(e.key@)) + " > 256"@)
    } else if control {
        Some("key contains control characters"@)
    } else {
        None
    })
}

/// Whether an origin gate name looks like a path escape.
pub open spec fn origin_suspicious(origin: Seq<char>) -> bool {
    text::contains_seq(origin, ".."@) || origin.contains('/')
}

/// The origin-identity check: non-empty and not path-like.
pub open spec fn origin_check(e: GossipEntryParams) -> CheckView {
    let empty = e.origin_gate@.len() == 0;
    let suspicious = origin_suspicious(e.origin_gate@);
    ("origin_identity"@, !empty && !suspicious, if empty {
        Some("empty origin_gate"@)
    } else if suspicious {
        Some("suspicious origin_gate: "@ + e.origin_gate@)
    } else {
        None
    })
}

/// The TTL check: between 1 and 16 hops.
pub open spec fn ttl_check(e: GossipEntryParams) -> CheckView {
    ("ttl_valid"@, e.ttl > 0 && e.ttl <= MAX_TTL, if e.ttl == 0 {
        Some("TTL is zero (expired)"@)
    } else if e.ttl > MAX_TTL {
        Some("TTL "@ + text::decimal(e.ttl as nat) + " exceeds max 16"@)
    } else {
        None
    })
}

/// The payload-size check: at most 16384 bytes of JSON text.
pub open spec fn payload_check(e: GossipEntryParams) -> CheckView {
    let size = byte_len(e.payload@);
    ("payload_size"@, size <= MAX_PAYLOAD_BYTES, if size <= MAX_PAYLOAD_BYTES {
        None
    } else {
        Some("payload "@ + text::decimal(size) + " bytes exceeds 16384 limit"@)
    })
}

/// The freshness check at time `now` (epoch seconds): an entry without expiry
/// passes with a note; otherwise it must expire after `now`.
pub open spec fn freshness_check(e: GossipEntryParams, now: u64) -> CheckView {
    if e.expires_at_epoch == 0 {
        ("freshness"@, true, Some("no expiry set (locally injected)"@))
    } else {
        let ok = e.expires_at_epoch > now;
        ("freshness"@, ok, if ok {
            None
        } else {
            Some(
                "entry expired: expires_at="@ + text::decimal(e.expires_at_epoch as nat) + " < now="@
                    + text::decimal(now as nat),
            )
        })
    }
}

/// The lifetime of an entry: expiry minus creation, saturating at zero.
pub open spec fn lifetime(e: GossipEntryParams) -> nat {
    if e.expires_at_epoch >= e.created_at_epoch {
        (e.expires_at_epoch - e.created_at_epoch) as nat
    } else {
        0
    }
}

/// The lifetime check: when both times are set, at most one day.
pub open spec fn lifetime_check(e: GossipEntryParams) -> CheckView {
    if e.created_at_epoch == 0 || e.expires_at_epoch == 0 {
        ("lifetime"@, true, None)
    } else {
        let ok = lifetime(e) <= MAX_LIFETIME_SECS;
        ("lifetime"@, ok, if ok {
            None
        } else {
            Some("lifetime "@ + text::decimal(lifetime(e)) + "s exceeds 86400s max"@)
        })
    }
}

/// The quarantine check, given whether the origin gate is quarantined.
pub open spec fn quarantine_check(e: GossipEntryParams, quarantined: bool) -> CheckView {
    ("quarantine"@, !quarantined, if quarantined {
        Some("origin gate '"@ + e.origin_gate@ + "' is quarantined"@)
    } else {
        None
    })
}

/// All eight checks, in the order they run.
pub open spec fn checks_spec(e: GossipEntryParams, now: u64, quarantined: bool) -> Seq<CheckView> {
    seq![
        topic_check(e),
        key_check(e),
        origin_check(e),
        ttl_check(e),
        payload_check(e),
        freshness_check(e, now),
        lifetime_check(e),
        quarantine_check(e, quarantined),
    ]
}

/// The text a failed check contributes to the reason: its detail, or its
/// name when it has none.
pub open spec fn failure_text(c: CheckView) -> Seq<char> {
    match c.2 {
        Some(d) => d,
        None => c.0,
    }
}

/// The failure texts of the failed checks, in order.
pub open spec fn failure_texts(checks: Seq<CheckView>) -> Seq<Seq<char>>
    decreases checks.len(),
{
    if checks.len() == 0 {
        Seq::empty()
    } else if !checks.last().1 {
        failure_texts(checks.drop_last()).push(failure_text(checks.last()))
    } else {
        failure_texts(checks.drop_last())
    }
}

/// The parts joined with `sep` between consecutive parts.
pub open spec fn join(parts: Seq<Seq<char>>, sep: Seq<char>) -> Seq<char>
    decreases parts.len(),
{
    if parts.len() == 0 {
        Seq::empty()
    } else if parts.len() == 1 {
        parts[0]
    } else {
        join(parts.drop_last(), sep) + sep + parts.last()
    }
}

/// The overall verdict. Every check passing gives `Allow`; a failed origin
/// identity check or quarantine check gives `Block`; any other failure gives
/// `Warn`.
pub open spec fn verdict_spec(e: GossipEntryParams, now: u64, quarantined: bool) -> Verdict {
    let cs = checks_spec(e, now, quarantined);
    if forall|i: int| 0 <= i < cs.len() ==> (#[trigger] cs[i]).1 {
        Verdict::Allow
    } else if !origin_check(e).1 || quarantined {
        Verdict::Block
    } else {
        Verdict::Warn
    }
}

/// The reason: "all checks passed", or the failure texts joined with "; ".
pub open spec fn reason_spec(e: GossipEntryParams, now: u64, quarantined: bool) -> Seq<char> {
    let cs = checks_spec(e, now, quarantined);
    if forall|i: int| 0 <= i < cs.len() ==> (#[trigger] cs[i]).1 {
        "all checks passed"@
    } else {
        join(failure_texts(cs), "; "@)
    }
}

/// Whether a verdict is the analysis of `e` at `now` with the origin
/// quarantined or not.
pub open spec fn is_analysis_of(v: GossipVerdict, e: GossipEntryParams, now: u64, quarantined: bool) -> bool {
    &&& v.checks@.map_values(|c: GossipCheckResult| c@) == checks_spec(e, now, quarantined)
    &&& v.verdict == verdict_spec(e, now, quarantined)
    &&& v.reason@ == reason_spec(e, now, quarantined)
    &&& v.origin_gate@ == e.origin_gate@
}

fn result(check: &str, passed: bool, detail: Option<String>) -> (r: GossipCheckResult)
    ensures
        r.check@ == check@,
        r.passed == passed,
        r.detail == detail,
{
    GossipCheckResult { check: text::owned(check), passed, detail }
}

/// Whether a text holds a control character.
fn contains_control(s: &str) -> (r: bool)
    ensures
        r == has_control(s@),
{
    let n = s.unicode_len();
    let mut i: usize = 0;
    while i < n
        invariant
            n == s@.len(),
            i <= n,
            forall|j: int| 0 <= j < i ==> !is_control(#[trigger] s@[j]),
        decreases n - i,
    {
        let c = s.get_char(i);
        let v = c as u32;
        if v <= 0x1f || (0x7f <= v && v <= 0x9f) {
            assert(is_control(s@[i as int]));
            return true;
        }
        i = i + 1;
    }
    false
}

fn check_topic(entry: &GossipEntryParams) -> (r: GossipCheckResult)
    ensures
        r@ == topic_check(*entry),
{
    let t = entry.topic.as_str();
    let passed = text::str_eq(t, "tower") || text::str_eq(t, "data") || text::str_eq(t, "compute");
    result(
        "topic_valid",
        passed,
        if passed {
            None
        } else {
            Some(text::concat2("unknown topic: ", t))
        },
    )
}

fn check_key_format(entry: &GossipEntryParams) -> (r: GossipCheckResult)
    ensures
        r@ == key_check(*entry),
{
    let k = entry.key.as_str();
    let empty = k.is_empty();
    let len = k.len();
    let too_long = len > MAX_KEY_LEN;
    let has_control = contains_control(k);
    let passed = !empty && !too_long && !has_control;
    let detail = if empty {
        Some(text::owned("empty key"))
    } else if too_long {
        let mut d = text::owned("key too long: ");
        text::push_decimal(&mut d, len as u64);
        d.append(" > 256");
        Some(d)
    } else if has_control {
        Some(text::owned("key contains control characters"))
    } else {
        None
    };
    result("key_format", passed, detail)
}

fn check_origin_identity(entry: &GossipEntryParams) -> (r: GossipCheckResult)
    ensures
        r@ == origin_check(*entry),
{
    let o = entry.origin_gate.as_str();
    let empty = o.is_empty();
    let suspicious = text::contains_str(o, "..") || text::contains_char(o, '/');
    let passed = !empty && !suspicious;
    let detail = if empty {
        Some(text::owned("empty origin_gate"))
    } else if suspicious {
        Some(text::concat2("suspicious origin_gate: ", o))
    } else {
        None
    };
    result("origin_identity", passed, detail)
}

fn check_ttl(entry: &GossipEntryParams) -> (r: GossipCheckResult)
    ensures
        r@ == ttl_check(*entry),
{
    let passed = entry.ttl > 0 && entry.ttl <= MAX_TTL;
    let detail = if entry.ttl == 0 {
        Some(text::owned("TTL is zero (expired)"))
    } else if entry.ttl > MAX_TTL {
        let mut d = text::owned("TTL ");
        text::push_decimal(&mut d, entry.ttl as u64);
        d.append(" exceeds max 16");
        Some(d)
    } else {
        None
    };
    result("ttl_valid", passed, detail)
}

fn check_payload_size(entry: &GossipEntryParams) -> (r: GossipCheckResult)
    ensures
        r@ == payload_check(*entry),
{
    let size = entry.payload.as_str().len();
    let passed = size <= MAX_PAYLOAD_BYTES;
    let detail = if passed {
        None
    } else {
        let mut d = text::owned("payload ");
        text::push_decimal(&mut d, size as u64);
        d.append(" bytes exceeds 16384 limit");
        Some(d)
    };
    result("payload_size", passed, detail)
}

fn check_freshness(entry: &GossipEntryParams, now: u64) -> (r: GossipCheckResult)
    ensures
        r@ == freshness_check(*entry, now),
{
    if entry.expires_at_epoch == 0 {
        return result("freshness", true, Some(text::owned("no expiry set (locally injected)")));
    }
    let passed = entry.expires_at_epoch > now;
    let detail = if passed {
        None
    } else {
        let mut d = text::owned("entry expired: expires_at=");
        text::push_decimal(&mut d, entry.expires_at_epoch);
        d.append(" < now=");
        text::push_decimal(&mut d, now);
        Some(d)
    };
    result("freshness", passed, detail)
}

fn check_lifetime(entry: &GossipEntryParams) -> (r: GossipCheckResult)
    ensures
        r@ == lifetime_check(*entry),
{
    if entry.created_at_epoch == 0 || entry.expires_at_epoch == 0 {
        return result("lifetime", true, None);
    }
    let lifetime = entry.expires_at_epoch.saturating_sub(entry.created_at_epoch);
    let passed = lifetime <= MAX_LIFETIME_SECS;
    let detail = if passed {
        None
    } else {
        let mut d = text::owned("lifetime ");
        text::push_decimal(&mut d, lifetime);
        d.append("s exceeds 86400s max");
        Some(d)
    };
    result("lifetime", passed, detail)
}

fn check_quarantine(origin_gate: &str, quarantined: bool) -> (r: GossipCheckResult)
    ensures
        r@ == ("quarantine"@, !quarantined, if quarantined {
            Some("origin gate '"@ + origin_gate@ + "' is quarantined"@)
        } else {
            None
        }),
{
    let detail = if quarantined {
        Some(text::concat3("origin gate '", origin_gate, "' is quarantined"))
    } else {
        None
    };
    result("quarantine", !quarantined, detail)
}

/// The failure text of a check result as an owned string.
fn failure_text_of(c: &GossipCheckResult) -> (r: String)
    ensures
        r@ == failure_text(c@),
{
    match &c.detail {
        Some(d) => d.clone(),
        None => c.check.clone(),
    }
}

/// Run every check with the current time in epoch seconds `now` and whether
/// the origin gate is quarantined, and compose the verdict.
pub fn analyze_gossip_entry_at(entry: &GossipEntryParams, now: u64, origin_quarantined: bool) -> (v:
    GossipVerdict)
    ensures
        is_analysis_of(v, *entry, now, origin_quarantined),
{
    let mut checks: Vec<GossipCheckResult> = Vec::new();
    checks.push(check_topic(entry));
    checks.push(check_key_format(entry));
    checks.push(check_origin_identity(entry));
    checks.push(check_ttl(entry));
    checks.push(check_payload_size(entry));
    checks.push(check_freshness(entry, now));
    checks.push(check_lifetime(entry));
    checks.push(check_quarantine(entry.origin_gate.as_str(), origin_quarantined));
    let ghost cs = checks_spec(*entry, now, origin_quarantined);
    assert(checks@.map_values(|c: GossipCheckResult| c@) =~= cs);

    let mut reason = String::new();
    let mut failed: usize = 0;
    let mut i: usize = 0;
    while i < checks.len()
        invariant
            checks@.map_values(|c: GossipCheckResult| c@) == cs,
            cs.len() == 8,
            i <= checks@.len(),
            failed == failure_texts(cs.take(i as int)).len(),
            failed <= i,
            reason@ == join(failure_texts(cs.take(i as int)), "; "@),
        decreases checks@.len() - i,
    {
        let ghost prev = cs.take(i as int);
        let ghost next = cs.take(i + 1);
        assert(next.drop_last() =~= prev);
        assert(checks@[i as int]@ == cs[i as int]);
        if !checks[i].passed {
            let t = failure_text_of(&checks[i]);
            if failed > 0 {
                reason.append("; ");
            }
            reason.append(t.as_str());
            failed = failed + 1;
            proof {
                let parts = failure_texts(prev);
                assert(failure_texts(next) == parts.push(failure_text(cs[i as int])));
                let np = parts.push(failure_text(cs[i as int]));
                assert(np.drop_last() =~= parts);
                if parts.len() == 0 {
                    assert(reason@ =~= join(np, "; "@));
                } else {
                    assert(reason@ =~= join(np, "; "@));
                }
            }
        }
        i = i + 1;
    }
    assert(cs.take(8) =~= cs);
    let all_passed = failed == 0;
    proof {
        lemma_failure_texts_empty(cs);
    }
    let verdict = if all_passed {
        Verdict::Allow
    } else if !checks[2].passed || origin_quarantined {
        Verdict::Block
    } else {
        Verdict::Warn
    };
    let reason = if all_passed {
        text::owned("all checks passed")
    } else {
        reason
    };
    GossipVerdict { verdict, reason, origin_gate: entry.origin_gate.clone(), checks }
}

/// There are no failure texts exactly when every check passed.
proof fn lemma_failure_texts_empty(cs: Seq<CheckView>)
    ensures
        (failure_texts(cs).len() == 0) <==> (forall|i: int| 0 <= i < cs.len() ==> (#[trigger] cs[i]).1),
    decreases cs.len(),
{
    if cs.len() > 0 {
        lemma_failure_texts_empty(cs.drop_last());
        if forall|i: int| 0 <= i < cs.len() ==> (#[trigger] cs[i]).1 {
            assert forall|i: int| 0 <= i < cs.drop_last().len() implies (#[trigger] cs.drop_last()[i]).1 by {
                assert(cs.drop_last()[i] == cs[i]);
            }
        } else {
            let j = choose|j: int| 0 <= j < cs.len() && !(#[trigger] cs[j]).1;
            if j < cs.len() - 1 {
                assert(!cs.drop_last()[j].1);
            }
        }
    }
}


/// An entry whose origin gate is quarantined is always blocked.
pub proof fn lemma_quarantined_origin_blocks(e: GossipEntryParams, now: u64)
    ensures
        verdict_spec(e, now, true) == Verdict::Block,
{
    let cs = checks_spec(e, now, true);
    assert(!cs[7].1);
}

/// An entry with an empty or path-like origin gate is always blocked.
pub proof fn lemma_bad_origin_blocks(e: GossipEntryParams, now: u64, quarantined: bool)
    requires
        e.origin_gate@.len() == 0 || origin_suspicious(e.origin_gate@),
    ensures
        verdict_spec(e, now, quarantined) == Verdict::Block,
{
    let cs = checks_spec(e, now, quarantined);
    assert(!cs[2].1);
}

/// An entry that expired at or before `now` is never allowed.
pub proof fn lemma_expired_not_allowed(e: GossipEntryParams, now: u64, quarantined: bool)
    requires
        e.expires_at_epoch != 0,
        e.expires_at_epoch <= now,
    ensures
        verdict_spec(e, now, quarantined) != Verdict::Allow,
{
    let cs = checks_spec(e, now, quarantined);
    assert(!cs[5].1);
}

/// A verdict is `Allow` exactly when every check passed, and then its reason
/// says so.
pub proof fn lemma_allow_iff_all_pass(e: GossipEntryParams, now: u64, quarantined: bool)
    ensures
        (verdict_spec(e, now, quarantined) == Verdict::Allow) <==> (forall|i: int|
            0 <= i < 8 ==> (#[trigger] checks_spec(e, now, quarantined)[i]).1),
        verdict_spec(e, now, quarantined) == Verdict::Allow ==> reason_spec(e, now, quarantined)
            == "all checks passed"@,
{
}

/// The analysis runs its eight checks in a fixed order (topic, key format,
/// origin identity, TTL, payload size, freshness, lifetime, quarantine); it
/// blocks exactly when the origin-identity or the quarantine check failed,
/// and warns exactly when some other check failed while those two passed.
pub proof fn lemma_gossip_composition(e: GossipEntryParams, now: u64, quarantined: bool)
    ensures
        checks_spec(e, now, quarantined).map_values(|c: CheckView| c.0) == seq![
            "topic_valid"@,
            "key_format"@,
            "origin_identity"@,
            "ttl_valid"@,
            "payload_size"@,
            "freshness"@,
            "lifetime"@,
            "quarantine"@,
        ],
        verdict_spec(e, now, quarantined) == Verdict::Block <==> (!checks_spec(e, now, quarantined)[2].1
            || !checks_spec(e, now, quarantined)[7].1),
        verdict_spec(e, now, quarantined) == Verdict::Warn <==> (checks_spec(e, now, quarantined)[2].1
            && checks_spec(e, now, quarantined)[7].1 && exists|i: int|
            0 <= i < 8 && !(#[trigger] checks_spec(e, now, quarantined)[i]).1),
{
    let cs = checks_spec(e, now, quarantined);
    assert(cs.map_values(|c: CheckView| c.0) =~= seq![
        "topic_valid"@,
        "key_format"@,
        "origin_identity"@,
        "ttl_valid"@,
        "payload_size"@,
        "freshness"@,
        "lifetime"@,
        "quarantine"@,
    ]);
    if !cs[2].1 || !cs[7].1 {
        assert(!(forall|i: int| 0 <= i < cs.len() ==> (#[trigger] cs[i]).1)) by {
            if !cs[2].1 {
                assert(!cs[2].1);
            } else {
                assert(!cs[7].1);
            }
        }
    }
}

/// An entry whose origin gate names a path (it holds `/`) is always
/// blocked: its origin-identity check fails with the reason
/// `suspicious origin_gate: <gate>`, whatever else holds of the entry.
pub proof fn lemma_slash_origin_blocked(e: GossipEntryParams, now: u64, quarantined: bool)
    requires
        e.origin_gate@.contains('/'),
    ensures
        verdict_spec(e, now, quarantined) == Verdict::Block,
        !checks_spec(e, now, quarantined)[2].1,
        checks_spec(e, now, quarantined)[2].0 == "origin_identity"@,
        checks_spec(e, now, quarantined)[2].2 == Some("suspicious origin_gate: "@ + e.origin_gate@),
{
    assert(e.origin_gate@.len() > 0);
    let cs = checks_spec(e, now, quarantined);
    assert(!cs[2].1);
    assert(!(forall|i: int| 0 <= i < cs.len() ==> (#[trigger] cs[i]).1));
}

/// An entry whose origin gate holds `..` (a parent-directory escape) is
/// always blocked, its origin-identity check failing with the reason
/// `suspicious origin_gate: <gate>`.
pub proof fn lemma_dotdot_origin_blocked(e: GossipEntryParams, now: u64, quarantined: bool, i: int)
    requires
        0 <= i && i + 1 < e.origin_gate@.len(),
        e.origin_gate@[i] == '.',
        e.origin_gate@[i + 1] == '.',
    ensures
        verdict_spec(e, now, quarantined) == Verdict::Block,
        !checks_spec(e, now, quarantined)[2].1,
        checks_spec(e, now, quarantined)[2].2 == Some("suspicious origin_gate: "@ + e.origin_gate@),
{
    reveal_strlit("..");
    assert(e.origin_gate@.subrange(i, i + 2) =~= ".."@);
    assert(text::occurs_at(e.origin_gate@, ".."@, i));
    let cs = checks_spec(e, now, quarantined);
    assert(!cs[2].1);
    assert(!(forall|j: int| 0 <= j < cs.len() ==> (#[trigger] cs[j]).1));
}

/// Calls `Duration::as_secs` on the time since the epoch.
fn now_epoch_secs() -> u64 {
    match clock::since_unix_epoch(clock::system_now()) {
        Some(d) => clock::duration_secs(&d),
        None => 0,
    }
}

/// Run every check against the current time, asking `is_quarantined` about
/// the origin gate, and compose the verdict.
pub fn analyze_gossip_entry<F: Fn(&str) -> bool>(entry: &GossipEntryParams, is_quarantined: F) -> (v:
    GossipVerdict)
    requires
        forall|s: &str| is_quarantined.requires((s,)),
    ensures
        exists|now: u64, q: bool|
            is_analysis_of(v, *entry, now, q) && (exists|s: &str|
                s@ == entry.origin_gate@ && is_quarantined.ensures((s,), q)),
{
    let now = now_epoch_secs();
    let origin = entry.origin_gate.as_str();
    let q = is_quarantined(origin);
    analyze_gossip_entry_at(entry, now, q)
}

} // verus!
