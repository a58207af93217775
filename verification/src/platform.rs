//! Reading the kernel's process accounting text.
//!
//! The process reads `/proc/stat` and `/proc/self/status`; what those texts
//! mean (the fork counter, the user ID) is worked out here.

use crate::text::{self, first_index_of, has_prefix, is_whitespace};
use vstd::prelude::*;

verus! {

/// Standard first non-system UID on most Linux distributions.
pub const DEFAULT_USER_UID: u32 = 1000;

/// The pieces of a text between its newlines. (`str::lines` also drops a
/// final empty piece and a carriage return before each newline; neither
/// changes which line first starts with a given word, nor that line's
/// whitespace-separated words.)
pub open spec fn line_pieces(s: Seq<char>) -> Seq<Seq<char>>
    decreases s.len(),
{
    match first_index_of(s, '\n') {
        None => seq![s],
        Some(i) => if 0 <= i < s.len() {
            seq![s.take(i)] + line_pieces(s.skip(i + 1))
        } else {
            seq![s]
        },
    }
}

/// The first line that starts with `p`, if any.
pub open spec fn first_line_with_prefix(lines: Seq<Seq<char>>, p: Seq<char>) -> Option<Seq<char>>
    decreases lines.len(),
{
    if lines.len() == 0 {
        None
    } else if has_prefix(lines[0], p) {
        Some(lines[0])
    } else {
        first_line_with_prefix(lines.skip(1), p)
    }
}

/// The length of the leading run of non-whitespace characters.
pub open spec fn word_len(s: Seq<char>) -> nat
    decreases s.len(),
{
    if s.len() == 0 || is_whitespace(s[0]) {
        0
    } else {
        1 + word_len(s.skip(1))
    }
}

/// The whitespace-separated words of a text, as `str::split_whitespace`
/// yields them.
pub open spec fn words(s: Seq<char>) -> Seq<Seq<char>>
    decreases s.len(),
{
    if s.len() == 0 {
        Seq::empty()
    } else if is_whitespace(s[0]) {
        words(s.skip(1))
    } else {
        let k = word_len(s);
        if 0 < k <= s.len() {
            seq![s.take(k as int)] + words(s.skip(k as int))
        } else {
            Seq::empty()
        }
    }
}

/// The second word of the first line starting with `key`, if there is one.
pub open spec fn keyed_value(text: Seq<char>, key: Seq<char>) -> Option<Seq<char>> {
    match first_line_with_prefix(line_pieces(text), key) {
        Some(l) => if words(l).len() > 1 {
            Some(words(l)[1])
        } else {
            None
        },
        None => None,
    }
}

/// Total forks since boot from the text of `/proc/stat`: the number after
/// `processes` on its `processes ` line; 0 when there is none.
pub open spec fn total_forks_spec(stat: Seq<char>) -> u64 {
    match keyed_value(stat, "processes "@) {
        Some(v) => match text::parse_u64_spec(v) {
            Some(n) => n,
            None => 0,
        },
        None => 0,
    }
}

/// The real user ID from the text of `/proc/self/status`: the first number
/// on its `Uid:` line, if it parses.
pub open spec fn proc_uid_spec(status: Seq<char>) -> Option<u32> {
    match keyed_value(status, "Uid:"@) {
        Some(v) => text::parse_u32_spec(v),
        None => None,
    }
}

proof fn lemma_word_len_bounds(s: Seq<char>)
    ensures
        word_len(s) <= s.len(),
        s.len() > 0 && !is_whitespace(s[0]) ==> word_len(s) > 0,
        forall|j: int| 0 <= j < word_len(s) ==> !is_whitespace(#[trigger] s[j]),
    decreases s.len(),
{
    if s.len() > 0 && !is_whitespace(s[0]) {
        lemma_word_len_bounds(s.skip(1));
        assert forall|j: int| 0 <= j < word_len(s) implies !is_whitespace(#[trigger] s[j]) by {
            if j > 0 {
                assert(s[j] == s.skip(1)[j - 1]);
            }
        }
    }
}

/// The first line of `s` that starts with `p`.
fn first_line_with<'a>(s: &'a str, p: &str) -> (r: Option<&'a str>)
    ensures
        match r {
            Some(l) => first_line_with_prefix(line_pieces(s@), p@) == Some(l@),
            None => first_line_with_prefix(line_pieces(s@), p@) is None,
        },
{
    let n = s.unicode_len();
    let mut start: usize = 0;
    assert(s@.skip(0) =~= s@);
    loop
        invariant
            n == s@.len(),
            start <= n,
            first_line_with_prefix(line_pieces(s@), p@) == first_line_with_prefix(
                line_pieces(s@.skip(start as int)),
                p@,
            ),
        decreases n - start,
    {
        let ghost t = s@.skip(start as int);
        match text::find_char_from(s, '\n', start) {
            Some(i) => {
                let line = s.substring_char(start, i);
                proof {
                    assert(t.take(i - start) =~= s@.subrange(start as int, i as int));
                    assert(t.skip(i - start + 1) =~= s@.skip(i + 1));
                    assert(line_pieces(t) == seq![t.take(i - start)] + line_pieces(t.skip(i - start + 1)));
                    assert((seq![t.take(i - start)] + line_pieces(t.skip(i - start + 1)))[0] == t.take(i - start));
                    assert((seq![t.take(i - start)] + line_pieces(t.skip(i - start + 1))).skip(1) =~= line_pieces(t.skip(i - start + 1)));
                }
                if text::starts_with(line, p) {
                    return Some(line);
                }
                start = i + 1;
            },
            None => {
                let line = s.substring_char(start, n);
                proof {
                    assert(s@.subrange(start as int, n as int) =~= t);
                    assert(line_pieces(t) == seq![t]);
                    assert(seq![t].skip(1) =~= Seq::<Seq<char>>::empty());
                }
                if text::starts_with(line, p) {
                    return Some(line);
                }
                proof {
                    let ls = line_pieces(t);
                    assert(ls.len() == 1 && ls[0] == t);
                    assert(!has_prefix(ls[0], p@));
                    assert(first_line_with_prefix(ls.skip(1), p@) is None);
                }
                return None;
            },
        }
    }
}

/// The next word of `s` at or after position `from`: its start and end.
fn next_word(s: &str, from: usize) -> (r: Option<(usize, usize)>)
    requires
        from <= s@.len(),
    ensures
        match r {
            Some((a, b)) => from <= a < b <= s@.len() && words(s@.skip(from as int)) == seq![
                s@.subrange(a as int, b as int),
            ] + words(s@.skip(b as int)),
            None => words(s@.skip(from as int)).len() == 0,
        },
{
    let n = s.unicode_len();
    let mut i: usize = from;
    while i < n && text::is_whitespace_exec(s.get_char(i))
        invariant
            n == s@.len(),
            from <= i <= n,
            words(s@.skip(from as int)) == words(s@.skip(i as int)),
        decreases n - i,
    {
        proof {
            assert(s@.skip(i as int)[0] == s@[i as int]);
            assert(s@.skip(i as int).skip(1) =~= s@.skip(i + 1));
        }
        i = i + 1;
    }
    if i == n {
        assert(s@.skip(i as int).len() == 0);
        return None;
    }
    let mut j: usize = i;
    let ghost t = s@.skip(i as int);
    while j < n && !text::is_whitespace_exec(s.get_char(j))
        invariant
            n == s@.len(),
            i <= j <= n,
            t == s@.skip(i as int),
            word_len(t) == (j - i) + word_len(s@.skip(j as int)),
        decreases n - j,
    {
        proof {
            assert(s@.skip(j as int)[0] == s@[j as int]);
            assert(s@.skip(j as int).skip(1) =~= s@.skip(j + 1));
        }
        j = j + 1;
    }
    proof {
        if j < n {
            assert(s@.skip(j as int)[0] == s@[j as int]);
        }
        assert(word_len(s@.skip(j as int)) == 0);
        assert(t[0] == s@[i as int]);
        lemma_word_len_bounds(t);
        assert(t.take(j - i) =~= s@.subrange(i as int, j as int));
        assert(t.skip(j - i) =~= s@.skip(j as int));
    }
    Some((i, j))
}

/// The second word of `line`, if it has two.
fn second_word(line: &str) -> (r: Option<&str>)
    ensures
        words(line@).len() > 1 ==> (r matches Some(w) && w@ == words(line@)[1]),
        words(line@).len() <= 1 ==> r is None,
{
    assert(line@.skip(0) =~= line@);
    match next_word(line, 0) {
        Some((_a, b)) => match next_word(line, b) {
            Some((c, d)) => {
                let w = line.substring_char(c, d);
                Some(w)
            },
            None => None,
        },
        None => None,
    }
}

/// Total forks since boot, from the text of `/proc/stat`.
pub fn read_total_forks(stat: &str) -> (r: u64)
    ensures
        r == total_forks_spec(stat@),
{
    proof {
        reveal_strlit("processes ");
    }
    match first_line_with(stat, "processes ") {
        Some(line) => match second_word(line) {
            Some(v) => match text::parse_u64(v) {
                Some(n) => n,
                None => 0,
            },
            None => 0,
        },
        None => 0,
    }
}

/// The real user ID, from the text of `/proc/self/status`.
pub fn parse_proc_uid(status: &str) -> (r: Option<u32>)
    ensures
        r == proc_uid_spec(status@),
{
    proof {
        reveal_strlit("Uid:");
    }
    match first_line_with(status, "Uid:") {
        Some(line) => match second_word(line) {
            Some(v) => text::parse_u32(v),
            None => None,
        },
        None => None,
    }
}

/// The user ID reported by `id -u`: its output, trimmed, as a number;
/// `DEFAULT_USER_UID` when there is no output or it does not parse.
pub fn uid_fallback(id_output: Option<&str>) -> (r: u32)
    ensures
        r == (match id_output {
            Some(o) => match text::parse_u32_spec(text::trim_spec(o@)) {
                Some(u) => u,
                None => DEFAULT_USER_UID,
            },
            None => DEFAULT_USER_UID,
        }),
{
    match id_output {
        Some(o) => match text::parse_u32(text::trim(o)) {
            Some(u) => u,
            None => DEFAULT_USER_UID,
        },
        None => DEFAULT_USER_UID,
    }
}

} // verus!
