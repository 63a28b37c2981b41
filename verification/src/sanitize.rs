//! Redaction of credential-like values from messages.
//!
//! For each sensitive marker (`password=`, `api_key=`, `secret=`, `token=`),
//! taken in that order, the first occurrence of the marker has the value that
//! follows it replaced by `***`.  The value ends at the first whitespace,
//! comma, or semicolon after the marker, or at the end of the message.

use vstd::prelude::*;
use vstd::string::*;

use crate::text::contains_seq;
use crate::text::find_first;
use crate::text::find_from;
use crate::text::find_str;
use crate::text::lemma_find_from_correct;
use crate::text::match_at;

verus! {

/// A redacted value ends at the first whitespace, comma, or semicolon.
pub open spec fn is_delimiter(c: char) -> bool {
    is_whitespace(c) || c == ',' || c == ';'
}

/// The Unicode white-space characters, by scalar value.
pub open spec fn is_whitespace(c: char) -> bool {
    let u = c as u32;
    ||| u == 0x20
    ||| (0x9 <= u && u <= 0xD)
    ||| u == 0x85
    ||| u == 0xA0
    ||| u == 0x1680
    ||| (0x2000 <= u && u <= 0x200A)
    ||| u == 0x2028
    ||| u == 0x2029
    ||| u == 0x202F
    ||| u == 0x205F
    ||| u == 0x3000
}

/// Index of the first delimiter in `s` at or after `i`, or `s.len()` when
/// no delimiter follows.
pub open spec fn value_end(s: Seq<char>, i: int) -> int
    decreases s.len() - i,
{
    if i >= s.len() {
        s.len() as int
    } else if is_delimiter(s[i]) {
        i
    } else {
        value_end(s, i + 1)
    }
}

/// `value_end` stays within bounds, skips only non-delimiters, and stops at
/// a delimiter when it stops before the end.
pub proof fn lemma_value_end(s: Seq<char>, i: int)
    requires
        0 <= i <= s.len(),
    ensures
        i <= value_end(s, i) <= s.len(),
        forall|k: int| i <= k < value_end(s, i) ==> !is_delimiter(s[k]),
        value_end(s, i) < s.len() ==> is_delimiter(s[value_end(s, i)]),
    decreases s.len() - i,
{
    if i >= s.len() {
    } else if is_delimiter(s[i]) {
    } else {
        lemma_value_end(s, i + 1);
    }
}

/// The replacement text.
pub open spec fn stars() -> Seq<char> {
    seq!['*', '*', '*']
}

/// Character index just past the first occurrence of marker `m` in `s`:
/// the start of the value to redact.  Meaningful only when `m` occurs in `s`.
pub open spec fn redact_start(s: Seq<char>, m: Seq<char>) -> int {
    find_first(s, m)->0 + m.len()
}

/// End of the value to redact.  Meaningful only when `m` occurs in `s`.
pub open spec fn redact_end(s: Seq<char>, m: Seq<char>) -> int {
    value_end(s, redact_start(s, m))
}

/// The value that follows the first occurrence of marker `m` in `s`: the
/// characters the redaction removes.  Meaningful only when `m` occurs in `s`.
pub open spec fn secret_value(s: Seq<char>, m: Seq<char>) -> Seq<char> {
    s.subrange(redact_start(s, m), redact_end(s, m))
}

/// One redaction step: if `m` occurs in `s`, the value after its first
/// occurrence is replaced by `***`; otherwise `s` is unchanged.
pub open spec fn redact_marker(s: Seq<char>, m: Seq<char>) -> Seq<char> {
    if find_first(s, m) is Some {
        s.subrange(0, redact_start(s, m)) + stars() + s.subrange(
            redact_end(s, m),
            s.len() as int,
        )
    } else {
        s
    }
}

/// The sensitive markers, in the order they are processed.
pub open spec fn markers() -> Seq<Seq<char>> {
    seq!["password="@, "api_key="@, "secret="@, "token="@]
}

/// The message after the first `k` markers have been processed.
pub open spec fn stage(s: Seq<char>, k: int) -> Seq<char>
    decreases k,
{
    if k <= 0 {
        s
    } else {
        redact_marker(stage(s, k - 1), markers()[k - 1])
    }
}

/// The fully sanitized message: every marker processed, in order.
pub open spec fn sanitize(s: Seq<char>) -> Seq<char> {
    stage(s, 4)
}

/// Shape of one redaction when the marker occurs: the span is in bounds,
/// holds no delimiter, and the result keeps the prefix (marker included),
/// shows `***`, and keeps the tail.
pub proof fn lemma_redact_marker_shape(s: Seq<char>, m: Seq<char>)
    requires
        find_first(s, m) is Some,
    ensures
        m.len() <= redact_start(s, m) <= redact_end(s, m) <= s.len(),
        match_at(s, m, redact_start(s, m) - m.len()),
        forall|k: int| redact_start(s, m) <= k < redact_end(s, m) ==> !is_delimiter(s[k]),
        redact_marker(s, m) == s.subrange(0, redact_start(s, m)) + stars() + s.subrange(
            redact_end(s, m),
            s.len() as int,
        ),
        match_at(redact_marker(s, m), m + stars(), redact_start(s, m) - m.len()),
        contains_seq(redact_marker(s, m), m + stars()),
{
    lemma_find_from_correct(s, m, 0);
    let idx = find_first(s, m)->0;
    let start = redact_start(s, m);
    let end = redact_end(s, m);
    lemma_value_end(s, start);
    let r = redact_marker(s, m);
    assert(r.subrange(idx, idx + (m + stars()).len()) =~= m + stars()) by {
        assert(s.subrange(idx, idx + m.len()) == m);
        assert forall|j: int| 0 <= j < m.len() + 3 implies r[idx + j] == (m + stars())[j] by {
            if j < m.len() {
                assert(s.subrange(idx, idx + m.len())[j] == s[idx + j]);
            }
        }
    }
    assert(match_at(r, m + stars(), idx));
}

/// Where a pattern free of `*` can sit inside a redacted string: wholly in
/// the kept prefix or wholly in the kept tail, so it already occurred in the
/// input outside the redacted span.
proof fn lemma_occurrence_in_redacted(s: Seq<char>, m: Seq<char>, v: Seq<char>, a: int)
    requires
        find_first(s, m) is Some,
        v.len() > 0,
        forall|k: int| 0 <= k < v.len() ==> v[k] != '*',
        match_at(redact_marker(s, m), v, a),
    ensures
        (a + v.len() <= redact_start(s, m) && match_at(s, v, a)) || (a >= redact_start(s, m) + 3
            && match_at(s, v, a - redact_start(s, m) - 3 + redact_end(s, m))),
{
    lemma_redact_marker_shape(s, m);
    let start = redact_start(s, m);
    let end = redact_end(s, m);
    let r = redact_marker(s, m);
    let l = v.len() as int;
    assert(r.len() == start + 3 + s.len() - end);
    assert(r.subrange(a, a + l) == v);
    assert forall|j: int| 0 <= j < l implies r[a + j] == v[j] by {
        assert(r.subrange(a, a + l)[j] == r[a + j]);
    }
    if a < start + 3 && a + l > start {
        // The occurrence would cover a `*`.
        let x = if a + l <= start + 3 { a + l - 1 } else { if a >= start { a } else { start } };
        assert(r[x] == '*');
        assert(v[x - a] == '*');
        assert(false);
    } else if a + l <= start {
        assert(s.subrange(a, a + l) =~= v) by {
            assert forall|j: int| 0 <= j < l implies s[a + j] == v[j] by {
                assert(r[a + j] == s[a + j]);
            }
        }
    } else {
        let b = a - start - 3 + end;
        assert(a >= start + 3);
        assert(s.subrange(b, b + l) =~= v) by {
            assert forall|j: int| 0 <= j < l implies s[b + j] == v[j] by {
                assert(r[a + j] == s[a + j - start - 3 + end]);
            }
        }
    }
}

/// A redaction step never introduces a new occurrence of a pattern that is
/// free of `*`: what is absent from the message stays absent.
pub proof fn lemma_redact_marker_preserves_absence(s: Seq<char>, m: Seq<char>, v: Seq<char>)
    requires
        v.len() > 0,
        forall|k: int| 0 <= k < v.len() ==> v[k] != '*',
        !contains_seq(s, v),
    ensures
        !contains_seq(redact_marker(s, m), v),
{
    if find_first(s, m) is Some {
        if contains_seq(redact_marker(s, m), v) {
            let a = choose|a: int| match_at(redact_marker(s, m), v, a);
            lemma_occurrence_in_redacted(s, m, v, a);
            assert(false);
        }
    }
}

/// The value that followed a matched marker is gone after the redaction,
/// provided it is free of `*` and occurs in the message only over the
/// redacted span.
pub proof fn lemma_redact_marker_removes_value(s: Seq<char>, m: Seq<char>)
    requires
        find_first(s, m) is Some,
        secret_value(s, m).len() > 0,
        forall|k: int| 0 <= k < secret_value(s, m).len() ==> secret_value(s, m)[k] != '*',
        forall|j: int|
            match_at(s, secret_value(s, m), j) ==> j + secret_value(s, m).len() > redact_start(
                s,
                m,
            ) && j < redact_end(s, m),
    ensures
        !contains_seq(redact_marker(s, m), secret_value(s, m)),
{
    lemma_redact_marker_shape(s, m);
    let v = secret_value(s, m);
    let start = redact_start(s, m);
    let end = redact_end(s, m);
    if contains_seq(redact_marker(s, m), v) {
        let a = choose|a: int| match_at(redact_marker(s, m), v, a);
        lemma_occurrence_in_redacted(s, m, v, a);
        if a + v.len() <= start {
            assert(match_at(s, v, a));
        } else {
            let b = a - start - 3 + end;
            assert(match_at(s, v, b));
            assert(b >= end);
        }
        assert(false);
    }
}

/// Later redaction stages keep an absent pattern absent.
proof fn lemma_stages_preserve_absence(s: Seq<char>, v: Seq<char>, j: int, k: int)
    requires
        0 <= j <= k <= 4,
        v.len() > 0,
        forall|i: int| 0 <= i < v.len() ==> v[i] != '*',
        !contains_seq(stage(s, j), v),
    ensures
        !contains_seq(stage(s, k), v),
    decreases k - j,
{
    if j < k {
        lemma_redact_marker_preserves_absence(stage(s, j), markers()[j], v);
        lemma_stages_preserve_absence(s, v, j + 1, k);
    }
}

/// The sanitized message never contains the value that followed a matched
/// marker.  `k` names the marker (its position in the processing order) and
/// the value is the one the redaction of that marker removed; the value must
/// be free of `*` and must occur, at that point of processing, only over the
/// redacted span.
pub proof fn lemma_sanitize_removes_secret(s: Seq<char>, k: int)
    requires
        0 <= k < 4,
        find_first(stage(s, k), markers()[k]) is Some,
        secret_value(stage(s, k), markers()[k]).len() > 0,
        forall|i: int|
            0 <= i < secret_value(stage(s, k), markers()[k]).len() ==> secret_value(
                stage(s, k),
                markers()[k],
            )[i] != '*',
        forall|j: int|
            match_at(stage(s, k), secret_value(stage(s, k), markers()[k]), j) ==> j + secret_value(
                stage(s, k),
                markers()[k],
            ).len() > redact_start(stage(s, k), markers()[k]) && j < redact_end(
                stage(s, k),
                markers()[k],
            ),
    ensures
        !contains_seq(sanitize(s), secret_value(stage(s, k), markers()[k])),
{
    lemma_redact_marker_removes_value(stage(s, k), markers()[k]);
    assert(stage(s, k + 1) == redact_marker(stage(s, k), markers()[k]));
    lemma_stages_preserve_absence(s, secret_value(stage(s, k), markers()[k]), k + 1, 4);
}

/// Wherever a marker was found during sanitization, the message as of the
/// next processing step shows the marker followed by `***`.
pub proof fn lemma_stage_shows_redaction(s: Seq<char>, k: int)
    requires
        0 <= k < 4,
        find_first(stage(s, k), markers()[k]) is Some,
    ensures
        contains_seq(stage(s, k + 1), markers()[k] + stars()),
{
    lemma_redact_marker_shape(stage(s, k), markers()[k]);
    assert(stage(s, k + 1) == redact_marker(stage(s, k), markers()[k]));
}

/// Whether `c` ends a redacted value.
fn is_delimiter_exec(c: char) -> (r: bool)
    ensures
        r == is_delimiter(c),
{
    let u = c as u32;
    u == 0x20 || (0x9 <= u && u <= 0xD) || u == 0x85 || u == 0xA0 || u == 0x1680 || (0x2000 <= u
        && u <= 0x200A) || u == 0x2028 || u == 0x2029 || u == 0x202F || u == 0x205F || u == 0x3000
        || u == 0x2C || u == 0x3B
}

/// Finds the end of the value that starts at `start`.
fn value_end_exec(s: &str, start: usize, s_len: usize) -> (r: usize)
    requires
        s_len == s@.len(),
        start <= s_len,
    ensures
        r == value_end(s@, start as int),
{
    let mut i: usize = start;
    while i < s_len
        invariant
            start <= i <= s_len,
            s_len == s@.len(),
            value_end(s@, start as int) == value_end(s@, i as int),
        decreases s_len - i,
    {
        if is_delimiter_exec(s.get_char(i)) {
            return i;
        }
        assert(value_end(s@, i as int) == value_end(s@, i + 1));
        i = i + 1;
    }
    i
}

/// Performs one redaction step on `s`.
fn redact_marker_exec(s: &str, m: &str) -> (r: String)
    ensures
        r@ == redact_marker(s@, m@),
{
    match find_str(s, m) {
        None => String::from_str(s),
        Some(idx) => {
            proof {
                lemma_redact_marker_shape(s@, m@);
            }
            let s_len = s.unicode_len();
            let m_len = m.unicode_len();
            let start = idx + m_len;
            let end = value_end_exec(s, start, s_len);
            let mut out = String::from_str(s.substring_char(0, start));
            out.append("***");
            out.append(s.substring_char(end, s_len));
            proof {
                reveal_strlit("***");
                assert("***"@ =~= stars());
                assert(out@ =~= redact_marker(s@, m@));
            }
            out
        },
    }
}

/// Returns `s` with the value after each sensitive marker replaced by `***`.
pub fn sanitize_text(s: &str) -> (r: String)
    ensures
        r@ == sanitize(s@),
{
    let s1 = redact_marker_exec(s, "password=");
    let s2 = redact_marker_exec(s1.as_str(), "api_key=");
    let s3 = redact_marker_exec(s2.as_str(), "secret=");
    let s4 = redact_marker_exec(s3.as_str(), "token=");
    proof {
        reveal_with_fuel(stage, 5);
        assert(s1@ == stage(s@, 1));
        assert(s2@ == stage(s@, 2));
        assert(s3@ == stage(s@, 3));
        assert(s4@ == stage(s@, 4));
    }
    s4
}

} // verus!
