//! Post-processing of raw generated text: the split at the last closing
//! "thought" marker into a diagnostic thought segment and the user-visible
//! answer, with whitespace trimming as the chat layer applies it.

use vstd::prelude::*;
use vstd::string::StrSliceExecFns;

verus! {

/// A raw output split once: an optional thought segment (logged by the
/// caller, never returned to the end user) and the final answer.
pub struct ThoughtAnswerSplit {
    pub thought: Option<String>,
    pub answer: String,
}

/// Unicode whitespace, the class `str::trim` removes.
pub open spec fn is_ws(c: char) -> bool {
    let u = c as u32;
    (9 <= u && u <= 13) || u == 32 || u == 0x85 || u == 0xA0 || u == 0x1680 || (0x2000 <= u && u
        <= 0x200A) || u == 0x2028 || u == 0x2029 || u == 0x202F || u == 0x205F || u == 0x3000
}

/// The sequence with its leading whitespace removed.
pub open spec fn trim_start_of(s: Seq<char>) -> Seq<char>
    decreases s.len(),
{
    if s.len() > 0 && is_ws(s[0]) {
        trim_start_of(s.drop_first())
    } else {
        s
    }
}

/// The sequence with its trailing whitespace removed.
pub open spec fn trim_end_of(s: Seq<char>) -> Seq<char>
    decreases s.len(),
{
    if s.len() > 0 && is_ws(s.last()) {
        trim_end_of(s.drop_last())
    } else {
        s
    }
}

/// The sequence with whitespace removed at both ends.
pub open spec fn trim_of(s: Seq<char>) -> Seq<char> {
    trim_end_of(trim_start_of(s))
}

/// The closing thought marker.
pub open spec fn thought_marker() -> Seq<char> {
    "</think>"@
}

/// The marker occurs in `s` at position `p`.
pub open spec fn marker_at(s: Seq<char>, p: int) -> bool {
    &&& 0 <= p
    &&& p + thought_marker().len() <= s.len()
    &&& s.subrange(p, p + thought_marker().len() as int) == thought_marker()
}

/// The marker occurs somewhere in `s`.
pub open spec fn has_marker(s: Seq<char>) -> bool {
    exists|p: int| marker_at(s, p)
}

/// What a correct split of `raw` looks like: a thought exists exactly when
/// the marker occurs; the split point is the LAST occurrence; the thought
/// is everything up to and including that occurrence, trimmed at both
/// ends; the answer is the rest with leading whitespace removed. Without a
/// marker the answer is `raw` unchanged.
pub open spec fn split_matches(raw: Seq<char>, r: ThoughtAnswerSplit) -> bool {
    &&& (r.thought is Some <==> has_marker(raw))
    &&& (r.thought is None ==> r.answer@ == raw)
    &&& forall|p: int|
        (#[trigger] marker_at(raw, p) && (forall|q: int| q > p ==> !marker_at(raw, q))) ==> {
            &&& r.thought matches Some(t) && t@ == trim_of(
                raw.subrange(0, p + thought_marker().len() as int),
            )
            &&& r.answer@ == trim_start_of(
                raw.subrange(p + thought_marker().len() as int, raw.len() as int),
            )
        }
}

fn is_ws_char(c: char) -> (b: bool)
    ensures
        b == is_ws(c),
{
    let u = c as u32;
    (9 <= u && u <= 13) || u == 32 || u == 0x85 || u == 0xA0 || u == 0x1680 || (0x2000 <= u && u
        <= 0x200A) || u == 0x2028 || u == 0x2029 || u == 0x202F || u == 0x205F || u == 0x3000
}

/// Leading whitespace up to `a` and none at `a` pins `trim_start_of` to
/// the suffix from `a`.
proof fn lemma_trim_start_at(s: Seq<char>, a: int)
    requires
        0 <= a <= s.len(),
        forall|j: int| 0 <= j < a ==> is_ws(#[trigger] s[j]),
        a == s.len() || !is_ws(s[a]),
    ensures
        trim_start_of(s) == s.subrange(a, s.len() as int),
    decreases a,
{
    if a == 0 {
        assert(s.subrange(0, s.len() as int) =~= s);
    } else {
        assert(is_ws(s[0]));
        let t = s.drop_first();
        assert(forall|j: int| 0 <= j < a - 1 ==> is_ws(#[trigger] t[j]) && t[j] == s[j + 1]);
        lemma_trim_start_at(t, a - 1);
        assert(t.subrange(a - 1, t.len() as int) =~= s.subrange(a, s.len() as int));
    }
}

/// Trailing whitespace from `b` on and none at `b - 1` pins `trim_end_of`
/// to the prefix up to `b`.
proof fn lemma_trim_end_at(s: Seq<char>, b: int)
    requires
        0 <= b <= s.len(),
        forall|j: int| b <= j < s.len() ==> is_ws(#[trigger] s[j]),
        b == 0 || !is_ws(s[b - 1]),
    ensures
        trim_end_of(s) == s.subrange(0, b),
    decreases s.len() - b,
{
    if b == s.len() {
        assert(s.subrange(0, b) =~= s);
    } else {
        assert(is_ws(s.last()));
        let t = s.drop_last();
        assert(forall|j: int| b <= j < t.len() ==> is_ws(#[trigger] t[j]) && t[j] == s[j]);
        lemma_trim_end_at(t, b);
    }
}

/// Removes leading whitespace, as `str::trim_start` does.
pub fn trim_start_str(s: &str) -> (r: String)
    ensures
        r@ == trim_start_of(s@),
{
    let n = s.unicode_len();
    let mut a: usize = 0;
    while a < n && is_ws_char(s.get_char(a))
        invariant
            a <= n,
            n == s@.len(),
            forall|j: int| 0 <= j < a ==> is_ws(#[trigger] s@[j]),
        decreases n - a,
    {
        a = a + 1;
    }
    proof {
        lemma_trim_start_at(s@, a as int);
    }
    s.substring_char(a, n).to_owned()
}

/// Removes whitespace at both ends, as `str::trim` does.
pub fn trim_str(s: &str) -> (r: String)
    ensures
        r@ == trim_of(s@),
{
    let n = s.unicode_len();
    let mut a: usize = 0;
    while a < n && is_ws_char(s.get_char(a))
        invariant
            a <= n,
            n == s@.len(),
            forall|j: int| 0 <= j < a ==> is_ws(#[trigger] s@[j]),
        decreases n - a,
    {
        a = a + 1;
    }
    let mut b: usize = n;
    while b > a && is_ws_char(s.get_char(b - 1))
        invariant
            a <= b <= n,
            n == s@.len(),
            forall|j: int| b <= j < n ==> is_ws(#[trigger] s@[j]),
        decreases b,
    {
        b = b - 1;
    }
    proof {
        lemma_trim_start_at(s@, a as int);
        let t = s@.subrange(a as int, n as int);
        assert(forall|j: int| b - a <= j < t.len() ==> is_ws(#[trigger] t[j]) && t[j] == s@[
            j + a
        ]);
        lemma_trim_end_at(t, b - a);
        assert(t.subrange(0, b - a) =~= s@.subrange(a as int, b as int));
    }
    s.substring_char(a, b).to_owned()
}

fn marker_matches_at(s: &str, p: usize, n: usize) -> (b: bool)
    requires
        n == s@.len(),
        p + 8 <= n,
        thought_marker().len() == 8,
    ensures
        b == marker_at(s@, p as int),
{
    let marker = "</think>";
    proof {
        reveal_strlit("</think>");
    }
    let mut j: usize = 0;
    while j < 8
        invariant
            j <= 8,
            n == s@.len(),
            p + 8 <= n,
            marker@ == thought_marker(),
            thought_marker().len() == 8,
            forall|k: int| 0 <= k < j ==> s@[p + k] == #[trigger] thought_marker()[k],
        decreases 8 - j,
    {
        if s.get_char(p + j) != marker.get_char(j) {
            proof {
                assert(s@.subrange(p as int, p + 8 as int)[j as int] == s@[p + j]);
            }
            return false;
        }
        j = j + 1;
    }
    proof {
        assert(s@.subrange(p as int, p + 8 as int) =~= thought_marker());
    }
    true
}

/// Finds the LAST occurrence of the thought marker: the returned position
/// carries the marker, and no later position does.
fn find_last_marker(s: &str) -> (r: Option<usize>)
    ensures
        match r {
            Some(p) => marker_at(s@, p as int) && forall|q: int| q > p ==> !marker_at(s@, q),
            None => !has_marker(s@),
        },
{
    proof {
        reveal_strlit("</think>");
    }
    let n = s.unicode_len();
    if n < 8 {
        return None;
    }
    let mut idx: usize = n - 8 + 1;
    while idx > 0
        invariant
            idx <= n - 8 + 1,
            n == s@.len(),
            n >= 8,
            thought_marker().len() == 8,
            forall|q: int| idx <= q ==> !marker_at(s@, q),
        decreases idx,
    {
        let p = idx - 1;
        if marker_matches_at(s, p, n) {
            return Some(p);
        }
        idx = idx - 1;
    }
    None
}

/// Splits raw generated text at the LAST occurrence of the closing thought
/// marker. With a marker at position `p`, the thought is the text through
/// the marker trimmed of surrounding whitespace and the answer is the rest
/// with leading whitespace removed; without one, there is no thought and
/// the answer is the input unchanged.
pub fn split_thoughts(raw: &str) -> (r: ThoughtAnswerSplit)
    ensures
        split_matches(raw@, r),
{
    proof {
        reveal_strlit("</think>");
    }
    let n = raw.unicode_len();
    match find_last_marker(raw) {
        None => ThoughtAnswerSplit { thought: None, answer: raw.to_owned() },
        Some(p) => {
            let end = p + 8;
            let thought = trim_str(raw.substring_char(0, end));
            let answer = trim_start_str(raw.substring_char(end, n));
            let r = ThoughtAnswerSplit { thought: Some(thought), answer };
            proof {
                assert(marker_at(raw@, p as int));
                assert forall|p2: int|
                    marker_at(raw@, p2) && (forall|q: int| q > p2 ==> !marker_at(raw@, q))
                    implies p2 == p as int by {
                    if p2 < p as int {
                        assert(marker_at(raw@, p as int));
                    } else if p2 > p as int {
                        assert(!marker_at(raw@, p2));
                    }
                }
            }
            r
        },
    }
}

} // verus!
