//! Finding Chinese text: whether a string holds any CJK character, and the
//! run of CJK characters that ends a string (before trailing whitespace).

use vstd::prelude::*;

use crate::text::{chars_of, lemma_trailing_end, trailing_end, trailing_end_of};

verus! {

/// The CJK blocks the tool treats as Chinese: Unified Ideographs, Extension A,
/// Compatibility Ideographs, Symbols and Punctuation, and Fullwidth Forms.
pub open spec fn is_cjk_char(c: char) -> bool {
    ||| ('\u{4e00}' <= c && c <= '\u{9fff}')
    ||| ('\u{3400}' <= c && c <= '\u{4dbf}')
    ||| ('\u{f900}' <= c && c <= '\u{faff}')
    ||| ('\u{3000}' <= c && c <= '\u{303f}')
    ||| ('\u{ff00}' <= c && c <= '\u{ffef}')
}

/// Some character of `s` is CJK.
pub open spec fn has_cjk(s: Seq<char>) -> bool {
    exists|i: int| 0 <= i < s.len() && #[trigger] is_cjk_char(s[i])
}

/// Start of the maximal run of CJK characters that ends `s`.
pub open spec fn cjk_run_start(s: Seq<char>) -> nat
    decreases s.len(),
{
    if s.len() == 0 {
        0
    } else if is_cjk_char(s.last()) {
        cjk_run_start(s.drop_last())
    } else {
        s.len()
    }
}

/// The character range `(start, end)` of the CJK run that ends `s` once its
/// trailing whitespace is ignored, or `None` when `s` (so trimmed) does not
/// end in a CJK character.
pub open spec fn tail_segment_range(s: Seq<char>) -> Option<(nat, nat)> {
    let end = trailing_end(s);
    let start = cjk_run_start(s.take(end as int));
    if start < end {
        Some((start, end))
    } else {
        None
    }
}

/// A run of Chinese characters found in a text: the characters themselves,
/// the index of the first one, and how many there are (counted in chars).
#[derive(Debug, Clone)]
pub struct ChineseSegment {
    pub text: String,
    pub start: usize,
    pub char_count: usize,
}

/// Whether `c` lies in one of the CJK blocks.
pub fn is_cjk(c: char) -> (r: bool)
    ensures
        r == is_cjk_char(c),
{
    ('\u{4e00}' <= c && c <= '\u{9fff}') || ('\u{3400}' <= c && c <= '\u{4dbf}') || ('\u{f900}'
        <= c && c <= '\u{faff}') || ('\u{3000}' <= c && c <= '\u{303f}') || ('\u{ff00}' <= c && c
        <= '\u{ffef}')
}

/// Whether `text` holds at least one CJK character.
pub fn contains_chinese(text: &str) -> (r: bool)
    ensures
        r == has_cjk(text@),
{
    let chars = chars_of(text);
    let n = chars.len();
    let mut i: usize = 0;
    while i < n
        invariant
            n == chars@.len(),
            chars@ == text@,
            i <= n,
            forall|j: int| 0 <= j < i ==> !#[trigger] is_cjk_char(text@[j]),
        decreases n - i,
    {
        if is_cjk(chars[i]) {
            assert(is_cjk_char(text@[i as int]));
            return true;
        }
        i = i + 1;
    }
    false
}

/// `cjk_run_start` marks exactly the maximal CJK suffix.
pub proof fn lemma_cjk_run_start(s: Seq<char>)
    ensures
        cjk_run_start(s) <= s.len(),
        forall|i: int| cjk_run_start(s) <= i < s.len() ==> #[trigger] is_cjk_char(s[i]),
        cjk_run_start(s) > 0 ==> !is_cjk_char(s[cjk_run_start(s) - 1]),
    decreases s.len(),
{
    if s.len() > 0 && is_cjk_char(s.last()) {
        lemma_cjk_run_start(s.drop_last());
        assert forall|i: int| cjk_run_start(s) <= i < s.len() implies #[trigger] is_cjk_char(
            s[i],
        ) by {
            if i < s.len() - 1 {
                assert(s.drop_last()[i] == s[i]);
            }
        }
        if cjk_run_start(s) > 0 {
            assert(s.drop_last()[cjk_run_start(s) - 1] == s[cjk_run_start(s) - 1]);
        }
    }
}

/// What `tail_segment_range` picks out: a nonempty, maximal run of CJK
/// characters followed by nothing but whitespace; and when it picks nothing,
/// the text (trailing whitespace ignored) is empty or ends in a non-CJK char.
pub proof fn lemma_tail_segment_range(s: Seq<char>)
    ensures
        match tail_segment_range(s) {
            Some((start, end)) => {
                &&& start < end <= s.len()
                &&& end == trailing_end(s)
                &&& forall|i: int| start <= i < end ==> #[trigger] is_cjk_char(s[i])
                &&& start > 0 ==> !is_cjk_char(s[start - 1])
                &&& forall|i: int| end <= i < s.len() ==> #[trigger] crate::text::is_white_space(s[i])
            },
            None => trailing_end(s) == 0 || !is_cjk_char(s[trailing_end(s) - 1]),
        },
{
    lemma_trailing_end(s);
    let end = trailing_end(s);
    let t = s.take(end as int);
    lemma_cjk_run_start(t);
    assert forall|i: int| 0 <= i < end implies t[i] == s[i] by {}
    if cjk_run_start(t) >= end && end > 0 {
        assert(t[end - 1] == s[end - 1]);
    }
}

/// The run of CJK characters that ends `text`, ignoring trailing whitespace.
pub fn extract_tail_chinese_segment(text: &str) -> (r: Option<ChineseSegment>)
    ensures
        match tail_segment_range(text@) {
            None => r is None,
            Some((start, end)) => r matches Some(seg) && seg.start == start && seg.char_count
                == end - start && seg.text@ == text@.subrange(start as int, end as int),
        },
{
    let chars = chars_of(text);
    if chars.len() == 0 {
        return None;
    }
    let end = trailing_end_of(&chars);
    proof {
        lemma_trailing_end(chars@);
    }
    if end == 0 || !is_cjk(chars[end - 1]) {
        proof {
            let t = chars@.take(end as int);
            if end > 0 {
                assert(t.drop_last() =~= chars@.take(end - 1));
                assert(t.last() == chars@[end - 1]);
            }
        }
        return None;
    }
    let ghost t = chars@.take(end as int);
    assert(t.drop_last() =~= chars@.take(end - 1));
    assert(t.last() == chars@[end - 1]);
    let mut start = end - 1;
    while start > 0 && is_cjk(chars[start - 1])
        invariant
            end <= chars@.len(),
            start < end,
            t == chars@.take(end as int),
            cjk_run_start(t) == cjk_run_start(chars@.take(start as int)),
        decreases start,
    {
        assert(chars@.take(start as int).drop_last() =~= chars@.take(start - 1));
        start = start - 1;
    }
    proof {
        if start > 0 {
            assert(chars@.take(start as int).last() == chars@[start - 1]);
        }
    }
    let segment = text.substring_char(start, end);
    Some(ChineseSegment { text: String::from_str(segment), start, char_count: end - start })
}

} // verus!
