//! A snapshot of the focused text control, and splicing a replacement into
//! its text in place of a segment.

use vstd::prelude::*;

use crate::chinese_detector::{
    has_cjk, is_cjk_char, lemma_tail_segment_range, tail_segment_range, ChineseSegment,
};
use crate::text::{is_blank, is_white_space};

verus! {

/// What was read off the focused control: its identity (runtime id, process,
/// automation id, class, control type) and its full text.
#[derive(Debug, Clone)]
pub struct FocusedTextSnapshot {
    pub runtime_id: Vec<i32>,
    pub process_id: u32,
    pub automation_id: String,
    pub class_name: String,
    pub control_type: String,
    pub text: String,
}

/// `text` with the characters `[start, end)` replaced by `replacement`.
pub open spec fn splice(text: Seq<char>, start: int, end: int, replacement: Seq<char>) -> Seq<
    char,
> {
    text.take(start) + replacement + text.skip(end)
}

impl FocusedTextSnapshot {
    /// The snapshot's text with `segment` (a character range) replaced by
    /// `replacement`; an error when the range runs past the end of the text.
    pub fn replace_tail_segment(&self, segment: &ChineseSegment, replacement: &str) -> (r: Result<
        String,
        String,
    >)
        requires
            segment.start + segment.char_count <= usize::MAX,
        ensures
            r is Err <==> segment.start + segment.char_count > self.text@.len(),
            r matches Ok(s) ==> s@ == splice(
                self.text@,
                segment.start as int,
                segment.start + segment.char_count,
                replacement@,
            ),
            r matches Err(e) ==> e@ == "segment range exceeds current text"@,
    {
        let text = self.text.as_str();
        let n = text.unicode_len();
        let end = segment.start + segment.char_count;
        if end > n {
            return Err(String::from_str("segment range exceeds current text"));
        }
        let prefix = text.substring_char(0, segment.start);
        let suffix = text.substring_char(end, n);
        let out = String::from_str(prefix).concat(replacement).concat(suffix);
        assert(out@ =~= splice(self.text@, segment.start as int, end as int, replacement@));
        Ok(out)
    }
}

/// A segment found at the tail of a text always fits inside that text, so
/// splicing it out of the same text never fails.
pub proof fn law_tail_segment_fits(text: Seq<char>)
    ensures
        tail_segment_range(text) matches Some((start, end)) ==> start + (end - start)
            <= text.len(),
{
    lemma_tail_segment_range(text);
}

/// Splicing a segment's own characters back in place gives the text back.
pub proof fn law_splice_own_segment_is_identity(text: Seq<char>, start: int, end: int)
    requires
        0 <= start <= end <= text.len(),
    ensures
        splice(text, start, end, text.subrange(start, end)) == text,
{
    assert(splice(text, start, end, text.subrange(start, end)) =~= text);
}

/// Replacing the tail Chinese segment keeps everything before it and the
/// trailing whitespace after it, and puts the replacement in between.
pub proof fn law_tail_replacement_shape(text: Seq<char>, replacement: Seq<char>)
    requires
        tail_segment_range(text) is Some,
    ensures
        ({
            let (start, end) = tail_segment_range(text)->0;
            let out = splice(text, start as int, end as int, replacement);
            &&& out.take(start as int) == text.take(start as int)
            &&& out.subrange(start as int, (start + replacement.len()) as int) == replacement
            &&& is_blank(out.skip((start + replacement.len()) as int))
        }),
{
    lemma_tail_segment_range(text);
    let (start, end) = tail_segment_range(text)->0;
    let out = splice(text, start as int, end as int, replacement);
    assert(out.take(start as int) =~= text.take(start as int));
    assert(out.subrange(start as int, (start + replacement.len()) as int) =~= replacement);
    let rest = out.skip((start + replacement.len()) as int);
    assert(rest =~= text.skip(end as int));
    assert forall|i: int| 0 <= i < rest.len() implies #[trigger] is_white_space(rest[i]) by {
        assert(rest[i] == text[end + i]);
    }
}

/// A tail segment is Chinese: the text holds CJK, and so does the segment.
pub proof fn law_tail_segment_is_chinese(text: Seq<char>)
    requires
        tail_segment_range(text) is Some,
    ensures
        has_cjk(text),
        ({
            let (start, end) = tail_segment_range(text)->0;
            has_cjk(text.subrange(start as int, end as int))
        }),
{
    lemma_tail_segment_range(text);
    let (start, end) = tail_segment_range(text)->0;
    assert(is_cjk_char(text[start as int]));
    assert(text.subrange(start as int, end as int)[0] == text[start as int]);
}

} // verus!
