//! Character-level helpers shared by the library: Unicode whitespace,
//! trimming, and turning a string into its characters.

use vstd::prelude::*;

verus! {

/// The Unicode `White_Space` property (the set that `char::is_whitespace`
/// and `str::trim` use).
pub open spec fn is_white_space(c: char) -> bool {
    ||| ('\u{9}' <= c && c <= '\u{d}')
    ||| c == ' '
    ||| c == '\u{85}'
    ||| c == '\u{a0}'
    ||| c == '\u{1680}'
    ||| ('\u{2000}' <= c && c <= '\u{200a}')
    ||| c == '\u{2028}'
    ||| c == '\u{2029}'
    ||| c == '\u{202f}'
    ||| c == '\u{205f}'
    ||| c == '\u{3000}'
}

/// Whether `c` has the Unicode `White_Space` property.
pub fn is_whitespace(c: char) -> (r: bool)
    ensures
        r == is_white_space(c),
{
    ('\u{9}' <= c && c <= '\u{d}') || c == ' ' || c == '\u{85}' || c == '\u{a0}' || c
        == '\u{1680}' || ('\u{2000}' <= c && c <= '\u{200a}') || c == '\u{2028}' || c
        == '\u{2029}' || c == '\u{202f}' || c == '\u{205f}' || c == '\u{3000}'
}

/// The characters of `text`, in order.
pub fn chars_of(text: &str) -> (v: Vec<char>)
    ensures
        v@ == text@,
{
    broadcast use vstd::string::group_string_axioms;

    let n = text.unicode_len();
    let mut it = text.chars();
    let mut v: Vec<char> = Vec::new();
    let mut i: usize = 0;
    while i < n
        invariant
            n == text@.len(),
            i <= n,
            v@ == text@.take(i as int),
            vstd::std_specs::iter::IteratorSpec::remaining(&it) == text@.skip(i as int),
        decreases n - i,
    {
        let next = it.next();
        match next {
            Some(c) => {
                assert(text@.skip(i as int).drop_first() =~= text@.skip(i + 1));
                assert(text@.take(i + 1) =~= text@.take(i as int).push(c));
                v.push(c);
                i = i + 1;
            },
            None => {
                assert(false);
                return v;
            },
        }
    }
    assert(text@.take(n as int) =~= text@);
    v
}

/// A string result by view.
pub open spec fn result_view(r: Result<String, String>) -> Result<Seq<char>, Seq<char>> {
    match r {
        Ok(s) => Ok(s@),
        Err(e) => Err(e@),
    }
}

/// `prefix` followed by `rest`, as a new string.
pub fn prefixed(prefix: &str, rest: &str) -> (r: String)
    ensures
        r@ == prefix@ + rest@,
{
    String::from_str(prefix).concat(rest)
}

/// Length of `s` once trailing whitespace is dropped.
pub open spec fn trailing_end(s: Seq<char>) -> nat
    decreases s.len(),
{
    if s.len() == 0 {
        0
    } else if is_white_space(s.last()) {
        trailing_end(s.drop_last())
    } else {
        s.len()
    }
}

/// Number of whitespace characters at the start of `s`.
pub open spec fn leading_count(s: Seq<char>) -> nat
    decreases s.len(),
{
    if s.len() == 0 {
        0
    } else if is_white_space(s.first()) {
        1 + leading_count(s.drop_first())
    } else {
        0
    }
}

/// `s` without leading and trailing whitespace (what `str::trim` gives).
pub open spec fn trim_seq(s: Seq<char>) -> Seq<char> {
    let t = s.take(trailing_end(s) as int);
    t.skip(leading_count(t) as int)
}

/// Every character of `s` is whitespace (so `trim` leaves nothing).
pub open spec fn is_blank(s: Seq<char>) -> bool {
    forall|i: int| 0 <= i < s.len() ==> #[trigger] is_white_space(s[i])
}

/// `trailing_end` cuts exactly the maximal whitespace suffix.
pub proof fn lemma_trailing_end(s: Seq<char>)
    ensures
        trailing_end(s) <= s.len(),
        forall|i: int| trailing_end(s) <= i < s.len() ==> #[trigger] is_white_space(s[i]),
        trailing_end(s) > 0 ==> !is_white_space(s[trailing_end(s) - 1]),
    decreases s.len(),
{
    if s.len() > 0 && is_white_space(s.last()) {
        lemma_trailing_end(s.drop_last());
        assert forall|i: int| trailing_end(s) <= i < s.len() implies #[trigger] is_white_space(
            s[i],
        ) by {
            if i < s.len() - 1 {
                assert(s.drop_last()[i] == s[i]);
            }
        }
        if trailing_end(s) > 0 {
            assert(s.drop_last()[trailing_end(s) - 1] == s[trailing_end(s) - 1]);
        }
    }
}

/// `leading_count` counts exactly the maximal whitespace prefix.
pub proof fn lemma_leading_count(s: Seq<char>)
    ensures
        leading_count(s) <= s.len(),
        forall|i: int| 0 <= i < leading_count(s) ==> #[trigger] is_white_space(s[i]),
        leading_count(s) < s.len() ==> !is_white_space(s[leading_count(s) as int]),
    decreases s.len(),
{
    if s.len() > 0 && is_white_space(s.first()) {
        lemma_leading_count(s.drop_first());
        assert forall|i: int| 0 <= i < leading_count(s) implies #[trigger] is_white_space(s[i]) by {
            if i > 0 {
                assert(s.drop_first()[i - 1] == s[i]);
            }
        }
        if leading_count(s) < s.len() {
            assert(s.drop_first()[leading_count(s) - 1] == s[leading_count(s) as int]);
        }
    }
}

/// Trimming leaves nothing exactly when every character is whitespace.
pub proof fn lemma_trim_empty_iff_blank(s: Seq<char>)
    ensures
        trim_seq(s).len() == 0 <==> is_blank(s),
{
    lemma_trailing_end(s);
    let t = s.take(trailing_end(s) as int);
    lemma_leading_count(t);
    if trim_seq(s).len() == 0 {
        assert forall|i: int| 0 <= i < s.len() implies #[trigger] is_white_space(s[i]) by {
            if i < trailing_end(s) {
                assert(t[i] == s[i]);
            }
        }
    }
    if is_blank(s) && trailing_end(s) > 0 {
        assert(is_white_space(s[trailing_end(s) - 1]));
    }
}

/// Trimming is idempotent.
pub proof fn lemma_trim_idempotent(s: Seq<char>)
    ensures
        trim_seq(trim_seq(s)) == trim_seq(s),
{
    lemma_trailing_end(s);
    let t = s.take(trailing_end(s) as int);
    lemma_leading_count(t);
    let u = trim_seq(s);
    if u.len() > 0 {
        assert(u.last() == s[trailing_end(s) - 1]);
        assert(u.first() == t[leading_count(t) as int]);
        assert(trailing_end(u) == u.len());
        assert(u.take(u.len() as int) =~= u);
        assert(leading_count(u) == 0);
        assert(u.skip(0) =~= u);
    } else {
        assert(trim_seq(u) =~= u);
    }
}

/// Index just past the last non-whitespace character of `chars`.
pub(crate) fn trailing_end_of(chars: &Vec<char>) -> (end: usize)
    ensures
        end == trailing_end(chars@),
{
    let mut end = chars.len();
    assert(chars@.take(end as int) =~= chars@);
    while end > 0 && is_whitespace(chars[end - 1])
        invariant
            end <= chars@.len(),
            trailing_end(chars@) == trailing_end(chars@.take(end as int)),
        decreases end,
    {
        assert(chars@.take(end as int).drop_last() =~= chars@.take(end - 1));
        end = end - 1;
    }
    end
}

/// Number of whitespace characters at the start of `chars[..end]`.
pub(crate) fn leading_count_of(chars: &Vec<char>, end: usize) -> (start: usize)
    requires
        end <= chars@.len(),
    ensures
        start == leading_count(chars@.take(end as int)),
{
    let ghost t = chars@.take(end as int);
    let mut start: usize = 0;
    assert(t.skip(0) =~= t);
    while start < end && is_whitespace(chars[start])
        invariant
            end <= chars@.len(),
            start <= end,
            t == chars@.take(end as int),
            leading_count(t) == start + leading_count(t.skip(start as int)),
        decreases end - start,
    {
        assert(t.skip(start as int).drop_first() =~= t.skip(start + 1));
        assert(t.skip(start as int).first() == chars@[start as int]);
        start = start + 1;
    }
    if start < end {
        assert(t.skip(start as int).first() == chars@[start as int]);
    }
    start
}

/// `text` without leading and trailing whitespace.
pub fn trim(text: &str) -> (r: &str)
    ensures
        r@ == trim_seq(text@),
{
    let chars = chars_of(text);
    let end = trailing_end_of(&chars);
    proof {
        lemma_trailing_end(chars@);
    }
    let start = leading_count_of(&chars, end);
    proof {
        lemma_leading_count(chars@.take(end as int));
    }
    let r = text.substring_char(start, end);
    assert(r@ =~= trim_seq(text@));
    r
}

/// Whether `text` holds nothing but whitespace (is empty once trimmed).
pub fn is_blank_str(text: &str) -> (r: bool)
    ensures
        r == is_blank(text@),
        r == (trim_seq(text@).len() == 0),
{
    let chars = chars_of(text);
    let n = chars.len();
    let mut i: usize = 0;
    while i < n
        invariant
            n == chars@.len(),
            chars@ == text@,
            i <= n,
            forall|j: int| 0 <= j < i ==> #[trigger] is_white_space(text@[j]),
        decreases n - i,
    {
        if !is_whitespace(chars[i]) {
            assert(!is_white_space(text@[i as int]));
            proof {
                lemma_trim_empty_iff_blank(text@);
            }
            return false;
        }
        i = i + 1;
    }
    proof {
        lemma_trim_empty_iff_blank(text@);
    }
    true
}

} // verus!
