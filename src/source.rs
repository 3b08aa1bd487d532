//! The validator: classifies a source text as the accepted program or rejects it.
use vstd::prelude::*;
use vstd::std_specs::iter::IteratorSpec;

verus! {

/// Unicode `White_Space`: the characters that `trim` strips from both ends.
pub open spec fn is_space(c: char) -> bool {
    let u = c as u32;
    (0x9 <= u && u <= 0xd) || u == 0x20 || u == 0x85 || u == 0xa0 || u == 0x1680 || (0x2000
        <= u && u <= 0x200a) || u == 0x2028 || u == 0x2029 || u == 0x202f || u == 0x205f || u
        == 0x3000
}

/// The text with leading and trailing whitespace removed.
pub open spec fn trim(s: Seq<char>) -> Seq<char>
    decreases s.len(),
{
    if s.len() == 0 {
        s
    } else if is_space(s[0]) {
        trim(s.drop_first())
    } else if is_space(s.last()) {
        trim(s.drop_last())
    } else {
        s
    }
}

/// The one program text that the grammar accepts.
pub open spec fn accepted_text() -> Seq<char> {
    "int main() { return 2; }"@
}

/// A source text is accepted when, trimmed, it is exactly the accepted text.
pub open spec fn accepts(s: Seq<char>) -> bool {
    trim(s) == accepted_text()
}

/// What the validator hands to the code generator: the accepted program, by shape.
#[derive(Clone, Copy, Debug, PartialEq, Eq, Structural)]
pub enum ParsedProgram {
    /// `int main() { return 2; }`: a program that exits with status 2.
    ReturnsTwo,
}

/// Why a source text was not accepted.
#[derive(Clone, Copy, Debug, PartialEq, Eq, Structural)]
pub enum RejectionReason {
    /// The text, trimmed, is not the accepted program.
    DoesNotMatchGrammar,
}

impl RejectionReason {
    /// A one-line description of the reason.
    pub fn message(&self) -> (r: String)
        ensures
            r@ == "does not match accepted grammar"@,
    {
        match self {
            RejectionReason::DoesNotMatchGrammar => String::from_str(
                "does not match accepted grammar",
            ),
        }
    }
}

/// `start..end` delimits the trimmed part of `s`: whitespace lies before `start`
/// and from `end` on, and the part itself neither starts nor ends with it.
pub open spec fn trim_bounds(s: Seq<char>, start: int, end: int) -> bool {
    &&& 0 <= start <= end <= s.len()
    &&& forall|i: int| 0 <= i < start ==> is_space(#[trigger] s[i])
    &&& forall|i: int| end <= i < s.len() ==> is_space(#[trigger] s[i])
    &&& start < end ==> !is_space(s[start]) && !is_space(s[end - 1])
}

proof fn lemma_trim_bounds(s: Seq<char>, start: int, end: int)
    requires
        trim_bounds(s, start, end),
    ensures
        trim(s) == s.subrange(start, end),
    decreases s.len(),
{
    if s.len() == 0 {
        assert(s.subrange(start, end) =~= s);
    } else if is_space(s[0]) {
        let t = s.drop_first();
        if start > 0 {
            assert(trim_bounds(t, start - 1, end - 1)) by {
                assert forall|i: int| 0 <= i < start - 1 implies is_space(#[trigger] t[i]) by {
                    assert(t[i] == s[i + 1]);
                }
                assert forall|i: int| end - 1 <= i < t.len() implies is_space(#[trigger] t[i]) by {
                    assert(t[i] == s[i + 1]);
                }
            }
            lemma_trim_bounds(t, start - 1, end - 1);
            assert(t.subrange(start - 1, end - 1) =~= s.subrange(start, end));
        } else {
            assert(end == 0);
            assert(trim_bounds(t, 0, 0)) by {
                assert forall|i: int| 0 <= i < t.len() implies is_space(#[trigger] t[i]) by {
                    assert(t[i] == s[i + 1]);
                }
            }
            lemma_trim_bounds(t, 0, 0);
            assert(t.subrange(0, 0) =~= s.subrange(start, end));
        }
    } else if is_space(s.last()) {
        let t = s.drop_last();
        assert(start == 0);
        assert(end < s.len());
        assert(trim_bounds(t, start, end)) by {
            assert forall|i: int| end <= i < t.len() implies is_space(#[trigger] t[i]) by {
                assert(t[i] == s[i]);
            }
        }
        lemma_trim_bounds(t, start, end);
        assert(t.subrange(start, end) =~= s.subrange(start, end));
    } else {
        assert(start == 0);
        assert(end == s.len());
        assert(s.subrange(start, end) =~= s);
    }
}

/// Whether `c` is a Unicode whitespace character.
pub fn is_space_char(c: char) -> (r: bool)
    ensures
        r == is_space(c),
{
    let u = c as u32;
    (0x9 <= u && u <= 0xd) || u == 0x20 || u == 0x85 || u == 0xa0 || u == 0x1680 || (0x2000
        <= u && u <= 0x200a) || u == 0x2028 || u == 0x2029 || u == 0x202f || u == 0x205f || u
        == 0x3000
}

/// The characters of `s`, in order.
fn chars_of(s: &str) -> (r: Vec<char>)
    ensures
        r@ == s@,
{
    let mut it = s.chars();
    let mut out: Vec<char> = Vec::new();
    loop
        invariant
            out@ + it.remaining() == s@,
            it.decrease() is Some,
        ensures
            out@ == s@,
        decreases it.decrease()->0,
    {
        match it.next() {
            Some(c) => out.push(c),
            None => break,
        }
    }
    out
}

/// The bounds of the trimmed part of `s`.
fn find_trim_bounds(s: &Vec<char>) -> (r: (usize, usize))
    ensures
        trim_bounds(s@, r.0 as int, r.1 as int),
        trim(s@) == s@.subrange(r.0 as int, r.1 as int),
{
    let n = s.len();
    let mut start: usize = 0;
    while start < n && is_space_char(s[start])
        invariant
            start <= n == s@.len(),
            forall|i: int| 0 <= i < start ==> is_space(#[trigger] s@[i]),
        decreases n - start,
    {
        start = start + 1;
    }
    let mut end: usize = n;
    while end > start && is_space_char(s[end - 1])
        invariant
            start <= end <= n == s@.len(),
            forall|i: int| 0 <= i < start ==> is_space(#[trigger] s@[i]),
            forall|i: int| end <= i < n ==> is_space(#[trigger] s@[i]),
            start < n ==> !is_space(s@[start as int]),
        decreases end,
    {
        end = end - 1;
    }
    proof {
        lemma_trim_bounds(s@, start as int, end as int);
    }
    (start, end)
}

/// Whether `s[start..end]` is exactly the accepted text.
fn is_accepted_part(s: &Vec<char>, start: usize, end: usize) -> (r: bool)
    requires
        start <= end <= s@.len(),
    ensures
        r == (s@.subrange(start as int, end as int) == accepted_text()),
{
    let text = "int main() { return 2; }";
    let len = text.unicode_len();
    if end - start != len {
        return false;
    }
    let mut i: usize = 0;
    while i < len
        invariant
            i <= len == text@.len() == end - start,
            start <= end <= s@.len(),
            text@ == accepted_text(),
            forall|j: int| 0 <= j < i ==> s@[start + j] == #[trigger] text@[j],
        decreases len - i,
    {
        if s[start + i] != text.get_char(i) {
            assert(s@.subrange(start as int, end as int)[i as int] != accepted_text()[i as int]);
            return false;
        }
        i = i + 1;
    }
    assert(s@.subrange(start as int, end as int) =~= accepted_text());
    true
}

/// Checks a source text against the accepted grammar. Any text is admitted:
/// one that is not the accepted program, trimmed, is rejected.
pub fn validate(source: &str) -> (r: Result<ParsedProgram, RejectionReason>)
    ensures
        accepts(source@) <==> r is Ok,
        accepts(source@) ==> r == Ok::<ParsedProgram, RejectionReason>(ParsedProgram::ReturnsTwo),
        !accepts(source@) ==> r == Err::<ParsedProgram, RejectionReason>(
            RejectionReason::DoesNotMatchGrammar,
        ),
{
    let chars = chars_of(source);
    let (start, end) = find_trim_bounds(&chars);
    if is_accepted_part(&chars, start, end) {
        Ok(ParsedProgram::ReturnsTwo)
    } else {
        Err(RejectionReason::DoesNotMatchGrammar)
    }
}

} // verus!
