//! Image references: a repository path and a tag.

use vstd::prelude::*;
use vstd::std_specs::iter::IteratorSpec;

verus! {

/// The position of the first `:` of `s` at or after `from`, or the length of
/// `s` where there is none.
pub open spec fn colon_or_end(s: Seq<char>, from: int) -> int
    decreases s.len() - from,
{
    if from < 0 || from >= s.len() {
        s.len() as int
    } else if s[from] == ':' {
        from
    } else {
        colon_or_end(s, from + 1)
    }
}

/// The tag of a reference that names none.
pub open spec fn default_tag() -> Seq<char> {
    "latest"@
}

/// The repository of a reference: all that stands before its first `:`.
pub open spec fn repo_of(s: Seq<char>) -> Seq<char> {
    s.subrange(0, colon_or_end(s, 0))
}

/// The tag of a reference: what stands between its first `:` and its second
/// one (or its end), and `latest` where it has no `:`.
pub open spec fn tag_of(s: Seq<char>) -> Seq<char> {
    let first = colon_or_end(s, 0);
    if first == s.len() {
        default_tag()
    } else {
        s.subrange(first + 1, colon_or_end(s, first + 1))
    }
}

/// `colon_or_end(s, from)` lies between `from` and the end, no `:` stands
/// before it, and one stands at it unless it is the end.
pub proof fn lemma_colon_or_end(s: Seq<char>, from: int)
    requires
        0 <= from <= s.len(),
    ensures
        from <= colon_or_end(s, from) <= s.len(),
        forall|i: int| from <= i < colon_or_end(s, from) ==> s[i] != ':',
        colon_or_end(s, from) < s.len() ==> s[colon_or_end(s, from)] == ':',
    decreases s.len() - from,
{
    if from < s.len() && s[from] != ':' {
        lemma_colon_or_end(s, from + 1);
    }
}

/// Any position at or after `from` that holds the first `:` from there on, or
/// the end where there is none, is `colon_or_end(s, from)`.
pub proof fn lemma_colon_or_end_is(s: Seq<char>, from: int, at: int)
    requires
        0 <= from <= at <= s.len(),
        forall|i: int| from <= i < at ==> s[i] != ':',
        at < s.len() ==> s[at] == ':',
    ensures
        colon_or_end(s, from) == at,
    decreases at - from,
{
    if from < at {
        lemma_colon_or_end_is(s, from + 1, at);
    }
}

/// A reference without a `:` is its own repository, and its tag is `latest`.
pub proof fn lemma_without_colon(s: Seq<char>)
    requires
        !s.contains(':'),
    ensures
        repo_of(s) == s,
        tag_of(s) == default_tag(),
{
    lemma_colon_or_end_is(s, 0, s.len() as int);
    assert(s.subrange(0, s.len() as int) =~= s);
}

/// A reference with exactly one `:` has as its repository what stands before
/// the `:` and as its tag what stands after it.
pub proof fn lemma_single_colon(s: Seq<char>, at: int)
    requires
        0 <= at < s.len(),
        forall|i: int| 0 <= i < s.len() ==> (s[i] == ':' <==> i == at),
    ensures
        repo_of(s) == s.subrange(0, at),
        tag_of(s) == s.subrange(at + 1, s.len() as int),
{
    lemma_colon_or_end_is(s, 0, at);
    lemma_colon_or_end_is(s, at + 1, s.len() as int);
}

/// The positions of the first `:` of `image` and of the `:` that follows it,
/// each the number of characters of `image` where there is no such `:`, and
/// that number itself. The characters are walked once.
fn colon_positions(image: &str) -> (at: (usize, usize, usize))
    ensures
        at.2 == image@.len(),
        at.0 <= at.2,
        at.0 == colon_or_end(image@, 0),
        at.0 < at.2 ==> at.1 == colon_or_end(image@, at.0 + 1),
{
    broadcast use vstd::string::group_string_axioms;

    let len: usize = image.unicode_len();
    let mut first: usize = len;
    let mut chars = image.chars();
    let mut i: usize = 0;
    loop
        invariant
            len == image@.len(),
            i <= len,
            chars.remaining() == image@.skip(i as int),
            first == len || first < i,
            first == len ==> colon_or_end(image@, 0) == colon_or_end(image@, i as int),
            first < len ==> first == colon_or_end(image@, 0) && colon_or_end(
                image@,
                first + 1,
            ) == colon_or_end(image@, i as int),
        decreases len - i,
    {
        match chars.next() {
            Some(c) => {
                if c == ':' {
                    if first == len {
                        first = i;
                    } else {
                        return (first, i, len);
                    }
                }
                i = i + 1;
            },
            None => {
                return (first, len, len);
            },
        }
    }
}

/// Splits an image reference into repository and tag at its first `:`. What
/// follows a second `:` belongs to neither.
pub fn parse_image_name(image: &str) -> (parts: (&str, &str))
    ensures
        parts.0@ == repo_of(image@),
        parts.1@ == tag_of(image@),
{
    let (first, second, len) = colon_positions(image);
    if first == len {
        assert(image@.subrange(0, len as int) =~= image@);
        (image, "latest")
    } else {
        proof {
            lemma_colon_or_end(image@, first + 1);
        }
        (image.substring_char(0, first), image.substring_char(first + 1, second))
    }
}

} // verus!
