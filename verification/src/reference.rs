//! Image references of the form `name[:tag]`.

use vstd::prelude::*;
use vstd::string::*;

use crate::error::ErrorKind;

verus! {

/// The tag of a reference that names none.
pub const DEFAULT_TAG: &'static str = "latest";

/// `i` is the position of the only colon in `s`.
pub open spec fn sole_colon(s: Seq<char>, i: int) -> bool {
    &&& 0 <= i < s.len()
    &&& s[i] == ':'
    &&& forall|j: int| 0 <= j < s.len() && j != i ==> s[j] != ':'
}

/// The name and tag that `s` stands for, or `None` where `s` holds more than
/// one colon.
///
/// Without a colon the whole of `s` is the name and the tag is
/// [`DEFAULT_TAG`]. With exactly one, the name is what precedes it and the
/// tag what follows it; either may be empty.
pub open spec fn parsed_reference(s: Seq<char>) -> Option<(Seq<char>, Seq<char>)> {
    if !s.contains(':') {
        Some((s, DEFAULT_TAG@))
    } else if exists|i: int| sole_colon(s, i) {
        let i = choose|i: int| sole_colon(s, i);
        Some((s.subrange(0, i), s.subrange(i + 1, s.len() as int)))
    } else {
        None
    }
}

/// A reference is refused exactly where it holds two colons or more.
pub proof fn lemma_refused_for_two_colons(s: Seq<char>)
    ensures
        parsed_reference(s) is None <==> exists|i: int, j: int|
            0 <= i < j < s.len() && s[i] == ':' && s[j] == ':',
{
    if exists|i: int, j: int| 0 <= i < j < s.len() && s[i] == ':' && s[j] == ':' {
        // Wherever the only colon is taken to be, one of the two is elsewhere.
        let (i, j) = choose|i: int, j: int| 0 <= i < j < s.len() && s[i] == ':' && s[j] == ':';
        assert forall|k: int| !sole_colon(s, k) by {
            if k != i {
            }
        }
    }
    if parsed_reference(s) is None {
        // Some colon is not the only one, so there is another.
        let i = choose|i: int| 0 <= i < s.len() && s[i] == ':';
        assert(!sole_colon(s, i));
    }
}

/// A name without a colon stands for itself, with the default tag.
pub proof fn lemma_bare_name(name: Seq<char>)
    requires
        !name.contains(':'),
    ensures
        parsed_reference(name) == Some((name, DEFAULT_TAG@)),
{
}

/// A name and a tag, neither with a colon, are found again in the reference
/// that joins them with one.
pub proof fn lemma_name_and_tag(name: Seq<char>, tag: Seq<char>)
    requires
        !name.contains(':'),
        !tag.contains(':'),
    ensures
        parsed_reference(name + seq![':'] + tag) == Some((name, tag)),
{
    let s = name + seq![':'] + tag;
    let at = name.len() as int;
    assert(s[at] == ':');
    assert(sole_colon(s, at));
}

/// Splits an image reference into its name and tag.
pub fn parse_image(image: &str) -> (r: Result<(String, String), ErrorKind>)
    ensures
        match r {
            Ok((name, tag)) => parsed_reference(image@) == Some((name@, tag@)),
            Err(e) => parsed_reference(image@) is None && e == ErrorKind::ReferenceFormat,
        },
{
    let mut first: Option<usize> = None;
    let mut extra: bool = false;
    let mut at: usize = 0;
    let len: usize = image.unicode_len();
    for c in it: image.chars()
        invariant
            it.seq() == image@,
            at == it.index(),
            len == image@.len(),
            first matches Some(p) ==> p < at && image@[p as int] == ':',
            first is None ==> !extra,
            forall|j: int| 0 <= j < at && first != Some(j as usize) && !extra ==> image@[j] != ':',
            extra ==> exists|p: int, q: int| 0 <= p < q < at && image@[p] == ':' && image@[q] == ':',
    {
        if c == ':' {
            if first.is_none() {
                first = Some(at);
            } else {
                extra = true;
            }
        }
        at = at + 1;
    }
    if extra {
        Err(ErrorKind::ReferenceFormat)
    } else {
        match first {
            None => {
                Ok((image.to_owned(), DEFAULT_TAG.to_owned()))
            },
            Some(p) => {
                assert(sole_colon(image@, p as int));
                let name = image.substring_char(0, p);
                let tag = image.substring_char(p + 1, len);
                Ok((name.to_owned(), tag.to_owned()))
            },
        }
    }
}

} // verus!
