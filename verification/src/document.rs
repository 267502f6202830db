//! The layout of a post document: a preamble, the front matter and the body,
//! parted by the first two occurrences of the delimiter `---`.

use crate::text::chars_of;
use vstd::prelude::*;

verus! {

/// The three hyphens of a delimiter stand at position `i` of `doc`.
pub open spec fn delimiter_at(doc: Seq<char>, i: int) -> bool {
    0 <= i && i + 3 <= doc.len() && doc[i] == '-' && doc[i + 1] == '-' && doc[i + 2] == '-'
}

/// The position of the first delimiter of `doc` that starts at `from` or
/// later.
pub open spec fn next_delimiter(doc: Seq<char>, from: int) -> Option<int>
    decreases doc.len() - from,
{
    if from < 0 || from + 3 > doc.len() {
        None
    } else if delimiter_at(doc, from) {
        Some(from)
    } else {
        next_delimiter(doc, from + 1)
    }
}

/// The parts of a document, as sequences of characters.
pub struct Parts {
    pub preamble: Seq<char>,
    pub front_matter: Seq<char>,
    pub body: Seq<char>,
}

/// A document parted at its first delimiter and at the first delimiter
/// behind that one. Further delimiters belong to the body. A document with
/// fewer than two delimiters has no parts.
pub open spec fn split(doc: Seq<char>) -> Option<Parts> {
    match next_delimiter(doc, 0) {
        None => None,
        Some(first) => match next_delimiter(doc, first + 3) {
            None => None,
            Some(second) => Some(
                Parts {
                    preamble: doc.subrange(0, first),
                    front_matter: doc.subrange(first + 3, second),
                    body: doc.subrange(second + 3, doc.len() as int),
                },
            ),
        },
    }
}

/// The number of parts that the first two delimiters give: one more than
/// the delimiters found, so 1, 2 or 3.
pub open spec fn parts_found(doc: Seq<char>) -> int {
    match next_delimiter(doc, 0) {
        None => 1,
        Some(first) => match next_delimiter(doc, first + 3) {
            None => 2,
            Some(_) => 3,
        },
    }
}

/// What `next_delimiter` finds is a delimiter, at `from` or later, with no
/// delimiter between `from` and it; it finds none only where there is none.
pub proof fn lemma_next_delimiter_is_first(doc: Seq<char>, from: int)
    requires
        0 <= from,
    ensures
        match next_delimiter(doc, from) {
            Some(i) => from <= i && delimiter_at(doc, i) && forall|j: int|
                from <= j < i ==> !delimiter_at(doc, j),
            None => forall|j: int| from <= j ==> !delimiter_at(doc, j),
        },
    decreases doc.len() - from,
{
    if from + 3 <= doc.len() && !delimiter_at(doc, from) {
        lemma_next_delimiter_is_first(doc, from + 1);
    }
}

/// A delimiter with no delimiter between `from` and it is what
/// `next_delimiter` finds.
pub proof fn lemma_first_delimiter_is_found(doc: Seq<char>, from: int, i: int)
    requires
        0 <= from <= i,
        delimiter_at(doc, i),
        forall|j: int| from <= j < i ==> !delimiter_at(doc, j),
    ensures
        next_delimiter(doc, from) == Some(i),
    decreases i - from,
{
    if from < i {
        lemma_first_delimiter_is_found(doc, from + 1, i);
    }
}

/// A document is parted at its first delimiter and at the first delimiter
/// that starts behind the end of that one: the front matter stands between
/// the two, the body behind the second.
pub proof fn lemma_split_at_first_two(doc: Seq<char>, i: int, j: int)
    requires
        delimiter_at(doc, i),
        forall|k: int| 0 <= k < i ==> !delimiter_at(doc, k),
        i + 3 <= j,
        delimiter_at(doc, j),
        forall|k: int| i + 3 <= k < j ==> !delimiter_at(doc, k),
    ensures
        split(doc) == Some(
            Parts {
                preamble: doc.subrange(0, i),
                front_matter: doc.subrange(i + 3, j),
                body: doc.subrange(j + 3, doc.len() as int),
            },
        ),
{
    lemma_first_delimiter_is_found(doc, 0, i);
    lemma_first_delimiter_is_found(doc, i + 3, j);
}

/// A document in which no two delimiters stand clear of each other has no
/// parts: one or two are found.
pub proof fn lemma_fewer_than_two_delimiters(doc: Seq<char>)
    requires
        forall|i: int, j: int| delimiter_at(doc, i) && i + 3 <= j ==> !delimiter_at(doc, j),
    ensures
        split(doc) is None,
        1 <= parts_found(doc) <= 2,
{
    lemma_next_delimiter_is_first(doc, 0);
    if let Some(first) = next_delimiter(doc, 0) {
        lemma_next_delimiter_is_first(doc, first + 3);
    }
}

/// A document with two delimiters that stand clear of each other has parts.
pub proof fn lemma_two_delimiters_split(doc: Seq<char>, i: int, j: int)
    requires
        delimiter_at(doc, i),
        delimiter_at(doc, j),
        i + 3 <= j,
    ensures
        split(doc) is Some,
{
    lemma_next_delimiter_is_first(doc, 0);
    let first = next_delimiter(doc, 0)->0;
    lemma_next_delimiter_is_first(doc, first + 3);
}

/// The three parts of a post document.
#[derive(Debug)]
pub struct Document {
    /// What stands before the first delimiter.
    pub preamble: String,
    /// What stands between the two delimiters.
    pub front_matter: String,
    /// What stands behind the second delimiter.
    pub body: String,
}

impl Document {
    /// The parts as sequences of characters.
    pub open spec fn parts(self) -> Parts {
        Parts { preamble: self.preamble@, front_matter: self.front_matter@, body: self.body@ }
    }
}

/// The position of the first delimiter at `from` or later.
fn find_delimiter(chars: &Vec<char>, from: usize) -> (found: Option<usize>)
    requires
        from <= chars.len(),
    ensures
        match found {
            Some(i) => next_delimiter(chars@, from as int) == Some(i as int),
            None => next_delimiter(chars@, from as int) is None,
        },
{
    let mut i: usize = from;
    while chars.len() - i >= 3
        invariant
            from <= i <= chars.len(),
            next_delimiter(chars@, from as int) == next_delimiter(chars@, i as int),
        decreases chars.len() - i,
    {
        if chars[i] == '-' && chars[i + 1] == '-' && chars[i + 2] == '-' {
            return Some(i);
        }
        i = i + 1;
    }
    None
}

/// Parts a post document at its first two delimiters. Where it has
/// fewer than two, the error is the number of parts found, 1 or 2.
pub fn split_document(doc: &str) -> (r: Result<Document, usize>)
    ensures
        match r {
            Ok(document) => split(doc@) == Some(document.parts()),
            Err(found) => split(doc@) is None && found == parts_found(doc@),
        },
{
    let chars = chars_of(doc);
    let first = match find_delimiter(&chars, 0) {
        Some(i) => i,
        None => { return Err(1); },
    };
    proof {
        lemma_next_delimiter_is_first(doc@, 0);
    }
    let second = match find_delimiter(&chars, first + 3) {
        Some(j) => j,
        None => { return Err(2); },
    };
    proof {
        lemma_next_delimiter_is_first(doc@, first as int + 3);
    }
    Ok(
        Document {
            preamble: doc.substring_char(0, first).to_owned(),
            front_matter: doc.substring_char(first + 3, second).to_owned(),
            body: doc.substring_char(second + 3, chars.len()).to_owned(),
        },
    )
}

} // verus!
