//! The two literal comment markers that delimit a managed section.

use vstd::prelude::*;
use vstd::string::StringExecFns;

use crate::text::{first_at, occurs_at};

verus! {

/// The literal text of the marker that opens the section `name`.
pub open spec fn start_marker(name: Seq<char>) -> Seq<char> {
    "<!--START_SECTION:"@ + name + "-->"@
}

/// The literal text of the marker that closes the section `name`.
pub open spec fn end_marker(name: Seq<char>) -> Seq<char> {
    "<!--END_SECTION:"@ + name + "-->"@
}

/// The managed section of `doc` lies at `[s, e)`: it opens with the first
/// start marker of the document and closes with the first end marker that
/// begins after that start marker.
pub open spec fn section_span(doc: Seq<char>, name: Seq<char>, s: int, e: int) -> bool {
    &&& first_at(doc, start_marker(name), 0, s)
    &&& first_at(doc, end_marker(name), s + start_marker(name).len(), e - end_marker(name).len())
}

/// `doc` holds a managed section for `name`.
pub open spec fn has_section(doc: Seq<char>, name: Seq<char>) -> bool {
    exists|s: int, e: int| section_span(doc, name, s, e)
}

/// What the section is rewritten to: both markers, each on a line of its
/// own, around `body`.
pub open spec fn section_text(name: Seq<char>, body: Seq<char>) -> Seq<char> {
    start_marker(name) + "\n"@ + body + "\n"@ + end_marker(name)
}

/// `doc` with the span `[s, e)` replaced by the rewritten section.
pub open spec fn replaced(doc: Seq<char>, name: Seq<char>, body: Seq<char>, s: int, e: int) -> Seq<
    char,
> {
    doc.subrange(0, s) + section_text(name, body) + doc.subrange(e, doc.len() as int)
}

/// A section name with the two markers derived from it.
pub struct MarkerPair {
    pub section_name: String,
    pub start: String,
    pub end: String,
}

impl MarkerPair {
    /// Both markers are the ones derived from the section name.
    pub open spec fn wf(&self) -> bool {
        &&& self.start@ == start_marker(self.section_name@)
        &&& self.end@ == end_marker(self.section_name@)
    }

    pub fn new(section_name: &str) -> (pair: MarkerPair)
        ensures
            pair.wf(),
            pair.section_name@ == section_name@,
    {
        let mut start = String::from_str("<!--START_SECTION:");
        start.append(section_name);
        start.append("-->");
        let mut end = String::from_str("<!--END_SECTION:");
        end.append(section_name);
        end.append("-->");
        MarkerPair { section_name: String::from_str(section_name), start, end }
    }
}

/// At most one index is the first occurrence at or after `from`.
pub proof fn lemma_first_at_unique(hay: Seq<char>, needle: Seq<char>, from: int, i: int, j: int)
    requires
        first_at(hay, needle, from, i),
        first_at(hay, needle, from, j),
    ensures
        i == j,
{
    if i < j {
        assert(!occurs_at(hay, needle, i));
    } else if j < i {
        assert(!occurs_at(hay, needle, j));
    }
}

/// A document has at most one managed section span.
pub proof fn lemma_section_span_unique(
    doc: Seq<char>,
    name: Seq<char>,
    s1: int,
    e1: int,
    s2: int,
    e2: int,
)
    requires
        section_span(doc, name, s1, e1),
        section_span(doc, name, s2, e2),
    ensures
        s1 == s2,
        e1 == e2,
{
    lemma_first_at_unique(doc, start_marker(name), 0, s1, s2);
    lemma_first_at_unique(
        doc,
        end_marker(name),
        s1 + start_marker(name).len(),
        e1 - end_marker(name).len(),
        e2 - end_marker(name).len(),
    );
}

} // verus!
