//! The replacement of a managed section by freshly rendered text.

use vstd::prelude::*;
use vstd::string::{StrSliceExecFns, StringExecFns};
use vstd::utf8::encode_utf8;

use crate::error::{Error, ErrorKind};
use crate::readme::markers::{
    end_marker, has_section, lemma_first_at_unique, lemma_section_span_unique, replaced,
    section_span, section_text, start_marker, MarkerPair,
};
use crate::text::{chars_of, contains, find_from, first_at, occurs_at, same_text};

verus! {

/// The description of the failure when a document has no managed section.
pub open spec fn section_not_found_message(name: Seq<char>) -> Seq<char> {
    "Markers "@ + start_marker(name) + " and "@ + end_marker(name) + " not found"@
}

/// `new_doc` agrees with `old_doc` before index `s` and on everything from
/// index `e` of `old_doc` on: only the span `[s, e)` of `old_doc` was
/// rewritten.
pub open spec fn same_outside(old_doc: Seq<char>, new_doc: Seq<char>, s: int, e: int) -> bool {
    &&& new_doc.len() >= s + (old_doc.len() - e)
    &&& new_doc.subrange(0, s) == old_doc.subrange(0, s)
    &&& new_doc.subrange(new_doc.len() - (old_doc.len() - e), new_doc.len() as int)
        == old_doc.subrange(e, old_doc.len() as int)
}

pub struct ReadmeUpdater;

impl ReadmeUpdater {
    fn section_not_found(pair: &MarkerPair) -> (err: Error)
        requires
            pair.wf(),
        ensures
            err.kind == ErrorKind::Validation,
            err.message@ == section_not_found_message(pair.section_name@),
    {
        let mut message = String::from_str("Markers ");
        message.append(pair.start.as_str());
        message.append(" and ");
        message.append(pair.end.as_str());
        message.append(" not found");
        Error::new(ErrorKind::Validation, message)
    }

    /// The span of the managed section in `content`, in characters: from
    /// the first character of the first start marker to the end of the
    /// first end marker that begins after it. `None` where `content` has no
    /// such section.
    pub fn find_section(content: &str, section_name: &str) -> (r: Option<(usize, usize)>)
        ensures
            match r {
                Some((s, e)) => section_span(content@, section_name@, s as int, e as int),
                None => !has_section(content@, section_name@),
            },
    {
        let pair = MarkerPair::new(section_name);
        Self::locate(content, &pair)
    }

    fn locate(content: &str, pair: &MarkerPair) -> (r: Option<(usize, usize)>)
        requires
            pair.wf(),
        ensures
            match r {
                Some((s, e)) => section_span(content@, pair.section_name@, s as int, e as int),
                None => !has_section(content@, pair.section_name@),
            },
    {
        let doc = chars_of(content);
        let start = chars_of(pair.start.as_str());
        let end = chars_of(pair.end.as_str());
        assert(doc@.len() == doc.len());
        let found_start = find_from(doc.as_slice(), start.as_slice(), 0);
        let found_end = match found_start {
            None => None,
            Some(s) => {
                assert(occurs_at(doc@, start@, s as int));
                find_from(doc.as_slice(), end.as_slice(), s + start.len())
            },
        };
        match (found_start, found_end) {
            (Some(s), Some(j)) => {
                assert(occurs_at(doc@, end@, j as int));
                Some((s, j + end.len()))
            },
            _ => {
                proof {
                    let name = pair.section_name@;
                    assert forall|s: int, e: int| !section_span(content@, name, s, e) by {
                        if section_span(content@, name, s, e) {
                            if let Some(s0) = found_start {
                                lemma_first_at_unique(
                                    content@,
                                    start_marker(name),
                                    0,
                                    s0 as int,
                                    s,
                                );
                            }
                        }
                    }
                }
                None
            },
        }
    }

    /// Rewrites the managed section of `content` around `new_content`.
    ///
    /// `Ok(Some(doc))` carries the rewritten document, which differs from
    /// `content` and is to be written back; `Ok(None)` says that the
    /// rewritten document would equal `content`, so nothing is to be
    /// written. Without a managed section the update fails.
    pub fn update(content: &str, section_name: &str, new_content: &str) -> (r: Result<
        Option<String>,
        Error,
    >)
        ensures
            match r {
                Ok(Some(doc)) => exists|s: int, e: int|
                    {
                        &&& section_span(content@, section_name@, s, e)
                        &&& doc@ == replaced(content@, section_name@, new_content@, s, e)
                        &&& doc@ != content@
                        &&& same_outside(content@, doc@, s, e)
                    },
                Ok(None) => exists|s: int, e: int|
                    {
                        &&& section_span(content@, section_name@, s, e)
                        &&& content@ == replaced(content@, section_name@, new_content@, s, e)
                    },
                Err(err) => {
                    &&& !has_section(content@, section_name@)
                    &&& err.kind == ErrorKind::Validation
                    &&& err.message@ == section_not_found_message(section_name@)
                },
            },
    {
        let pair = MarkerPair::new(section_name);
        let (s, e) = match Self::locate(content, &pair) {
            Some(span) => span,
            None => {
                return Err(Self::section_not_found(&pair));
            },
        };
        let mut rewritten = String::from_str(content.substring_char(0, s));
        rewritten.append(pair.start.as_str());
        rewritten.append("\n");
        rewritten.append(new_content);
        rewritten.append("\n");
        rewritten.append(pair.end.as_str());
        rewritten.append(content.substring_char(e, content.unicode_len()));
        assert(rewritten@ =~= replaced(content@, section_name@, new_content@, s as int, e as int));
        proof {
            lemma_replaced_same_outside(content@, section_name@, new_content@, s as int, e as int);
        }
        if same_text(rewritten.as_str(), content) {
            Ok(None)
        } else {
            Ok(Some(rewritten))
        }
    }
}

/// Rewriting a section leaves every character outside its span as it was.
pub proof fn lemma_replaced_same_outside(
    doc: Seq<char>,
    name: Seq<char>,
    body: Seq<char>,
    s: int,
    e: int,
)
    requires
        section_span(doc, name, s, e),
    ensures
        same_outside(doc, replaced(doc, name, body, s, e), s, e),
{
    let once = replaced(doc, name, body, s, e);
    assert(once.subrange(0, s) =~= doc.subrange(0, s));
    assert(once.subrange(once.len() - (doc.len() - e), once.len() as int) =~= doc.subrange(
        e,
        doc.len() as int,
    ));
}

/// The bytes of a text are the bytes of its first part followed by the
/// bytes of its second part.
pub proof fn lemma_bytes_of_parts(a: Seq<char>, b: Seq<char>)
    ensures
        encode_utf8(a + b) == encode_utf8(a) + encode_utf8(b),
    decreases a.len(),
{
    if a.len() == 0 {
        assert(a + b =~= b);
        assert(encode_utf8(a) + encode_utf8(b) =~= encode_utf8(b));
    } else {
        lemma_bytes_of_parts(a.drop_first(), b);
        assert((a + b).drop_first() =~= a.drop_first() + b);
        assert(encode_utf8(a + b) =~= encode_utf8(a) + encode_utf8(b));
    }
}

/// Rewriting a section leaves every byte outside its span as it was: the
/// bytes of the document are those before the section, those of the
/// section and those after it, and the rewritten document differs in the
/// middle part alone, which holds the bytes of the rewritten section.
pub proof fn lemma_update_keeps_bytes_outside(
    doc: Seq<char>,
    name: Seq<char>,
    body: Seq<char>,
    s: int,
    e: int,
)
    requires
        section_span(doc, name, s, e),
    ensures
        ({
            let before = encode_utf8(doc.subrange(0, s));
            let after = encode_utf8(doc.subrange(e, doc.len() as int));
            &&& encode_utf8(doc) == before + encode_utf8(doc.subrange(s, e)) + after
            &&& encode_utf8(replaced(doc, name, body, s, e)) == before + encode_utf8(
                section_text(name, body),
            ) + after
        }),
{
    let head = doc.subrange(0, s);
    let tail = doc.subrange(e, doc.len() as int);
    assert(occurs_at(doc, start_marker(name), s));
    assert(occurs_at(doc, end_marker(name), e - end_marker(name).len()));
    assert(doc =~= head + doc.subrange(s, e) + tail);
    lemma_bytes_of_parts(head, doc.subrange(s, e));
    lemma_bytes_of_parts(head + doc.subrange(s, e), tail);
    lemma_bytes_of_parts(head, section_text(name, body));
    lemma_bytes_of_parts(head + section_text(name, body), tail);
}

/// A document with a managed section carries both of its markers.
pub proof fn lemma_section_has_both_markers(doc: Seq<char>, name: Seq<char>)
    requires
        has_section(doc, name),
    ensures
        contains(doc, start_marker(name)),
        contains(doc, end_marker(name)),
{
    let (s, e) = choose|s: int, e: int| section_span(doc, name, s, e);
    assert(occurs_at(doc, start_marker(name), s));
    assert(occurs_at(doc, end_marker(name), e - end_marker(name).len()));
}

/// Updating is idempotent. Once the section of `doc` has been rewritten
/// around `body`, the rewritten document has its section exactly where the
/// new text was put, and rewriting it around the same `body` gives the same
/// document again: whether or not the first update changed the document,
/// a second one reports no change.
///
/// This holds when `body` brings no end marker of its own, that is, when
/// the first end marker in a line break, `body`, a line break and the end
/// marker is the final one.
pub proof fn lemma_update_idempotent(
    doc: Seq<char>,
    name: Seq<char>,
    body: Seq<char>,
    s: int,
    e: int,
)
    requires
        section_span(doc, name, s, e),
        first_at(
            "\n"@ + body + "\n"@ + end_marker(name),
            end_marker(name),
            0,
            body.len() as int + 2,
        ),
    ensures
        ({
            let once = replaced(doc, name, body, s, e);
            &&& section_span(once, name, s, s + section_text(name, body).len())
            &&& has_section(once, name)
            &&& forall|s2: int, e2: int| #[trigger]
                section_span(once, name, s2, e2) ==> replaced(once, name, body, s2, e2) == once
        }),
{
    reveal_strlit("\n");
    let start = start_marker(name);
    let end = end_marker(name);
    let tail = "\n"@ + body + "\n"@ + end;
    let once = replaced(doc, name, body, s, e);
    let e2 = s + section_text(name, body).len();
    assert(occurs_at(doc, start, s));
    assert(section_text(name, body) =~= start + tail);
    assert(once =~= doc.subrange(0, s) + start + tail + doc.subrange(e, doc.len() as int));
    assert(once.subrange(0, s + start.len()) =~= doc.subrange(0, s + start.len())) by {
        assert(doc.subrange(s, s + start.len()) == start);
        assert forall|k: int| 0 <= k < s + start.len() implies once[k] == doc[k] by {
            if k >= s {
                assert(doc.subrange(s, s + start.len())[k - s] == doc[k]);
            }
        }
    }
    assert(once.subrange(s + start.len(), e2) =~= tail);
    assert forall|j: int| 0 <= j && j + start.len() <= s + start.len() implies occurs_at(
        once,
        start,
        j,
    ) == occurs_at(doc, start, j) by {
        assert(once.subrange(j, j + start.len()) =~= once.subrange(0, s + start.len()).subrange(
            j,
            j + start.len(),
        ));
        assert(doc.subrange(j, j + start.len()) =~= doc.subrange(0, s + start.len()).subrange(
            j,
            j + start.len(),
        ));
    }
    assert(first_at(once, start, 0, s));
    assert forall|j: int| s + start.len() <= j && j + end.len() <= e2 implies occurs_at(
        once,
        end,
        j,
    ) == occurs_at(tail, end, j - (s + start.len())) by {
        let t = j - (s + start.len());
        assert(once.subrange(j, j + end.len()) =~= once.subrange(s + start.len(), e2).subrange(
            t,
            t + end.len(),
        ));
    }
    assert(first_at(once, end, s + start.len(), e2 - end.len()));
    assert(section_span(once, name, s, e2));
    assert(replaced(once, name, body, s, e2) =~= once);
    assert forall|s2: int, e2b: int| #[trigger] section_span(once, name, s2, e2b) implies replaced(
        once,
        name,
        body,
        s2,
        e2b,
    ) == once by {
        lemma_section_span_unique(once, name, s, e2, s2, e2b);
    }
}

} // verus!
