//! The early check that a document carries both markers of its section.

use vstd::prelude::*;
use vstd::string::StringExecFns;

use crate::error::{Error, ErrorKind};
use crate::readme::markers::{end_marker, start_marker, MarkerPair};
use crate::text::{chars_of, contains, find_from, occurs_at};

verus! {

/// The description of the failure when a marker is missing: it shows both
/// markers, ready to be pasted into the document.
pub open spec fn missing_markers_message(name: Seq<char>) -> Seq<char> {
    "Required markers are missing in README. Please add:\n"@ + start_marker(name) + "\n"@
        + end_marker(name) + "\n"@
}

pub struct ReadmeValidator;

impl ReadmeValidator {
    /// Succeeds exactly when both markers of `section_name` occur in
    /// `content`, in whatever order.
    pub fn ensure_section_exists(content: &str, section_name: &str) -> (r: Result<(), Error>)
        ensures
            r is Ok <==> contains(content@, start_marker(section_name@)) && contains(
                content@,
                end_marker(section_name@),
            ),
            r matches Err(e) ==> e.kind == ErrorKind::Validation && e.message@
                == missing_markers_message(section_name@),
    {
        let pair = MarkerPair::new(section_name);
        let doc = chars_of(content);
        let start = chars_of(pair.start.as_str());
        let end = chars_of(pair.end.as_str());
        let has_start = find_from(doc.as_slice(), start.as_slice(), 0).is_some();
        let has_end = find_from(doc.as_slice(), end.as_slice(), 0).is_some();
        proof {
            if !has_start {
                assert forall|i: int| !occurs_at(content@, start_marker(section_name@), i) by {}
            }
            if !has_end {
                assert forall|i: int| !occurs_at(content@, end_marker(section_name@), i) by {}
            }
        }
        if has_start && has_end {
            return Ok(());
        }
        let mut message = String::from_str("Required markers are missing in README. Please add:\n");
        message.append(pair.start.as_str());
        message.append("\n");
        message.append(pair.end.as_str());
        message.append("\n");
        Err(Error::new(ErrorKind::Validation, message))
    }
}

} // verus!
