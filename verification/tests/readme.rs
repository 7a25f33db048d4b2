use wakatime_updater::error::ErrorKind;
use wakatime_updater::readme::{MarkerPair, ReadmeUpdater, ReadmeValidator};

const DOC: &str = "<!--START_SECTION:waka-->\nold\n<!--END_SECTION:waka-->";

/// The same update, written with a pattern: everything from the first
/// start marker to the first end marker after it, across lines.
fn update_by_pattern(content: &str, section: &str, body: &str) -> Option<String> {
    let start = format!("<!--START_SECTION:{}-->", section);
    let end = format!("<!--END_SECTION:{}-->", section);
    let pattern = format!("(?s){}.*?{}", regex::escape(&start), regex::escape(&end));
    let re = regex::Regex::new(&pattern).unwrap();
    if !re.is_match(content) {
        return None;
    }
    let replacement = format!("{}\n{}\n{}", start, body, end);
    Some(re.replace(content, regex::NoExpand(&replacement)).to_string())
}

fn update_as_text(content: &str, section: &str, body: &str) -> Option<String> {
    match ReadmeUpdater::update(content, section, body) {
        Ok(Some(doc)) => Some(doc),
        Ok(None) => Some(content.to_string()),
        Err(_) => None,
    }
}

#[test]
fn marker_pair_derives_both_markers() {
    let pair = MarkerPair::new("waka");
    assert_eq!(pair.section_name, "waka");
    assert_eq!(pair.start, "<!--START_SECTION:waka-->");
    assert_eq!(pair.end, "<!--END_SECTION:waka-->");
}

#[test]
fn section_is_found_by_its_first_markers() {
    assert_eq!(ReadmeUpdater::find_section(DOC, "waka"), Some((0, 53)));
    assert_eq!(
        ReadmeUpdater::find_section(
            "<!--END_SECTION:waka-->é<!--START_SECTION:waka-->📊<!--END_SECTION:waka-->!",
            "waka"
        ),
        Some((24, 73))
    );
    assert_eq!(ReadmeUpdater::find_section(DOC, "other"), None);
    assert_eq!(ReadmeUpdater::find_section("<!--START_SECTION:waka-->", "waka"), None);
    assert_eq!(
        ReadmeUpdater::find_section("<!--END_SECTION:waka--><!--START_SECTION:waka-->", "waka"),
        None
    );
}

#[test]
fn update_keeps_the_bytes_outside_the_section() {
    let before = "ünïcödé 📊 before\n";
    let after = "\nafter ░█ <!--START_SECTION:waka--> stray";
    let doc = format!("{}{}{}", before, DOC, after);
    let updated = ReadmeUpdater::update(&doc, "waka", "näw").unwrap().unwrap();
    let bytes = updated.as_bytes();
    assert_eq!(&bytes[..before.len()], before.as_bytes());
    assert_eq!(&bytes[bytes.len() - after.len()..], after.as_bytes());
    assert_eq!(
        &bytes[before.len()..bytes.len() - after.len()],
        "<!--START_SECTION:waka-->\nnäw\n<!--END_SECTION:waka-->".as_bytes()
    );
}

#[test]
fn update_replaces_the_section_body() {
    let updated = ReadmeUpdater::update(DOC, "waka", "new").unwrap();
    assert_eq!(
        updated,
        Some("<!--START_SECTION:waka-->\nnew\n<!--END_SECTION:waka-->".to_string())
    );
}

#[test]
fn update_with_the_same_body_reports_no_change() {
    assert_eq!(ReadmeUpdater::update(DOC, "waka", "old").unwrap(), None);
}

#[test]
fn update_twice_changes_once() {
    let first = ReadmeUpdater::update(DOC, "waka", "fresh\nlines").unwrap();
    let doc = first.expect("the first update changes the document");
    assert_eq!(ReadmeUpdater::update(&doc, "waka", "fresh\nlines").unwrap(), None);
}

#[test]
fn update_is_not_idempotent_for_a_body_with_an_end_marker() {
    let body = "a<!--END_SECTION:waka-->b";
    let once = ReadmeUpdater::update(DOC, "waka", body).unwrap().unwrap();
    let twice = ReadmeUpdater::update(&once, "waka", body).unwrap();
    assert!(twice.is_some());
}

#[test]
fn update_keeps_everything_outside_the_section() {
    let doc = "# Title\n\nintro <!--START_SECTION:waka-->x<!--END_SECTION:waka--> outro\n<!--END_SECTION:waka-->\n";
    let updated = ReadmeUpdater::update(doc, "waka", "B").unwrap().unwrap();
    assert_eq!(
        updated,
        "# Title\n\nintro <!--START_SECTION:waka-->\nB\n<!--END_SECTION:waka--> outro\n<!--END_SECTION:waka-->\n"
    );
    assert!(updated.starts_with("# Title\n\nintro "));
    assert!(updated.ends_with(" outro\n<!--END_SECTION:waka-->\n"));
}

#[test]
fn update_rewrites_the_first_section_only() {
    let doc = "<!--START_SECTION:waka-->1<!--END_SECTION:waka-->\n<!--START_SECTION:waka-->2<!--END_SECTION:waka-->";
    let updated = ReadmeUpdater::update(doc, "waka", "n").unwrap().unwrap();
    assert_eq!(
        updated,
        "<!--START_SECTION:waka-->\nn\n<!--END_SECTION:waka-->\n<!--START_SECTION:waka-->2<!--END_SECTION:waka-->"
    );
}

#[test]
fn update_leaves_other_sections_alone() {
    let doc = "<!--START_SECTION:blog-->b<!--END_SECTION:blog-->\n<!--START_SECTION:waka-->w<!--END_SECTION:waka-->";
    let updated = ReadmeUpdater::update(doc, "waka", "n").unwrap().unwrap();
    assert_eq!(
        updated,
        "<!--START_SECTION:blog-->b<!--END_SECTION:blog-->\n<!--START_SECTION:waka-->\nn\n<!--END_SECTION:waka-->"
    );
}

#[test]
fn update_takes_the_body_literally() {
    let updated = ReadmeUpdater::update(DOC, "waka", "cost: $0 and ${name}").unwrap().unwrap();
    assert_eq!(
        updated,
        "<!--START_SECTION:waka-->\ncost: $0 and ${name}\n<!--END_SECTION:waka-->"
    );
}

#[test]
fn update_works_on_text_beyond_ascii() {
    let doc = "héllo 📊 <!--START_SECTION:waka-->旧<!--END_SECTION:waka--> wörld";
    let updated = ReadmeUpdater::update(doc, "waka", "█░ 新").unwrap().unwrap();
    assert_eq!(
        updated,
        "héllo 📊 <!--START_SECTION:waka-->\n█░ 新\n<!--END_SECTION:waka--> wörld"
    );
}

#[test]
fn update_fails_without_a_section() {
    let err = ReadmeUpdater::update("# Title\n", "waka", "new").unwrap_err();
    assert_eq!(err.kind, ErrorKind::Validation);
    assert_eq!(
        err.message,
        "Markers <!--START_SECTION:waka--> and <!--END_SECTION:waka--> not found"
    );
    assert_eq!(err.to_string(), err.message);
}

#[test]
fn update_fails_when_the_end_marker_comes_first() {
    let doc = "<!--END_SECTION:waka-->\nold\n<!--START_SECTION:waka-->";
    assert!(ReadmeValidator::ensure_section_exists(doc, "waka").is_ok());
    let err = ReadmeUpdater::update(doc, "waka", "new").unwrap_err();
    assert_eq!(err.kind, ErrorKind::Validation);
}

#[test]
fn update_agrees_with_the_pattern() {
    let docs = [
        DOC,
        "",
        "# Title\n",
        "<!--START_SECTION:waka--><!--END_SECTION:waka-->",
        "a<!--START_SECTION:waka-->b<!--START_SECTION:waka-->c<!--END_SECTION:waka-->d<!--END_SECTION:waka-->e",
        "<!--END_SECTION:waka-->x<!--START_SECTION:waka-->y<!--END_SECTION:waka-->z",
        "<!--END_SECTION:waka-->x<!--START_SECTION:waka-->y",
        "<!--START_SECTION:waka-->\n\n\n<!--END_SECTION:waka-->\ntrailer",
        "<!--START_SECTION:waka--><!--START_SECTION:waka-->",
        "<!--START_SECTION:waka<!--START_SECTION:waka-->q<!--END_SECTION:waka--",
        "<!--START_SECTION:waka<!--START_SECTION:waka-->q<!--END_SECTION:waka<!--END_SECTION:waka-->",
        "é<!--START_SECTION:waka-->📊<!--END_SECTION:waka-->ü",
        "<!--START_SECTION:other-->o<!--END_SECTION:other-->",
    ];
    let bodies = ["", "new", "old", "two\nlines", "📊 bars █░", "<!--START_SECTION:waka-->"];
    for doc in docs {
        for body in bodies {
            assert_eq!(
                update_as_text(doc, "waka", body),
                update_by_pattern(doc, "waka", body),
                "document {:?}, body {:?}",
                doc,
                body
            );
        }
    }
}

#[test]
fn update_agrees_with_the_pattern_for_names_with_special_characters() {
    let names = ["a.b", "x*", "(group)", "[set]", "a|b", "back\\slash", "", "wa ka", "ü", "a\nb"];
    for name in names {
        let doc = format!(
            "top <!--START_SECTION:{}-->old<!--END_SECTION:{}--> bottom <!--START_SECTION:axb-->",
            name, name
        );
        assert_eq!(
            update_as_text(&doc, name, "new"),
            update_by_pattern(&doc, name, "new"),
            "section {:?}",
            name
        );
        assert_eq!(
            update_as_text("<!--START_SECTION:axb-->q<!--END_SECTION:axb-->", name, "new"),
            update_by_pattern("<!--START_SECTION:axb-->q<!--END_SECTION:axb-->", name, "new"),
            "section {:?}",
            name
        );
    }
}

#[test]
fn validator_accepts_both_markers_in_either_order() {
    assert!(ReadmeValidator::ensure_section_exists(DOC, "waka").is_ok());
    let reversed = "<!--END_SECTION:waka--> then <!--START_SECTION:waka-->";
    assert!(ReadmeValidator::ensure_section_exists(reversed, "waka").is_ok());
}

#[test]
fn validator_rejects_a_document_without_markers() {
    let err = ReadmeValidator::ensure_section_exists("# Title\n", "waka").unwrap_err();
    assert_eq!(err.kind, ErrorKind::Validation);
    assert_eq!(
        err.message,
        "Required markers are missing in README. Please add:\n<!--START_SECTION:waka-->\n<!--END_SECTION:waka-->\n"
    );
}

#[test]
fn validator_rejects_a_document_with_one_marker() {
    assert!(ReadmeValidator::ensure_section_exists("<!--START_SECTION:waka-->", "waka").is_err());
    assert!(ReadmeValidator::ensure_section_exists("<!--END_SECTION:waka-->", "waka").is_err());
    assert!(ReadmeValidator::ensure_section_exists(DOC, "other").is_err());
    assert!(ReadmeValidator::ensure_section_exists("", "waka").is_err());
}
