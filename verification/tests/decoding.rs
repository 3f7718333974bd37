use bidi_browser::assertions::decode_presence;
use bidi_browser::error::BrowserError;
use bidi_browser::extract::{decode_attribute, decode_text_extraction};
use bidi_browser::input::decode_click;
use bidi_browser::local_storage::decode_storage_read;
use bidi_browser::protocol::{EvaluationOutcome, ScriptValue};

fn text(s: &str) -> EvaluationOutcome {
    EvaluationOutcome::Success(ScriptValue::Text(s.to_string()))
}

#[test]
fn extraction_decodes_a_string() {
    let r = decode_text_extraction(text("<p>hi</p>"), "p", "innerHTML");
    assert_eq!(r.unwrap(), "<p>hi</p>");
}

#[test]
fn extraction_null_is_element_not_found() {
    let r = decode_text_extraction(EvaluationOutcome::Success(ScriptValue::Null), "p.x", "innerHTML");
    match r {
        Err(BrowserError::Element(m)) => {
            assert_eq!(m, "Element not found with selector: p.x");
        }
        other => panic!("expected an element error, got {:?}", other),
    }
}

#[test]
fn extraction_rejects_unexpected_shapes() {
    let r = decode_text_extraction(
        EvaluationOutcome::Success(ScriptValue::Truth(true)),
        "p",
        "innerText",
    );
    match r {
        Err(BrowserError::Element(m)) => {
            assert_eq!(m, "Unexpected result type from innerText extraction");
        }
        other => panic!("expected an element error, got {:?}", other),
    }
}

#[test]
fn extraction_surfaces_exceptions() {
    let r = decode_text_extraction(
        EvaluationOutcome::Exception("boom".to_string()),
        "p",
        "innerHTML",
    );
    match r {
        Err(BrowserError::Element(m)) => {
            assert_eq!(m, "Script exception during innerHTML extraction: boom");
        }
        other => panic!("expected an element error, got {:?}", other),
    }
}

#[test]
fn extraction_rejects_empty_results() {
    let r = decode_text_extraction(EvaluationOutcome::Empty, "p", "innerHTML");
    match r {
        Err(BrowserError::Element(m)) => {
            assert_eq!(m, "Empty result from innerHTML extraction script");
        }
        other => panic!("expected an element error, got {:?}", other),
    }
}

#[test]
fn attribute_string_is_its_value() {
    let r = decode_attribute(text("https://example.com"), "a");
    assert_eq!(r.unwrap(), Some("https://example.com".to_string()));
}

#[test]
fn attribute_absent_on_existing_element_is_none() {
    let r = decode_attribute(EvaluationOutcome::Success(ScriptValue::Null), "a");
    assert_eq!(r.unwrap(), None);
}

#[test]
fn attribute_on_absent_element_is_an_error_not_none() {
    let r = decode_attribute(EvaluationOutcome::Success(ScriptValue::Undefined), "a.gone");
    match r {
        Err(BrowserError::Element(m)) => {
            assert_eq!(m, "Element not found with selector: a.gone");
        }
        other => panic!("expected an element error, got {:?}", other),
    }
}

#[test]
fn attribute_rejects_unexpected_shapes() {
    let r = decode_attribute(EvaluationOutcome::Success(ScriptValue::Truth(false)), "a");
    match r {
        Err(BrowserError::Element(m)) => {
            assert_eq!(m, "Unexpected result type from attribute extraction");
        }
        other => panic!("expected an element error, got {:?}", other),
    }
}

#[test]
fn attribute_surfaces_exceptions_and_empty_results() {
    match decode_attribute(EvaluationOutcome::Exception("oops".to_string()), "a") {
        Err(BrowserError::Element(m)) => {
            assert_eq!(m, "Script exception during attribute extraction: oops");
        }
        other => panic!("expected an element error, got {:?}", other),
    }
    match decode_attribute(EvaluationOutcome::Empty, "a") {
        Err(BrowserError::Element(m)) => {
            assert_eq!(m, "Empty result from attribute extraction script");
        }
        other => panic!("expected an element error, got {:?}", other),
    }
}

#[test]
fn click_true_succeeds() {
    assert!(decode_click(EvaluationOutcome::Success(ScriptValue::Truth(true)), "a").is_ok());
}

#[test]
fn click_false_is_element_not_found() {
    match decode_click(EvaluationOutcome::Success(ScriptValue::Truth(false)), "a#next") {
        Err(BrowserError::Action(m)) => {
            assert_eq!(m, "Element not found with selector: a#next");
        }
        other => panic!("expected an action error, got {:?}", other),
    }
}

#[test]
fn click_rejects_unexpected_shapes() {
    match decode_click(text("yes"), "a") {
        Err(BrowserError::Action(m)) => {
            assert_eq!(m, "Unexpected result type from click operation");
        }
        other => panic!("expected an action error, got {:?}", other),
    }
}

#[test]
fn click_surfaces_exceptions_and_empty_results() {
    match decode_click(EvaluationOutcome::Exception("bad".to_string()), "a") {
        Err(BrowserError::Action(m)) => {
            assert_eq!(m, "Script exception during click: bad");
        }
        other => panic!("expected an action error, got {:?}", other),
    }
    match decode_click(EvaluationOutcome::Empty, "a") {
        Err(BrowserError::Action(m)) => {
            assert_eq!(m, "Empty result from click script evaluation");
        }
        other => panic!("expected an action error, got {:?}", other),
    }
}

#[test]
fn presence_passes_booleans_through() {
    assert_eq!(
        decode_presence(EvaluationOutcome::Success(ScriptValue::Truth(true))).unwrap(),
        true
    );
    assert_eq!(
        decode_presence(EvaluationOutcome::Success(ScriptValue::Truth(false))).unwrap(),
        false
    );
}

#[test]
fn presence_reads_non_booleans_as_absent() {
    assert_eq!(decode_presence(text("h1")).unwrap(), false);
    assert_eq!(
        decode_presence(EvaluationOutcome::Success(ScriptValue::Null)).unwrap(),
        false
    );
}

#[test]
fn presence_surfaces_exceptions_and_empty_results() {
    match decode_presence(EvaluationOutcome::Exception("err".to_string())) {
        Err(BrowserError::Assertion(m)) => assert_eq!(m, "Script exception: err"),
        other => panic!("expected an assertion error, got {:?}", other),
    }
    match decode_presence(EvaluationOutcome::Empty) {
        Err(BrowserError::Assertion(m)) => {
            assert_eq!(m, "Empty result from script evaluation");
        }
        other => panic!("expected an assertion error, got {:?}", other),
    }
}

#[test]
fn storage_read_decodes_strings_only() {
    assert_eq!(decode_storage_read(text("stored")), Some("stored".to_string()));
    assert_eq!(decode_storage_read(text("")), Some(String::new()));
    assert_eq!(decode_storage_read(EvaluationOutcome::Success(ScriptValue::Null)), None);
    assert_eq!(
        decode_storage_read(EvaluationOutcome::Success(ScriptValue::Truth(true))),
        None
    );
    assert_eq!(decode_storage_read(EvaluationOutcome::Exception("e".to_string())), None);
    assert_eq!(decode_storage_read(EvaluationOutcome::Empty), None);
}

#[test]
fn errors_describe_themselves_with_their_kind() {
    assert_eq!(
        BrowserError::Navigation("no page".to_string()).describe(),
        "Navigation error: no page"
    );
    assert_eq!(
        BrowserError::SessionCreation("refused".to_string()).describe(),
        "Session creation error: refused"
    );
    assert_eq!(BrowserError::Action("x".to_string()).describe(), "Action error: x");
    assert_eq!(
        BrowserError::LocalStorage("y".to_string()).describe(),
        "LocalStorage error: y"
    );
}
