use serde_json::Value;
use storyboard::report::{cost_note, cost_summary};

fn value(text: &str) -> Value {
    serde_json::from_str(text).unwrap()
}

#[test]
fn costs_have_six_digits_behind_the_point() {
    assert_eq!(cost_summary(&value("{\"cost\": 0.0005}")), "; provider cost $0.000500");
    assert_eq!(cost_summary(&value("{\"cost\": 2}")), "; provider cost $2.000000");
    assert_eq!(cost_summary(&value("{\"cost\": -1}")), "; provider cost $-1.000000");
}

#[test]
fn costs_may_be_missing() {
    for usage in ["{}", "{\"cost\": \"1\"}", "{\"cost\": null}", "[1]", "null"] {
        assert_eq!(cost_summary(&value(usage)), "; provider cost unavailable");
    }
}

#[test]
fn cost_notes_quote_the_amount() {
    assert_eq!(cost_note(Some("0.25".to_string())), "; provider cost $0.25");
    assert_eq!(cost_note(None), "; provider cost unavailable");
}
