use commit_picker::suggest::{
    clean_suggestion, clean_suggestions, frame_request, is_blank, request_body, request_content,
    strip_quotes,
};

#[test]
fn strips_one_pair_of_quotes() {
    assert_eq!(strip_quotes("\"fix bug\""), "fix bug");
    assert_eq!(strip_quotes("\"\"x\"\""), "\"x\"");
    assert_eq!(strip_quotes("\"\""), "");
}

#[test]
fn keeps_unbalanced_or_short_quotes() {
    assert_eq!(strip_quotes("\"fix bug"), "\"fix bug");
    assert_eq!(strip_quotes("fix bug\""), "fix bug\"");
    assert_eq!(strip_quotes("\""), "\"");
    assert_eq!(strip_quotes(""), "");
}

#[test]
fn strips_quotes_around_non_ascii_text() {
    assert_eq!(strip_quotes("\"héllo wörld\""), "héllo wörld");
}

#[test]
fn cleans_whitespace_then_quotes() {
    assert_eq!(clean_suggestion("  \"add tests\"\n"), "add tests");
    assert_eq!(clean_suggestion("\t update docs  "), "update docs");
    assert_eq!(clean_suggestion(" \" spaced \" "), " spaced ");
}

#[test]
fn cleans_every_suggestion_in_order() {
    let raw = vec![" \"a\" ".to_string(), "b".to_string(), "\"c".to_string()];
    assert_eq!(clean_suggestions(&raw), vec!["a".to_string(), "b".to_string(), "\"c".to_string()]);
}

#[test]
fn blank_diffs_are_detected() {
    assert!(is_blank(""));
    assert!(is_blank("  \n\t "));
    assert!(!is_blank("diff --git a/x b/x\n"));
}

#[test]
fn request_content_fences_the_diff() {
    assert_eq!(
        request_content("Describe:", "+line"),
        "Describe:\nReturn only a single line of text no more than 50 characters. Do not include an explanation.\n\n```\n+line\n```"
    );
}

#[test]
fn frame_request_places_encoded_parts() {
    assert_eq!(
        frame_request("\"m\"", "\"c\""),
        "{\"model\":\"m\",\"messages\":[{\"role\":\"system\",\"content\":\"You are a helpful assistant.\"},{\"role\":\"user\",\"content\":\"c\"}],\"n\":5}"
    );
}

#[test]
fn request_body_encodes_strings() {
    let body = request_body("gpt-3.5-turbo", "say \"hi\"\n");
    assert_eq!(
        body,
        "{\"model\":\"gpt-3.5-turbo\",\"messages\":[{\"role\":\"system\",\"content\":\"You are a helpful assistant.\"},{\"role\":\"user\",\"content\":\"say \\\"hi\\\"\\n\"}],\"n\":5}"
    );
    let parsed: serde_json::Value = serde_json::from_str(&body).unwrap_or(serde_json::Value::Null);
    assert_eq!(parsed["messages"][1]["content"], "say \"hi\"\n");
    assert_eq!(parsed["n"], 5);
}

#[test]
fn request_body_escapes_control_characters() {
    let body = request_body("m\\x", "a\u{1}\u{8}\t\u{c}\r\u{1f}é");
    assert_eq!(
        body,
        "{\"model\":\"m\\\\x\",\"messages\":[{\"role\":\"system\",\"content\":\"You are a helpful assistant.\"},{\"role\":\"user\",\"content\":\"a\\u0001\\b\\t\\f\\r\\u001fé\"}],\"n\":5}"
    );
}

#[test]
fn unicode_whitespace_is_trimmed() {
    assert_eq!(clean_suggestion("\u{3000}\u{a0}fix\u{2028}\u{85}"), "fix");
    assert!(is_blank("\u{a0}\u{2000}\u{200a}\u{205f}\u{1680}\u{b}"));
    assert!(!is_blank("\u{200b}"));
}
