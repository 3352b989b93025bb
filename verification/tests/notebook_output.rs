use base64::prelude::BASE64_STANDARD;
use base64::Engine as _;
use warp_app::{
    classify_outputs, image_item_from_decoded, strip_ansi, truncate_for_display, JsonValue,
    OutputItem, MAX_IMAGE_BYTES, MAX_TEXT_OUTPUT_BYTES,
};

fn s(text: &str) -> JsonValue {
    JsonValue::String(text.to_string())
}

fn arr(items: Vec<JsonValue>) -> JsonValue {
    JsonValue::Array(items)
}

fn obj(members: Vec<(&str, JsonValue)>) -> JsonValue {
    JsonValue::Object(members.into_iter().map(|(k, v)| (k.to_string(), v)).collect())
}

fn num(text: &str) -> JsonValue {
    JsonValue::Number(text.to_string())
}

#[test]
fn strip_ansi_removes_color_codes() {
    let input = "\u{1b}[0;31mTraceback\u{1b}[0m: \u{1b}[1mboom\u{1b}[22m";
    assert_eq!(strip_ansi(input), "Traceback: boom");
}

#[test]
fn strip_ansi_leaves_plain_text_untouched() {
    assert_eq!(strip_ansi("just text\nwith lines"), "just text\nwith lines");
}

#[test]
fn strip_ansi_handles_osc_and_other_escapes() {
    // OSC terminated by BEL, OSC terminated by ST, a two-character escape, and a trailing ESC.
    assert_eq!(strip_ansi("a\u{1b}]0;title\u{7}b"), "ab");
    assert_eq!(strip_ansi("a\u{1b}]8;;x\u{1b}\\b"), "ab");
    assert_eq!(strip_ansi("a\u{1b}Mb"), "ab");
    assert_eq!(strip_ansi("a\u{1b}"), "a");
    // An unterminated CSI swallows the rest.
    assert_eq!(strip_ansi("a\u{1b}[12;"), "a");
}

#[test]
fn strip_ansi_is_idempotent_on_examples() {
    for input in ["\u{1b}[1mx\u{1b}[0m", "plain", "\u{1b}\u{1b}[31my", "\u{1b}]x\u{1b}z"] {
        let once = strip_ansi(input);
        assert!(!once.contains('\u{1b}'));
        assert_eq!(strip_ansi(&once), once);
    }
}

#[test]
fn classify_stream_output_as_text() {
    let outputs = vec![obj(vec![
        ("output_type", s("stream")),
        ("name", s("stdout")),
        ("text", arr(vec![s("hello\n"), s("world\n")])),
    ])];
    assert_eq!(
        classify_outputs(&outputs),
        vec![OutputItem::Text("hello\nworld\n".to_string())]
    );
}

#[test]
fn classify_text_plain_result_as_text() {
    let outputs = vec![obj(vec![
        ("output_type", s("execute_result")),
        ("data", obj(vec![("text/plain", s("42"))])),
        ("metadata", obj(vec![])),
        ("execution_count", num("1")),
    ])];
    assert_eq!(classify_outputs(&outputs), vec![OutputItem::Text("42".to_string())]);
}

#[test]
fn classify_error_strips_ansi_from_traceback() {
    let outputs = vec![obj(vec![
        ("output_type", s("error")),
        ("ename", s("ValueError")),
        ("evalue", s("bad")),
        ("traceback", arr(vec![s("\u{1b}[0;31mValueError\u{1b}[0m"), s("bad")])),
    ])];
    assert_eq!(
        classify_outputs(&outputs),
        vec![OutputItem::Text("ValueErrorbad".to_string())]
    );
}

#[test]
fn classify_error_without_traceback_uses_summary() {
    let both = vec![obj(vec![
        ("output_type", s("error")),
        ("ename", s("KeyError")),
        ("evalue", s("'x'")),
    ])];
    assert_eq!(classify_outputs(&both), vec![OutputItem::Text("KeyError: 'x'".to_string())]);
    let name_only = vec![obj(vec![("output_type", s("error")), ("ename", s("Boom"))])];
    assert_eq!(classify_outputs(&name_only), vec![OutputItem::Text("Boom".to_string())]);
    let value_only = vec![obj(vec![("output_type", s("error")), ("evalue", s("why"))])];
    assert_eq!(classify_outputs(&value_only), vec![OutputItem::Text("why".to_string())]);
    let neither = vec![obj(vec![("output_type", s("error"))])];
    assert_eq!(classify_outputs(&neither), vec![OutputItem::Text(String::new())]);
}

#[test]
fn classify_valid_png_as_image() {
    let png_bytes: &[u8] = &[
        0x89, 0x50, 0x4e, 0x47, 0x0d, 0x0a, 0x1a, 0x0a, 0x00, 0x00, 0x00, 0x0d, 0x49, 0x48, 0x44,
        0x52, 0x00, 0x00, 0x00, 0x01, 0x00, 0x00, 0x00, 0x01, 0x08, 0x06, 0x00, 0x00, 0x00, 0x1f,
        0x15, 0xc4, 0x89,
    ];
    let encoded = BASE64_STANDARD.encode(png_bytes);
    let outputs = vec![obj(vec![
        ("output_type", s("display_data")),
        ("data", obj(vec![("image/png", JsonValue::String(encoded))])),
        ("metadata", obj(vec![])),
    ])];
    assert_eq!(classify_outputs(&outputs), vec![OutputItem::Image(png_bytes.to_vec())]);
}

#[test]
fn classify_image_split_across_lines_is_joined() {
    let encoded = BASE64_STANDARD.encode([1u8, 2, 3, 4, 5, 6]);
    let (first, second) = encoded.split_at(4);
    let outputs = vec![obj(vec![
        ("output_type", s("display_data")),
        ("data", obj(vec![("image/jpeg", arr(vec![s(&format!("{first}\n")), s(second)]))])),
    ])];
    assert_eq!(classify_outputs(&outputs), vec![OutputItem::Image(vec![1, 2, 3, 4, 5, 6])]);
}

#[test]
fn classify_invalid_base64_image_as_placeholder() {
    let outputs = vec![obj(vec![
        ("output_type", s("display_data")),
        ("data", obj(vec![("image/png", s("not%%%valid%%%base64"))])),
        ("metadata", obj(vec![])),
    ])];
    assert_eq!(
        classify_outputs(&outputs),
        vec![OutputItem::Placeholder("invalid image data".to_string())]
    );
}

#[test]
fn classify_oversized_image_as_placeholder_without_decoding() {
    let over_cap_b64 = "A".repeat(9 * 1024 * 1024 / 3 * 4);
    let outputs = vec![obj(vec![
        ("output_type", s("display_data")),
        ("data", obj(vec![("image/png", JsonValue::String(over_cap_b64))])),
        ("metadata", obj(vec![])),
    ])];
    let classified = classify_outputs(&outputs);
    assert!(matches!(
        classified.as_slice(),
        [OutputItem::Placeholder(msg)] if msg.starts_with("[image output omitted for display:")
    ));
    assert_eq!(
        classified,
        vec![OutputItem::Placeholder("[image output omitted for display: 9216 KB]".to_string())]
    );
}

#[test]
fn classify_prefers_image_over_text_plain() {
    let png = BASE64_STANDARD.encode([0x89, 0x50, 0x4e, 0x47]);
    let outputs = vec![obj(vec![
        ("output_type", s("execute_result")),
        ("data", obj(vec![("image/png", JsonValue::String(png)), ("text/plain", s("<Figure>"))])),
        ("metadata", obj(vec![])),
        ("execution_count", num("2")),
    ])];
    assert_eq!(classify_outputs(&outputs), vec![OutputItem::Image(vec![0x89, 0x50, 0x4e, 0x47])]);
}

#[test]
fn classify_skips_unsupported_mime_types() {
    let outputs = vec![obj(vec![
        ("output_type", s("display_data")),
        ("data", obj(vec![("text/html", s("<b>x</b>"))])),
        ("metadata", obj(vec![])),
    ])];
    assert!(classify_outputs(&outputs).is_empty());
}

#[test]
fn classify_skips_unknown_output_type() {
    let outputs = vec![obj(vec![("output_type", s("future_type")), ("payload", num("7"))])];
    assert!(classify_outputs(&outputs).is_empty());
}

#[test]
fn classify_skips_non_objects_and_keeps_order() {
    let outputs = vec![
        s("not an object"),
        obj(vec![("output_type", s("stream")), ("text", s("a"))]),
        JsonValue::Null,
        obj(vec![("output_type", s("stream")), ("text", s("b"))]),
    ];
    assert_eq!(
        classify_outputs(&outputs),
        vec![OutputItem::Text("a".to_string()), OutputItem::Text("b".to_string())]
    );
}

#[test]
fn truncate_for_display_caps_long_text_on_a_char_boundary() {
    let short = "x".repeat(MAX_TEXT_OUTPUT_BYTES);
    assert_eq!(truncate_for_display(short.clone()), short);

    let long = "y".repeat(MAX_TEXT_OUTPUT_BYTES + 1);
    let shown = truncate_for_display(long);
    assert_eq!(
        shown,
        format!("{}\n… [output truncated for display]", "y".repeat(MAX_TEXT_OUTPUT_BYTES))
    );

    // A two-byte character straddling the cap is dropped whole.
    let straddling = format!("{}é", "z".repeat(MAX_TEXT_OUTPUT_BYTES - 1));
    assert_eq!(
        truncate_for_display(straddling),
        format!("{}\n… [output truncated for display]", "z".repeat(MAX_TEXT_OUTPUT_BYTES - 1))
    );
}

#[test]
fn image_item_from_decoded_applies_the_display_cap() {
    assert_eq!(image_item_from_decoded(Some(vec![1, 2])), OutputItem::Image(vec![1, 2]));
    assert_eq!(
        image_item_from_decoded(None),
        OutputItem::Placeholder("invalid image data".to_string())
    );
    assert_eq!(
        image_item_from_decoded(Some(vec![0; MAX_IMAGE_BYTES + 1])),
        OutputItem::Placeholder("[image output omitted for display: 8192 KB]".to_string())
    );
    assert_eq!(
        image_item_from_decoded(Some(vec![0; MAX_IMAGE_BYTES])),
        OutputItem::Image(vec![0; MAX_IMAGE_BYTES])
    );
}

#[test]
fn strip_ansi_never_lengthens_its_input() {
    for input in ["\u{1b}[31mred\u{1b}[0m", "plain", "\u{1b}]0;title\u{7}after", "\u{1b}", ""] {
        let out = strip_ansi(input);
        assert!(out.chars().count() <= input.chars().count());
        let mut rest = input.chars();
        assert!(out.chars().all(|c| rest.any(|d| d == c)), "output of {input:?} is a subsequence");
    }
}
