use atoma_service::charsmap::table_is_fit;
use atoma_service::error::ErrorKind;
use atoma_service::estimator::{
    calculate_chat_completion_compute_units, calculate_compute_units,
    calculate_embedding_compute_units, calculate_image_generation_compute_units,
    chat_completion_units, chat_estimate_from_counts, chat_message_contents,
    embedding_array_units, embedding_estimate_from_counts, embedding_single_units,
    parse_image_size,
};
use atoma_service::json::{JsonMember, JsonNumber, JsonValue};
use atoma_service::metadata::RequestType;
use atoma_service::tokenizer::{
    normalizer_is_fit, padding_is_fit, post_processor_is_fit, pre_tokenizer_is_fit,
    truncation_is_fit, ModelTokenizers, Padding, Truncation, MAX_PADDING,
};
use base64::Engine;
use tokenizers::Tokenizer;

const ENDPOINT: &str = "/v1/chat/completions";

fn est_text(s: &str) -> JsonValue {
    JsonValue::String(s.to_string())
}

fn est_int(n: i64) -> JsonValue {
    JsonValue::Number(JsonNumber {
        signed: Some(n),
        unsigned: if n >= 0 { Some(n as u64) } else { None },
    })
}

fn est_object(members: Vec<(&str, JsonValue)>) -> JsonValue {
    JsonValue::Object(
        members
            .into_iter()
            .map(|(name, value)| JsonMember { name: name.to_string(), value })
            .collect(),
    )
}

fn est_message(content: &str) -> JsonValue {
    est_object(vec![("role", est_text("user")), ("content", est_text(content))])
}

/// A tokenizer that splits at white space and puts `prefix` special tokens
/// before each text and `suffix` after it.
fn est_tokenizer(prefix: usize, suffix: usize) -> Tokenizer {
    let mut single = Vec::new();
    for _ in 0..prefix {
        single.push(r#"{"SpecialToken":{"id":"[CLS]","type_id":0}}"#.to_string());
    }
    single.push(r#"{"Sequence":{"id":"A","type_id":0}}"#.to_string());
    for _ in 0..suffix {
        single.push(r#"{"SpecialToken":{"id":"[SEP]","type_id":0}}"#.to_string());
    }
    let json = format!(
        r#"{{
  "version": "1.0",
  "truncation": null,
  "padding": null,
  "added_tokens": [],
  "normalizer": null,
  "pre_tokenizer": {{"type": "WhitespaceSplit"}},
  "post_processor": {{
    "type": "TemplateProcessing",
    "single": [{}],
    "pair": [{{"Sequence":{{"id":"A","type_id":0}}}}, {{"Sequence":{{"id":"B","type_id":1}}}}],
    "special_tokens": {{
      "[CLS]": {{"id": "[CLS]", "ids": [1], "tokens": ["[CLS]"]}},
      "[SEP]": {{"id": "[SEP]", "ids": [2], "tokens": ["[SEP]"]}}
    }}
  }},
  "decoder": null,
  "model": {{"type": "WordLevel", "vocab": {{"[UNK]": 0, "[CLS]": 1, "[SEP]": 2, "a": 3, "b": 4}}, "unk_token": "[UNK]"}}
}}"#,
        single.join(", ")
    );
    Tokenizer::from_bytes(json.as_bytes()).expect("the tokenizer is well formed")
}

fn est_tokenizers(prefix: usize, suffix: usize) -> ModelTokenizers {
    ModelTokenizers::new(vec!["llama".to_string()], vec![est_tokenizer(prefix, suffix)])
        .expect("one tokenizer for one model")
}

#[test]
fn chat_units_are_tokens_plus_margin_plus_max_tokens() {
    // "Hello, how are you?" is four words; with one special token, five tokens.
    let body = est_object(vec![
        ("messages", JsonValue::Array(vec![est_message("Hello, how are you?")])),
        ("max_tokens", est_int(100)),
    ]);
    let units =
        calculate_chat_completion_compute_units(&body, &est_tokenizers(1, 0), "llama", ENDPOINT);
    assert_eq!(units.unwrap(), 108);
}

#[test]
fn chat_units_add_up_over_messages() {
    let body = est_object(vec![
        (
            "messages",
            JsonValue::Array(vec![est_message("a b"), est_message("a"), est_message("")]),
        ),
        ("max_tokens", est_int(10)),
    ]);
    let units =
        calculate_chat_completion_compute_units(&body, &est_tokenizers(0, 0), "llama", ENDPOINT);
    assert_eq!(units.unwrap(), (2 + 3) + (1 + 3) + (0 + 3) + 10);
}

#[test]
fn chat_units_from_counts() {
    assert_eq!(chat_completion_units(&vec![Some(5)], 100), Some(108));
    assert_eq!(chat_completion_units(&vec![], 7), Some(7));
    assert_eq!(chat_completion_units(&vec![Some(1), Some(2)], -3), Some(1 + 3 + 2 + 3 - 3));
    assert_eq!(chat_completion_units(&vec![Some(1), None], 100), None);
    assert_eq!(chat_completion_units(&vec![Some(0)], i64::MAX - 3), Some(i64::MAX));
    assert_eq!(chat_completion_units(&vec![Some(0)], i64::MAX - 2), None);
    assert_eq!(chat_completion_units(&vec![Some(usize::MAX), Some(usize::MAX)], i64::MIN), None);
}

#[test]
fn chat_estimate_from_counts_reads_the_body() {
    let body = est_object(vec![
        ("messages", JsonValue::Array(vec![est_message("x"), est_message("y")])),
        ("max_tokens", est_int(100)),
    ]);
    assert_eq!(
        chat_estimate_from_counts(&body, true, &vec![Some(5), Some(7)], ENDPOINT).unwrap(),
        5 + 3 + 7 + 3 + 100
    );
    let unsupported = chat_estimate_from_counts(&body, false, &vec![Some(5), Some(7)], ENDPOINT);
    assert_eq!(unsupported.unwrap_err().error_kind(), ErrorKind::InvalidBody);
    let short = chat_estimate_from_counts(&body, true, &vec![Some(5)], ENDPOINT);
    assert_eq!(short.unwrap_err().error_kind(), ErrorKind::InvalidBody);
    let unmeasured = chat_estimate_from_counts(&body, true, &vec![Some(5), None], ENDPOINT);
    assert_eq!(unmeasured.unwrap_err().error_kind(), ErrorKind::InvalidBody);
}

#[test]
fn chat_without_messages_is_rejected() {
    let body = est_object(vec![("max_tokens", est_int(100))]);
    let r = calculate_chat_completion_compute_units(&body, &est_tokenizers(0, 0), "llama", ENDPOINT);
    let e = r.unwrap_err();
    assert_eq!(e.error_kind(), ErrorKind::InvalidBody);
    assert_eq!(e.endpoint_path(), ENDPOINT);
    assert_eq!(e.status_code(), 400);
}

#[test]
fn chat_with_messages_that_are_no_array_is_rejected() {
    let body = est_object(vec![("messages", est_text("hi")), ("max_tokens", est_int(100))]);
    let r = calculate_chat_completion_compute_units(&body, &est_tokenizers(0, 0), "llama", ENDPOINT);
    assert_eq!(r.unwrap_err().error_kind(), ErrorKind::InvalidBody);
}

#[test]
fn chat_with_content_that_is_no_string_is_rejected() {
    let message = est_object(vec![("role", est_text("user")), ("content", est_int(5))]);
    let body = est_object(vec![
        ("messages", JsonValue::Array(vec![est_message("a"), message])),
        ("max_tokens", est_int(100)),
    ]);
    let r = calculate_chat_completion_compute_units(&body, &est_tokenizers(0, 0), "llama", ENDPOINT);
    assert_eq!(r.unwrap_err().error_kind(), ErrorKind::InvalidBody);
    assert!(chat_message_contents(&body, ENDPOINT).is_err());
}

#[test]
fn chat_with_message_without_content_is_rejected() {
    let message = est_object(vec![("role", est_text("user"))]);
    let body = est_object(vec![
        ("messages", JsonValue::Array(vec![message])),
        ("max_tokens", est_int(100)),
    ]);
    let r = calculate_chat_completion_compute_units(&body, &est_tokenizers(0, 0), "llama", ENDPOINT);
    assert_eq!(r.unwrap_err().error_kind(), ErrorKind::InvalidBody);
}

#[test]
fn chat_without_max_tokens_is_rejected() {
    let body = est_object(vec![("messages", JsonValue::Array(vec![est_message("a")]))]);
    let r = calculate_chat_completion_compute_units(&body, &est_tokenizers(0, 0), "llama", ENDPOINT);
    assert_eq!(r.unwrap_err().error_kind(), ErrorKind::InvalidBody);
    let fraction = JsonValue::Number(JsonNumber { signed: None, unsigned: None });
    let body = est_object(vec![
        ("messages", JsonValue::Array(vec![est_message("a")])),
        ("max_tokens", fraction),
    ]);
    let r = calculate_chat_completion_compute_units(&body, &est_tokenizers(0, 0), "llama", ENDPOINT);
    assert_eq!(r.unwrap_err().error_kind(), ErrorKind::InvalidBody);
}

#[test]
fn chat_for_a_model_that_is_not_served_is_rejected() {
    let body = est_object(vec![
        ("messages", JsonValue::Array(vec![est_message("a")])),
        ("max_tokens", est_int(100)),
    ]);
    let r = calculate_chat_completion_compute_units(&body, &est_tokenizers(0, 0), "gpt", ENDPOINT);
    assert_eq!(r.unwrap_err().error_kind(), ErrorKind::InvalidBody);
}

#[test]
fn chat_contents_come_in_order() {
    let body = est_object(vec![(
        "messages",
        JsonValue::Array(vec![est_message("first"), est_message("second")]),
    )]);
    assert_eq!(chat_message_contents(&body, ENDPOINT).unwrap(), vec!["first", "second"]);
}

#[test]
fn embedding_of_one_string() {
    // "test" is one word; with two special tokens, three tokens.
    let body = est_object(vec![("input", est_text("test"))]);
    let r = calculate_embedding_compute_units(&body, &est_tokenizers(1, 1), "llama", ENDPOINT);
    assert_eq!(r.unwrap(), 3);
}

#[test]
fn embedding_of_an_array() {
    let body = est_object(vec![("input", JsonValue::Array(vec![est_text("a"), est_text("b")]))]);
    let r = calculate_embedding_compute_units(&body, &est_tokenizers(0, 0), "llama", ENDPOINT);
    assert_eq!(r.unwrap(), 2);
}

#[test]
fn embedding_items_that_are_no_strings_count_as_nothing() {
    let body = est_object(vec![(
        "input",
        JsonValue::Array(vec![est_text("a b"), est_int(7), JsonValue::Null, est_text("a")]),
    )]);
    let r = calculate_embedding_compute_units(&body, &est_tokenizers(0, 0), "llama", ENDPOINT);
    assert_eq!(r.unwrap(), 3);
    let body = est_object(vec![("input", JsonValue::Array(vec![est_int(7), JsonValue::Bool(true)]))]);
    let r = calculate_embedding_compute_units(&body, &est_tokenizers(0, 0), "llama", ENDPOINT);
    assert_eq!(r.unwrap(), 0);
    let body = est_object(vec![("input", JsonValue::Array(vec![]))]);
    let r = calculate_embedding_compute_units(&body, &est_tokenizers(0, 0), "llama", ENDPOINT);
    assert_eq!(r.unwrap(), 0);
}

#[test]
fn embedding_without_input_is_rejected() {
    let body = est_object(vec![("model", est_text("llama"))]);
    let r = calculate_embedding_compute_units(&body, &est_tokenizers(0, 0), "llama", ENDPOINT);
    assert_eq!(r.unwrap_err().error_kind(), ErrorKind::InvalidBody);
    let body = est_object(vec![("input", est_int(3))]);
    let r = calculate_embedding_compute_units(&body, &est_tokenizers(0, 0), "llama", ENDPOINT);
    assert_eq!(r.unwrap_err().error_kind(), ErrorKind::InvalidBody);
    let body = est_object(vec![("input", est_text("a"))]);
    let r = calculate_embedding_compute_units(&body, &est_tokenizers(0, 0), "other", ENDPOINT);
    assert_eq!(r.unwrap_err().error_kind(), ErrorKind::InvalidBody);
}

#[test]
fn embedding_units_from_counts() {
    assert_eq!(embedding_single_units(Some(3)), Some(3));
    assert_eq!(embedding_single_units(Some(0)), Some(0));
    assert_eq!(embedding_single_units(None), None);
    assert_eq!(embedding_single_units(Some(usize::MAX)), None);
    assert_eq!(embedding_array_units(&vec![Some(1), Some(1)]), Some(2));
    assert_eq!(embedding_array_units(&vec![Some(4), None, Some(6)]), Some(10));
    assert_eq!(embedding_array_units(&vec![]), Some(0));
    assert_eq!(embedding_array_units(&vec![Some(usize::MAX), Some(usize::MAX)]), None);
    let body = est_object(vec![("input", JsonValue::Array(vec![est_text("a"), est_int(1)]))]);
    assert_eq!(
        embedding_estimate_from_counts(&body, true, &vec![Some(9), None], ENDPOINT).unwrap(),
        9
    );
    assert!(embedding_estimate_from_counts(&body, true, &vec![Some(9)], ENDPOINT).is_err());
    assert!(embedding_estimate_from_counts(&body, false, &vec![Some(9), None], ENDPOINT).is_err());
    let body = est_object(vec![("input", est_text("a"))]);
    assert_eq!(embedding_estimate_from_counts(&body, true, &vec![Some(3)], ENDPOINT).unwrap(), 3);
    assert!(embedding_estimate_from_counts(&body, true, &vec![None], ENDPOINT).is_err());
}

#[test]
fn image_units_are_width_times_height_times_n() {
    let body = est_object(vec![("size", est_text("512x512")), ("n", est_int(2))]);
    assert_eq!(calculate_image_generation_compute_units(&body, ENDPOINT).unwrap(), 524288);
    let body = est_object(vec![("size", est_text("1024x768")), ("n", est_int(1))]);
    assert_eq!(calculate_image_generation_compute_units(&body, ENDPOINT).unwrap(), 786432);
    let body = est_object(vec![("size", est_text("3x5")), ("n", est_int(0))]);
    assert_eq!(calculate_image_generation_compute_units(&body, ENDPOINT).unwrap(), 0);
}

#[test]
fn image_with_malformed_size_is_rejected() {
    for size in ["512", "512x", "x512", "512X512", "512x512x2", "5 x 5", "axb", "", "5.0x5", "９x9"] {
        let body = est_object(vec![("size", est_text(size)), ("n", est_int(1))]);
        let e = calculate_image_generation_compute_units(&body, ENDPOINT).unwrap_err();
        assert_eq!(e.error_kind(), ErrorKind::InvalidBody, "size {size:?}");
        assert_eq!(e.endpoint_path(), ENDPOINT);
    }
    let body = est_object(vec![("size", est_int(512)), ("n", est_int(1))]);
    assert!(calculate_image_generation_compute_units(&body, ENDPOINT).is_err());
    let body = est_object(vec![("n", est_int(1))]);
    assert!(calculate_image_generation_compute_units(&body, ENDPOINT).is_err());
}

#[test]
fn image_with_malformed_count_is_rejected() {
    let body = est_object(vec![("size", est_text("512x512"))]);
    assert!(calculate_image_generation_compute_units(&body, ENDPOINT).is_err());
    let body = est_object(vec![("size", est_text("512x512")), ("n", est_int(-1))]);
    assert!(calculate_image_generation_compute_units(&body, ENDPOINT).is_err());
    let body = est_object(vec![("size", est_text("512x512")), ("n", est_text("2"))]);
    assert!(calculate_image_generation_compute_units(&body, ENDPOINT).is_err());
}

#[test]
fn image_units_beyond_64_bits_are_rejected() {
    let body = est_object(vec![
        ("size", est_text("4294967296x4294967296")),
        ("n", est_int(1)),
    ]);
    let e = calculate_image_generation_compute_units(&body, ENDPOINT).unwrap_err();
    assert_eq!(e.error_kind(), ErrorKind::InvalidBody);
    let body = est_object(vec![
        ("size", est_text("3037000499x3037000499")),
        ("n", est_int(1)),
    ]);
    assert_eq!(
        calculate_image_generation_compute_units(&body, ENDPOINT).unwrap(),
        3037000499i64 * 3037000499i64
    );
    let body = est_object(vec![
        ("size", est_text("4294967296x4294967296")),
        ("n", est_int(0)),
    ]);
    assert_eq!(calculate_image_generation_compute_units(&body, ENDPOINT).unwrap(), 0);
    let huge = JsonValue::Number(JsonNumber { signed: None, unsigned: Some(u64::MAX) });
    let body = est_object(vec![("size", est_text("1x1")), ("n", huge)]);
    assert!(calculate_image_generation_compute_units(&body, ENDPOINT).is_err());
}

#[test]
fn image_sizes_are_signed_decimals() {
    assert_eq!(parse_image_size("512x512"), Some((512, 512)));
    assert_eq!(parse_image_size("+3x-4"), Some((3, -4)));
    assert_eq!(parse_image_size("007x08"), Some((7, 8)));
    assert_eq!(parse_image_size("3x"), None);
    assert_eq!(parse_image_size("3x4x5"), None);
    assert_eq!(parse_image_size("9223372036854775808x1"), None);
    let body = est_object(vec![("size", est_text("-2x3")), ("n", est_int(4))]);
    assert_eq!(calculate_image_generation_compute_units(&body, ENDPOINT).unwrap(), -24);
}

#[test]
fn requests_that_are_no_inference_cost_nothing() {
    let tokenizers = est_tokenizers(0, 0);
    for body in [
        JsonValue::Null,
        est_text("anything"),
        est_object(vec![("size", est_text("512x512")), ("n", est_int(2))]),
        est_object(vec![
            ("messages", JsonValue::Array(vec![est_message("a")])),
            ("max_tokens", est_int(100)),
        ]),
    ] {
        let r =
            calculate_compute_units(&body, RequestType::NonInference, &tokenizers, "none", "/health");
        assert_eq!(r.unwrap(), 0);
    }
}

#[test]
fn the_estimate_goes_by_the_kind_of_request() {
    let tokenizers = est_tokenizers(0, 0);
    let body = est_object(vec![
        ("messages", JsonValue::Array(vec![est_message("a b")])),
        ("max_tokens", est_int(10)),
        ("input", est_text("a b a")),
        ("size", est_text("2x3")),
        ("n", est_int(4)),
    ]);
    let chat = calculate_compute_units(&body, RequestType::ChatCompletions, &tokenizers, "llama", "/");
    assert_eq!(chat.unwrap(), 15);
    let embed = calculate_compute_units(&body, RequestType::Embeddings, &tokenizers, "llama", "/");
    assert_eq!(embed.unwrap(), 3);
    let image =
        calculate_compute_units(&body, RequestType::ImageGenerations, &tokenizers, "llama", "/");
    assert_eq!(image.unwrap(), 24);
}

/// A tokenizer that splits at white space, with the given truncation, padding and
/// post-processor.
fn est_configured_tokenizer(truncation: &str, padding: &str, post_processor: &str) -> Tokenizer {
    est_split_tokenizer(r#"{"type": "WhitespaceSplit"}"#, truncation, padding, post_processor)
}

/// A tokenizer with the given pre-tokenizer, truncation, padding and post-processor.
fn est_split_tokenizer(
    pre_tokenizer: &str,
    truncation: &str,
    padding: &str,
    post_processor: &str,
) -> Tokenizer {
    est_full_tokenizer("null", pre_tokenizer, truncation, padding, post_processor)
}

/// A tokenizer with the given normalizer, pre-tokenizer, truncation, padding and post-processor.
fn est_full_tokenizer(
    normalizer: &str,
    pre_tokenizer: &str,
    truncation: &str,
    padding: &str,
    post_processor: &str,
) -> Tokenizer {
    let json = format!(
        r#"{{
  "version": "1.0",
  "truncation": {truncation},
  "padding": {padding},
  "added_tokens": [],
  "normalizer": {normalizer},
  "pre_tokenizer": {pre_tokenizer},
  "post_processor": {post_processor},
  "decoder": null,
  "model": {{"type": "WordLevel", "vocab": {{"[UNK]": 0, "[PAD]": 1, "a": 2, "[CLS]": 3}}, "unk_token": "[UNK]"}}
}}"#
    );
    Tokenizer::from_bytes(json.as_bytes()).expect("the tokenizer is well formed")
}

fn est_truncation(max_length: usize, stride: usize, strategy: &str) -> String {
    format!(
        r#"{{"direction": "Right", "max_length": {max_length}, "strategy": "{strategy}", "stride": {stride}}}"#
    )
}

fn est_padding(strategy: &str, multiple: &str) -> String {
    format!(
        r#"{{"strategy": {strategy}, "direction": "Right", "pad_to_multiple_of": {multiple},
        "pad_id": 1, "pad_type_id": 0, "pad_token": "[PAD]"}}"#
    )
}

/// A template with the given pieces for one text and `[CLS]` as its only special token.
fn est_template(single: &str) -> String {
    format!(
        r#"{{"type": "TemplateProcessing", "single": [{single}],
        "pair": [{{"Sequence":{{"id":"A","type_id":0}}}}, {{"Sequence":{{"id":"B","type_id":1}}}}],
        "special_tokens": {{"[CLS]": {{"id": "[CLS]", "ids": [3], "tokens": ["[CLS]"]}}}}}}"#
    )
}

const PIECE_A: &str = r#"{"Sequence":{"id":"A","type_id":0}}"#;
const PIECE_B: &str = r#"{"Sequence":{"id":"B","type_id":0}}"#;
const PIECE_CLS: &str = r#"{"SpecialToken":{"id":"[CLS]","type_id":0}}"#;
const PIECE_SEP: &str = r#"{"SpecialToken":{"id":"[SEP]","type_id":0}}"#;

fn est_accepts(tokenizer: Tokenizer) -> Option<ModelTokenizers> {
    ModelTokenizers::new(vec!["llama".to_string()], vec![tokenizer])
}

fn est_count(tokenizers: &ModelTokenizers, text: &str) -> i64 {
    let body = est_object(vec![("input", est_text(text))]);
    calculate_embedding_compute_units(&body, tokenizers, "llama", ENDPOINT).unwrap()
}

#[test]
fn a_truncation_that_cannot_be_applied_is_refused() {
    // A stride that is not below the maximum length.
    assert!(est_accepts(est_configured_tokenizer(&est_truncation(2, 2, "LongestFirst"), "null", "null")).is_none());
    assert!(est_accepts(est_configured_tokenizer(&est_truncation(2, 3, "OnlyFirst"), "null", "null")).is_none());
    // A stride that is not below what the added token leaves of the maximum length.
    let template = est_template(&format!("{PIECE_CLS}, {PIECE_A}"));
    assert!(est_accepts(est_configured_tokenizer(&est_truncation(3, 2, "LongestFirst"), "null", &template)).is_none());
    // A maximum length below the number of added tokens.
    let template = est_template(&format!("{PIECE_CLS}, {PIECE_CLS}, {PIECE_A}"));
    assert!(est_accepts(est_configured_tokenizer(&est_truncation(1, 0, "LongestFirst"), "null", &template)).is_none());
}

#[test]
fn a_truncation_that_can_be_applied_cuts_the_count() {
    let tokenizers =
        est_accepts(est_configured_tokenizer(&est_truncation(3, 0, "LongestFirst"), "null", "null"))
            .unwrap();
    assert_eq!(est_count(&tokenizers, "a a a a a"), 3);
    assert_eq!(est_count(&tokenizers, "a a"), 2);
    let tokenizers =
        est_accepts(est_configured_tokenizer(&est_truncation(3, 2, "LongestFirst"), "null", "null"))
            .unwrap();
    assert_eq!(est_count(&tokenizers, "a a a a a"), 3);
    // With one added token, two tokens of the text are left.
    let template = est_template(&format!("{PIECE_CLS}, {PIECE_A}"));
    let tokenizers = est_accepts(est_configured_tokenizer(
        &est_truncation(3, 1, "LongestFirst"),
        "null",
        &template,
    ))
    .unwrap();
    assert_eq!(est_count(&tokenizers, "a a a a a"), 3);
    // Nothing is left of the maximum length: the text is cut away.
    let tokenizers = est_accepts(est_configured_tokenizer(
        &est_truncation(1, 5, "LongestFirst"),
        "null",
        &template,
    ))
    .unwrap();
    assert_eq!(est_count(&tokenizers, "a a a a a"), 1);
    let tokenizers =
        est_accepts(est_configured_tokenizer(&est_truncation(0, 0, "LongestFirst"), "null", "null"))
            .unwrap();
    assert_eq!(est_count(&tokenizers, "a a a a a"), 0);
}

#[test]
fn a_truncation_of_the_second_text_fails_on_a_long_text() {
    let tokenizers =
        est_accepts(est_configured_tokenizer(&est_truncation(2, 5, "OnlySecond"), "null", "null"))
            .unwrap();
    assert_eq!(est_count(&tokenizers, "a a"), 2);
    let body = est_object(vec![("input", est_text("a a a"))]);
    let r = calculate_embedding_compute_units(&body, &tokenizers, "llama", ENDPOINT);
    assert_eq!(r.unwrap_err().error_kind(), ErrorKind::InvalidBody);
    // In an array a text that cannot be measured counts as nothing.
    let body = est_object(vec![("input", JsonValue::Array(vec![est_text("a a a"), est_text("a")]))]);
    let r = calculate_embedding_compute_units(&body, &tokenizers, "llama", ENDPOINT);
    assert_eq!(r.unwrap(), 1);
}

#[test]
fn padding_counts() {
    let tokenizers = est_accepts(est_configured_tokenizer(
        "null",
        &est_padding(r#"{"Fixed": 16}"#, "null"),
        "null",
    ))
    .unwrap();
    assert_eq!(est_count(&tokenizers, "a a"), 16);
    let tokenizers =
        est_accepts(est_configured_tokenizer("null", &est_padding(r#""BatchLongest""#, "8"), "null"))
            .unwrap();
    assert_eq!(est_count(&tokenizers, "a a a"), 8);
    assert_eq!(est_count(&tokenizers, "a a a a a a a a a"), 16);
}

#[test]
fn a_padding_beyond_the_limit_is_refused() {
    for (strategy, multiple) in [
        (r#"{"Fixed": 16777217}"#, "null"),
        (r#"{"Fixed": 16}"#, "16777217"),
        (r#""BatchLongest""#, "18446744073709551615"),
        (r#"{"Fixed": 18446744073709551615}"#, "2"),
    ] {
        let tokenizer = est_configured_tokenizer("null", &est_padding(strategy, multiple), "null");
        assert!(est_accepts(tokenizer).is_none(), "padding {strategy} {multiple}");
    }
}

#[test]
fn a_template_that_cannot_be_applied_to_one_text_is_refused() {
    // The template for one text names the second text.
    let template = est_template(&format!("{PIECE_A}, {PIECE_B}"));
    assert!(est_accepts(est_configured_tokenizer("null", "null", &template)).is_none());
    // It names a special token that its map lacks.
    let template = est_template(&format!("{PIECE_A}, {PIECE_SEP}"));
    assert!(est_accepts(est_configured_tokenizer("null", "null", &template)).is_none());
    // A template follows a template.
    let template = est_template(&format!("{PIECE_CLS}, {PIECE_A}"));
    let sequence = format!(r#"{{"type": "Sequence", "processors": [{template}, {template}]}}"#);
    assert!(est_accepts(est_configured_tokenizer("null", "null", &sequence)).is_none());
    // One bad tokenizer among good ones.
    let bad = est_configured_tokenizer("null", "null", &est_template(PIECE_B));
    let set = ModelTokenizers::new(
        vec!["a".to_string(), "b".to_string()],
        vec![est_tokenizer(0, 0), bad],
    );
    assert!(set.is_none());
}

#[test]
fn post_processors_that_can_be_applied_are_kept() {
    let template = est_template(&format!("{PIECE_CLS}, {PIECE_A}, {PIECE_CLS}"));
    let tokenizers = est_accepts(est_configured_tokenizer("null", "null", &template)).unwrap();
    assert_eq!(est_count(&tokenizers, "a a"), 4);
    let bert = r#"{"type": "BertProcessing", "sep": ["[PAD]", 1], "cls": ["[CLS]", 3]}"#;
    let tokenizers = est_accepts(est_configured_tokenizer("null", "null", bert)).unwrap();
    assert_eq!(est_count(&tokenizers, "a a"), 4);
    let roberta = r#"{"type": "RobertaProcessing", "sep": ["[PAD]", 1], "cls": ["[CLS]", 3],
        "trim_offsets": true, "add_prefix_space": true}"#;
    let tokenizers = est_accepts(est_configured_tokenizer("null", "null", roberta)).unwrap();
    assert_eq!(est_count(&tokenizers, "a a"), 4);
    let byte_level =
        r#"{"type": "ByteLevel", "add_prefix_space": true, "trim_offsets": false, "use_regex": true}"#;
    let sequence =
        format!(r#"{{"type": "Sequence", "processors": [{byte_level}, {template}, {bert}]}}"#);
    let tokenizers = est_accepts(est_configured_tokenizer("null", "null", &sequence)).unwrap();
    assert!(est_count(&tokenizers, "a a") >= 4);
    let empty = r#"{"type": "Sequence", "processors": []}"#;
    let tokenizers = est_accepts(est_configured_tokenizer("null", "null", empty)).unwrap();
    assert_eq!(est_count(&tokenizers, "a a"), 2);
}

#[test]
fn a_pre_tokenizer_that_cuts_into_runs_of_no_length_is_refused() {
    let fixed = |length: usize| format!(r#"{{"type": "FixedLength", "length": {length}}}"#);
    let split = |form: &str| est_accepts(est_split_tokenizer(form, "null", "null", "null"));
    assert!(split(&fixed(0)).is_none());
    let sequence =
        format!(r#"{{"type": "Sequence", "pretokenizers": [{{"type": "WhitespaceSplit"}}, {}]}}"#, fixed(0));
    assert!(split(&sequence).is_none());
    let tokenizers = split(&fixed(1)).unwrap();
    assert_eq!(est_count(&tokenizers, "aaa"), 3);
    let sequence =
        format!(r#"{{"type": "Sequence", "pretokenizers": [{{"type": "WhitespaceSplit"}}, {}]}}"#, fixed(1));
    let tokenizers = split(&sequence).unwrap();
    assert_eq!(est_count(&tokenizers, "aa a"), 3);
    let tokenizers = split("null").unwrap();
    assert_eq!(est_count(&tokenizers, "a a"), 1);
    assert!(pre_tokenizer_is_fit(&JsonValue::Null));
    assert!(pre_tokenizer_is_fit(&est_object(vec![("type", est_text("Whitespace"))])));
    assert!(!pre_tokenizer_is_fit(&est_object(vec![("type", est_text("FixedLength"))])));
    assert!(!pre_tokenizer_is_fit(&est_object(vec![
        ("type", est_text("FixedLength")),
        ("length", est_int(0))
    ])));
    assert!(pre_tokenizer_is_fit(&est_object(vec![
        ("type", est_text("FixedLength")),
        ("length", est_int(5))
    ])));
    assert!(!pre_tokenizer_is_fit(&est_object(vec![("type", est_text("Sequence"))])));
    assert!(!pre_tokenizer_is_fit(&est_text("Whitespace")));
}

/// A table of the given units and texts, as a precompiled normalizer holds it.
fn est_table(units: &[u32], texts: &[u8]) -> Vec<u8> {
    let mut table = ((units.len() * 4) as u32).to_le_bytes().to_vec();
    for unit in units {
        table.extend_from_slice(&unit.to_le_bytes());
    }
    table.extend_from_slice(texts);
    table
}

/// A table that replaces `A` by `a`: the unit for `A` is a leaf with offset 1, and the unit
/// behind its step holds the place of the replacement.
fn est_units() -> Vec<u32> {
    let mut units = vec![0u32; 256];
    units[0x41] = 0x41 | 0x100 | (1 << 10);
    units[0x40] = 0x8000_0000;
    units
}

fn est_precompiled(table: &[u8]) -> String {
    let charsmap = base64::engine::general_purpose::STANDARD.encode(table);
    format!(r#"{{"type": "Precompiled", "precompiled_charsmap": "{charsmap}"}}"#)
}

#[test]
fn a_precompiled_normalizer_is_held_to_its_table() {
    let normalized = |form: &str| {
        est_accepts(est_full_tokenizer(form, r#"{"type": "WhitespaceSplit"}"#, "null", "null", "null"))
    };
    // A table of no units, which the walk of any text leaves at its first step.
    assert!(normalized(&est_precompiled(&est_table(&[], b""))).is_none());
    assert!(normalized(&est_precompiled(&est_table(&[0; 255], b""))).is_none());
    let bad = est_precompiled(&est_table(&[], b""));
    let sequence = format!(r#"{{"type": "Sequence", "normalizers": [{{"type": "Lowercase"}}, {bad}]}}"#);
    assert!(normalized(&sequence).is_none());
    // A table that replaces nothing, and one that replaces `A` by `a`.
    let tokenizers = normalized(&est_precompiled(&est_table(&[0; 256], b""))).unwrap();
    assert_eq!(est_count(&tokenizers, "A a"), 2);
    let good = est_precompiled(&est_table(&est_units(), b"a\0"));
    let tokenizers = normalized(&good).unwrap();
    assert_eq!(est_count(&tokenizers, "A a A"), 3);
    let sequence = format!(r#"{{"type": "Sequence", "normalizers": [{{"type": "NFC"}}, {good}]}}"#);
    let tokenizers = normalized(&sequence).unwrap();
    assert_eq!(est_count(&tokenizers, "A a A A"), 4);
    let tokenizers = normalized(r#"{"type": "Lowercase"}"#).unwrap();
    assert_eq!(est_count(&tokenizers, "A a"), 2);
    assert!(normalizer_is_fit(&JsonValue::Null));
    assert!(normalizer_is_fit(&est_object(vec![("type", est_text("NFC"))])));
    assert!(!normalizer_is_fit(&est_object(vec![("type", est_text("Precompiled"))])));
    assert!(!normalizer_is_fit(&est_object(vec![
        ("type", est_text("Precompiled")),
        ("precompiled_charsmap", est_text("not base64!"))
    ])));
    assert!(!normalizer_is_fit(&est_object(vec![("type", est_text("Sequence"))])));
    assert!(!normalizer_is_fit(&est_object(vec![
        ("type", est_text("Sequence")),
        ("normalizers", JsonValue::Array(vec![est_object(vec![("type", est_text("Sequence"))])]))
    ])));
}

#[test]
fn a_table_is_fit_where_no_walk_leaves_it() {
    assert!(table_is_fit(&est_table(&[0; 256], b"")));
    assert!(table_is_fit(&est_table(&[0; 512], b"abc")));
    assert!(table_is_fit(&est_table(&est_units(), b"a\0")));
    assert!(table_is_fit(&est_table(&est_units(), b"")));
    // Too short, not laid out, no units, no whole blocks.
    assert!(!table_is_fit(&vec![]));
    assert!(!table_is_fit(&vec![0, 0, 0]));
    assert!(!table_is_fit(&vec![0, 0, 0, 0]));
    assert!(!table_is_fit(&vec![0, 4, 0, 0, 1, 2, 3]));
    assert!(!table_is_fit(&est_table(&[0; 255], b"")));
    assert!(!table_is_fit(&est_table(&[0; 257], b"")));
    // The first step starts beyond the table.
    let mut units = vec![0u32; 256];
    units[0] = 256 << 10;
    assert!(!table_is_fit(&est_table(&units, b"")));
    units[0] = 255 << 10;
    assert!(table_is_fit(&est_table(&units, b"")));
    // A step leaves the table.
    let mut units = est_units();
    units[0x41] = 0x41 | (1 << 9) | (1 << 10);
    assert!(!table_is_fit(&est_table(&units, b"a\0")));
    // A replacement begins beyond the texts, or inside a character.
    let mut units = est_units();
    units[0x40] = 0x8000_0003;
    assert!(!table_is_fit(&est_table(&units, b"a\0")));
    units[0x40] = 0x8000_0002;
    assert!(table_is_fit(&est_table(&units, b"a\0")));
    units[0x40] = 0x8000_0001;
    assert!(!table_is_fit(&est_table(&units, "\u{e9}".as_bytes())));
    // A unit without a leaf names no replacement.
    units[0x41] = 0x41 | (1 << 10);
    assert!(table_is_fit(&est_table(&units, "\u{e9}".as_bytes())));
}

#[test]
fn fitness_is_decided_from_plain_values() {
    let some = |max_length, stride, second_only| Some(Truncation { max_length, stride, second_only });
    assert!(truncation_is_fit(None, 7));
    assert!(truncation_is_fit(some(512, 0, false), 2));
    assert!(truncation_is_fit(some(3, 2, false), 0));
    assert!(!truncation_is_fit(some(3, 3, false), 0));
    assert!(!truncation_is_fit(some(3, 2, false), 1));
    assert!(truncation_is_fit(some(3, 1, false), 1));
    assert!(truncation_is_fit(some(2, 9, false), 2));
    assert!(!truncation_is_fit(some(1, 0, false), 2));
    assert!(truncation_is_fit(some(2, 9, true), 1));
    assert!(!truncation_is_fit(some(1, 0, true), 2));
    assert!(truncation_is_fit(some(0, 0, false), 0));
    assert!(padding_is_fit(None));
    assert!(padding_is_fit(Some(Padding { fixed: None, multiple: None })));
    assert!(padding_is_fit(Some(Padding { fixed: Some(MAX_PADDING), multiple: Some(MAX_PADDING) })));
    assert!(!padding_is_fit(Some(Padding { fixed: Some(MAX_PADDING + 1), multiple: None })));
    assert!(!padding_is_fit(Some(Padding { fixed: None, multiple: Some(MAX_PADDING + 1) })));
    assert!(post_processor_is_fit(&JsonValue::Null));
    assert!(!post_processor_is_fit(&est_text("ByteLevel")));
    assert!(!post_processor_is_fit(&est_object(vec![("type", est_text("Unknown"))])));
    assert!(post_processor_is_fit(&est_object(vec![("type", est_text("ByteLevel"))])));
    let piece_a = || est_object(vec![("Sequence", est_object(vec![("id", est_text("A"))]))]);
    let piece_b = || est_object(vec![("Sequence", est_object(vec![("id", est_text("B"))]))]);
    let piece_t = || est_object(vec![("SpecialToken", est_object(vec![("id", est_text("t"))]))]);
    let entry = |ids: usize, tokens: usize| {
        est_object(vec![
            ("ids", JsonValue::Array((0..ids).map(|i| est_int(i as i64)).collect())),
            ("tokens", JsonValue::Array((0..tokens).map(|_| est_text("t")).collect())),
        ])
    };
    let template = |pieces: Vec<JsonValue>, map: JsonValue| {
        est_object(vec![
            ("type", est_text("TemplateProcessing")),
            ("single", JsonValue::Array(pieces)),
            ("special_tokens", map),
        ])
    };
    let map = || est_object(vec![("t", entry(2, 2))]);
    assert!(post_processor_is_fit(&template(vec![], map())));
    assert!(post_processor_is_fit(&template(vec![piece_t(), piece_a()], map())));
    assert!(!post_processor_is_fit(&template(vec![piece_a(), piece_b()], map())));
    assert!(!post_processor_is_fit(&template(vec![piece_t()], est_object(vec![]))));
    assert!(!post_processor_is_fit(&template(
        vec![piece_t()],
        est_object(vec![("t", entry(2, 1))])
    )));
    assert!(!post_processor_is_fit(&template(vec![JsonValue::Null], map())));
    let sequence = |steps: Vec<JsonValue>| {
        est_object(vec![("type", est_text("Sequence")), ("processors", JsonValue::Array(steps))])
    };
    let byte_level = || est_object(vec![("type", est_text("ByteLevel"))]);
    assert!(post_processor_is_fit(&sequence(vec![])));
    assert!(post_processor_is_fit(&sequence(vec![
        byte_level(),
        template(vec![piece_a()], map()),
        byte_level()
    ])));
    assert!(!post_processor_is_fit(&sequence(vec![
        template(vec![piece_a()], map()),
        template(vec![piece_a()], map())
    ])));
    assert!(!post_processor_is_fit(&sequence(vec![sequence(vec![])])));
    assert!(!post_processor_is_fit(&sequence(vec![JsonValue::Null])));
}

#[test]
fn tokenizers_keep_their_order() {
    let tokenizers = ModelTokenizers::new(
        vec!["plain".to_string(), "marked".to_string(), "framed".to_string()],
        vec![est_tokenizer(0, 0), est_tokenizer(1, 0), est_tokenizer(1, 1)],
    )
    .unwrap();
    assert_eq!(tokenizers.position("plain"), Some(0));
    assert_eq!(tokenizers.position("framed"), Some(2));
    let body = est_object(vec![("input", est_text("a"))]);
    for (model, units) in [("plain", 1), ("marked", 2), ("framed", 3)] {
        let r = calculate_embedding_compute_units(&body, &tokenizers, model, ENDPOINT);
        assert_eq!(r.unwrap(), units, "model {model}");
    }
}
