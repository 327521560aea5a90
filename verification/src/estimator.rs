//! The cost of a request in compute units.
//!
//! A chat completion costs the tokens of each message's content, three
//! tokens of margin per message (two for its delimiters, one for its role)
//! and the tokens that the caller allows for the answer. An embedding costs
//! the tokens of its input. An image generation costs its pixels: width
//! times height times the number of images. Any other request costs
//! nothing.
//!
//! What a tokenizer counts for a text is not fixed by the text alone, so
//! the estimators that count tokens come in two layers: functions from
//! measured counts to units, which are exact, and functions that read the
//! body, measure and apply the first layer.

use crate::error::{ErrorKind, ServiceError};
use crate::json::JsonValue;
use crate::metadata::RequestType;
use crate::text::{
    digits_of, first_index_of, has_sign, is_digit, lemma_first_index_of, parse_i64, parse_i64_spec,
    split_once_ascii, split_once_spec,
};
use crate::tokenizer::ModelTokenizers;
use vstd::prelude::*;
use vstd::utf8::is_ascii_chars;

verus! {

/// The member that names the model.
pub const MODEL: &'static str = "model";

/// The member that bounds the answer of a chat completion.
pub const MAX_TOKENS: &'static str = "max_tokens";

/// The member that holds the messages of a chat completion.
pub const MESSAGES: &'static str = "messages";

/// The member of a message that holds its text.
pub const CONTENT: &'static str = "content";

/// The member that holds the input of an embedding.
pub const INPUT: &'static str = "input";

/// The member that holds the size of the images.
pub const IMAGE_SIZE: &'static str = "size";

/// The member that holds the number of images.
pub const IMAGE_N: &'static str = "n";

/// Tokens added to each message: two for its delimiters, one for its role.
pub const MESSAGE_MARGIN: usize = 3;

/// Every text was measured.
pub open spec fn all_counted(counts: Seq<Option<usize>>) -> bool {
    forall|i: int| 0 <= i < counts.len() ==> #[trigger] counts[i] is Some
}

/// The sum of the measured counts, each with `margin` added; a text that
/// was not measured adds nothing.
pub open spec fn token_sum(counts: Seq<Option<usize>>, margin: int) -> int
    decreases counts.len(),
{
    if counts.len() == 0 {
        0
    } else {
        token_sum(counts.drop_last(), margin) + match counts.last() {
            Some(n) => n + margin,
            None => 0,
        }
    }
}

/// The units of a chat completion whose message contents measured
/// `counts`: the sum of the counts, three more per message, and
/// `max_tokens`. `None` where a content could not be measured or the units
/// do not fit 64 bits.
pub open spec fn chat_units(counts: Seq<Option<usize>>, max_tokens: i64) -> Option<i64> {
    let total = token_sum(counts, 3) + max_tokens;
    if all_counted(counts) && i64::MIN <= total <= i64::MAX {
        Some(total as i64)
    } else {
        None
    }
}

/// The units of an embedding whose input is one text that measured
/// `count`. `None` where it could not be measured or the units do not fit
/// 64 bits.
pub open spec fn embedding_units(count: Option<usize>) -> Option<i64> {
    match count {
        Some(n) => if n <= i64::MAX {
            Some(n as i64)
        } else {
            None
        },
        None => None,
    }
}

/// The units of an embedding whose input is an array of which the items
/// measured `counts`: the sum of the counts, an item that is no text or
/// could not be measured counting as nothing. `None` where the units do
/// not fit 64 bits.
pub open spec fn embedding_batch_units(counts: Seq<Option<usize>>) -> Option<i64> {
    let total = token_sum(counts, 0);
    if total <= i64::MAX {
        Some(total as i64)
    } else {
        None
    }
}

/// The text of a message: its member `content`, which is a string.
pub open spec fn message_content(message: JsonValue) -> Option<Seq<char>> {
    match message.field(CONTENT@) {
        Some(content) => content.text(),
        None => None,
    }
}

/// The messages of a chat completion: the member `messages`, which is an
/// array.
pub open spec fn chat_messages(body: JsonValue) -> Option<Seq<JsonValue>> {
    match body.field(MESSAGES@) {
        Some(messages) => messages.items(),
        None => None,
    }
}

/// The contents of the messages of a chat completion, in order. `None`
/// unless `messages` is an array of which every item has a string
/// `content`.
pub open spec fn chat_contents(body: JsonValue) -> Option<Seq<Seq<char>>> {
    match chat_messages(body) {
        Some(messages) => if forall|i: int|
            0 <= i < messages.len() ==> message_content(#[trigger] messages[i]) is Some {
            Some(Seq::new(messages.len(), |i: int| message_content(messages[i]).unwrap()))
        } else {
            None
        },
        None => None,
    }
}

/// The member `max_tokens` as a signed integer.
pub open spec fn chat_max_tokens(body: JsonValue) -> Option<i64> {
    match body.field(MAX_TOKENS@) {
        Some(value) => value.signed(),
        None => None,
    }
}

/// Width and height of a size written as `<width>x<height>`: what stands
/// before the first `x` and what stands after it, each a signed decimal
/// integer of 64 bits.
pub open spec fn image_dimensions(size: Seq<char>) -> Option<(i64, i64)> {
    match split_once_spec(size, 'x') {
        Some((width, height)) => match (parse_i64_spec(width), parse_i64_spec(height)) {
            (Some(w), Some(h)) => Some((w, h)),
            _ => None,
        },
        None => None,
    }
}

/// The member `size` as text.
pub open spec fn image_size(body: JsonValue) -> Option<Seq<char>> {
    match body.field(IMAGE_SIZE@) {
        Some(size) => size.text(),
        None => None,
    }
}

/// The member `n` as an unsigned integer.
pub open spec fn image_count(body: JsonValue) -> Option<u64> {
    match body.field(IMAGE_N@) {
        Some(n) => n.unsigned(),
        None => None,
    }
}

/// The units of an image generation: width times height times the number
/// of images. `None` where `size` or `n` is missing or malformed, or the
/// product does not fit 64 bits.
pub open spec fn image_units(body: JsonValue) -> Option<i64> {
    match image_size(body) {
        Some(size) => match image_dimensions(size) {
            Some((width, height)) => match image_count(body) {
                Some(n) => if i64::MIN <= width * height * n <= i64::MAX {
                    Some((width * height * n) as i64)
                } else {
                    None
                },
                None => None,
            },
            None => None,
        },
        None => None,
    }
}

/// `r` rejects a body sent to `endpoint`.
pub open spec fn rejects_body(r: Result<i64, ServiceError>, endpoint: Seq<char>) -> bool {
    r matches Err(e) && e.kind() == ErrorKind::InvalidBody && e.endpoint() == endpoint
}

/// `r` is the estimate `units`, or a rejection of the body where there is
/// none.
pub open spec fn agrees(r: Result<i64, ServiceError>, units: Option<i64>, endpoint: Seq<char>) -> bool {
    match units {
        Some(units) => r matches Ok(v) && v == units,
        None => rejects_body(r, endpoint),
    }
}

/// `counts` is a measurement of `texts`: one count for each text, and none
/// where there is no text.
pub open spec fn measures(texts: Seq<Option<Seq<char>>>, counts: Seq<Option<usize>>) -> bool {
    &&& counts.len() == texts.len()
    &&& forall|i: int| 0 <= i < texts.len() && texts[i] is None ==> #[trigger] counts[i] is None
}

/// The texts that the estimate of a chat completion measures: the contents
/// of its messages, and nothing where the messages are malformed.
pub open spec fn chat_texts(body: JsonValue) -> Seq<Option<Seq<char>>> {
    match chat_contents(body) {
        Some(contents) => Seq::new(contents.len(), |i: int| Some(contents[i])),
        None => Seq::empty(),
    }
}

/// The units of a chat completion of which the message contents measured
/// `counts`. `None` where the node does not serve the model, a message has
/// no string content, `max_tokens` is no signed integer, a content could
/// not be measured or the units do not fit 64 bits.
pub open spec fn chat_units_of(body: JsonValue, supported: bool, counts: Seq<Option<usize>>) -> Option<i64> {
    if supported && chat_contents(body) is Some && chat_max_tokens(body) is Some && counts.len()
        == chat_contents(body).unwrap().len() {
        chat_units(counts, chat_max_tokens(body).unwrap())
    } else {
        None
    }
}

/// The texts that the estimate of an embedding measures: its input where
/// that is a string, each item of its input where that is an array (an
/// item that is no string is no text), and nothing otherwise.
pub open spec fn embedding_texts(body: JsonValue) -> Seq<Option<Seq<char>>> {
    match body.field(INPUT@) {
        Some(JsonValue::String(text)) => seq![Some(text@)],
        Some(JsonValue::Array(items)) => Seq::new(items@.len(), |i: int| items@[i].text()),
        _ => Seq::empty(),
    }
}

/// The units of an embedding of which the input measured `counts`. `None`
/// where the node does not serve the model, `input` is neither a string nor
/// an array, the string could not be measured or the units do not fit 64
/// bits.
pub open spec fn embedding_units_of(body: JsonValue, supported: bool, counts: Seq<Option<usize>>) -> Option<i64> {
    if !supported {
        None
    } else {
        match body.field(INPUT@) {
            Some(JsonValue::String(_)) => if counts.len() == 1 {
                embedding_units(counts[0])
            } else {
                None
            },
            Some(JsonValue::Array(items)) => if counts.len() == items@.len() {
                embedding_batch_units(counts)
            } else {
                None
            },
            _ => None,
        }
    }
}

/// The estimate of a chat completion is what some measurement of its
/// message contents gives.
pub open spec fn chat_estimate(
    body: JsonValue,
    tokenizers: ModelTokenizers,
    model: Seq<char>,
    endpoint: Seq<char>,
    r: Result<i64, ServiceError>,
) -> bool {
    exists|counts: Seq<Option<usize>>|
        measures(chat_texts(body), counts) && agrees(
            r,
            #[trigger] chat_units_of(body, tokenizers.supports(model), counts),
            endpoint,
        )
}

/// The estimate of an embedding is what some measurement of its input
/// gives.
pub open spec fn embedding_estimate(
    body: JsonValue,
    tokenizers: ModelTokenizers,
    model: Seq<char>,
    endpoint: Seq<char>,
    r: Result<i64, ServiceError>,
) -> bool {
    exists|counts: Seq<Option<usize>>|
        measures(embedding_texts(body), counts) && agrees(
            r,
            #[trigger] embedding_units_of(body, tokenizers.supports(model), counts),
            endpoint,
        )
}

/// The estimate of a request of each kind.
pub open spec fn estimate(
    body: JsonValue,
    request_type: RequestType,
    tokenizers: ModelTokenizers,
    model: Seq<char>,
    endpoint: Seq<char>,
    r: Result<i64, ServiceError>,
) -> bool {
    match request_type {
        RequestType::ChatCompletions => chat_estimate(body, tokenizers, model, endpoint, r),
        RequestType::Embeddings => embedding_estimate(body, tokenizers, model, endpoint, r),
        RequestType::ImageGenerations => agrees(r, image_units(body), endpoint),
        RequestType::NonInference => agrees(r, Some(0i64), endpoint),
    }
}

/// A sum of counts is not negative and not less than the sum of any run
/// that the counts begin with.
proof fn lemma_token_sum_prefix(counts: Seq<Option<usize>>, margin: int, n: int)
    requires
        0 <= margin,
        0 <= n <= counts.len(),
    ensures
        0 <= token_sum(counts.take(n), margin) <= token_sum(counts, margin),
    decreases counts.len(),
{
    if counts.len() == 0 {
        assert(counts.take(n) =~= counts);
    } else if n == counts.len() {
        assert(counts.take(n) =~= counts);
        lemma_token_sum_prefix(counts.drop_last(), margin, n - 1);
    } else {
        assert(counts.drop_last().take(n) =~= counts.take(n));
        lemma_token_sum_prefix(counts.drop_last(), margin, n);
    }
}

/// Where every text was measured, the sum with a margin is the sum of the
/// counts and one margin for each text.
pub proof fn lemma_token_sum_margin(counts: Seq<Option<usize>>, margin: int)
    requires
        all_counted(counts),
    ensures
        token_sum(counts, margin) == token_sum(counts, 0) + margin * counts.len(),
    decreases counts.len(),
{
    if counts.len() > 0 {
        let shorter = counts.drop_last();
        assert forall|i: int| 0 <= i < shorter.len() implies #[trigger] shorter[i] is Some by {
            assert(counts[i] is Some);
        }
        lemma_token_sum_margin(shorter, margin);
        assert(counts.last() is Some);
        assert(margin * counts.len() == margin * shorter.len() + margin) by (nonlinear_arith)
            requires
                counts.len() == shorter.len() + 1,
        ;
    }
}

/// The estimate of a well-formed chat completion for a model that the node
/// serves is the sum of the tokens of its message contents, three tokens
/// more for each message, and `max_tokens`, where that fits 64 bits.
pub proof fn lemma_chat_estimate_formula(body: JsonValue, counts: Seq<Option<usize>>)
    requires
        chat_contents(body) matches Some(contents) && counts.len() == contents.len(),
        chat_max_tokens(body) is Some,
        all_counted(counts),
        i64::MIN <= token_sum(counts, 0) + 3 * counts.len() + chat_max_tokens(body).unwrap()
            <= i64::MAX,
    ensures
        chat_units_of(body, true, counts) == Some(
            (token_sum(counts, 0) + 3 * counts.len() + chat_max_tokens(body).unwrap()) as i64,
        ),
{
    lemma_token_sum_margin(counts, 3);
}

/// A request that is no inference is estimated at nothing, whatever its
/// body, its model and the tokenizers.
pub proof fn lemma_non_inference_costs_nothing(
    body: JsonValue,
    tokenizers: ModelTokenizers,
    model: Seq<char>,
    endpoint: Seq<char>,
    r: Result<i64, ServiceError>,
)
    requires
        estimate(body, RequestType::NonInference, tokenizers, model, endpoint, r),
    ensures
        r matches Ok(units) && units == 0,
{
}

/// Two to the power of 64: a sum of counts beyond it fits no estimate.
pub open spec fn sum_cap() -> int {
    0x1_0000_0000_0000_0000
}

/// Adds up the counts, each with `margin`. `None` where the sum is beyond
/// two to the power of 64.
fn sum_counts(counts: &Vec<Option<usize>>, margin: usize) -> (r: Option<i128>)
    requires
        margin <= 3,
    ensures
        match r {
            Some(sum) => sum == token_sum(counts@, margin as int) && 0 <= sum <= sum_cap(),
            None => token_sum(counts@, margin as int) > sum_cap(),
        },
{
    let cap: i128 = 0x1_0000_0000_0000_0000;
    let mut sum: i128 = 0;
    let mut i: usize = 0;
    assert(counts@.take(0) =~= Seq::<Option<usize>>::empty());
    while i < counts.len()
        invariant
            0 <= i <= counts.len(),
            margin <= 3,
            cap == sum_cap(),
            sum == token_sum(counts@.take(i as int), margin as int),
            0 <= sum <= cap,
        decreases counts.len() - i,
    {
        let ghost longer = counts@.take(i + 1);
        assert(longer.drop_last() =~= counts@.take(i as int));
        assert(longer.last() == counts@[i as int]);
        let next: i128 = match counts[i] {
            Some(n) => sum + n as i128 + margin as i128,
            None => sum,
        };
        assert(next == token_sum(longer, margin as int));
        if next > cap {
            proof {
                lemma_token_sum_prefix(counts@, margin as int, i + 1);
            }
            return None;
        }
        sum = next;
        i = i + 1;
    }
    assert(counts@.take(i as int) =~= counts@);
    Some(sum)
}

/// Whether every text was measured.
fn every_counted(counts: &Vec<Option<usize>>) -> (r: bool)
    ensures
        r == all_counted(counts@),
{
    let mut i: usize = 0;
    while i < counts.len()
        invariant
            0 <= i <= counts.len(),
            forall|j: int| 0 <= j < i ==> #[trigger] counts@[j] is Some,
        decreases counts.len() - i,
    {
        if counts[i].is_none() {
            return false;
        }
        i = i + 1;
    }
    true
}

/// The units of a chat completion whose message contents measured
/// `counts`.
pub fn chat_completion_units(counts: &Vec<Option<usize>>, max_tokens: i64) -> (r: Option<i64>)
    ensures
        r == chat_units(counts@, max_tokens),
{
    if !every_counted(counts) {
        return None;
    }
    match sum_counts(counts, MESSAGE_MARGIN) {
        Some(sum) => {
            let total: i128 = sum + max_tokens as i128;
            if total > i64::MAX as i128 {
                None
            } else {
                Some(total as i64)
            }
        },
        None => None,
    }
}

/// The units of an embedding whose input is one text that measured
/// `count`.
pub fn embedding_single_units(count: Option<usize>) -> (r: Option<i64>)
    ensures
        r == embedding_units(count),
{
    match count {
        Some(n) => if n as u64 <= i64::MAX as u64 {
            Some(n as i64)
        } else {
            None
        },
        None => None,
    }
}

/// The units of an embedding whose input is an array of which the items
/// measured `counts`.
pub fn embedding_array_units(counts: &Vec<Option<usize>>) -> (r: Option<i64>)
    ensures
        r == embedding_batch_units(counts@),
{
    match sum_counts(counts, 0) {
        Some(sum) => if sum > i64::MAX as i128 {
            None
        } else {
            Some(sum as i64)
        },
        None => None,
    }
}

/// A rejection of the body.
fn invalid_body(message: &str, endpoint: &str) -> (r: Result<i64, ServiceError>)
    ensures
        rejects_body(r, endpoint@),
        r matches Err(e) && e.detail() == message@,
{
    Err(ServiceError::new(ErrorKind::InvalidBody, message, endpoint))
}

/// The texts of a run of strings.
pub open spec fn texts_of(strings: Seq<&str>) -> Seq<Seq<char>> {
    Seq::new(strings.len(), |i: int| strings[i]@)
}

/// Reads the contents of the messages of a chat completion.
pub fn chat_message_contents<'a>(body: &'a JsonValue, endpoint: &str) -> (r: Result<
    Vec<&'a str>,
    ServiceError,
>)
    ensures
        match r {
            Ok(contents) => chat_contents(*body) == Some(texts_of(contents@)),
            Err(e) => {
                &&& chat_contents(*body) is None
                &&& e.kind() == ErrorKind::InvalidBody
                &&& e.endpoint() == endpoint@
            },
        },
{
    let messages = match body.get(MESSAGES) {
        Some(messages) => match messages.as_array() {
            Some(messages) => messages,
            None => {
                return Err(
                    ServiceError::new(ErrorKind::InvalidBody, "Messages is not an array", endpoint),
                );
            },
        },
        None => {
            return Err(
                ServiceError::new(ErrorKind::InvalidBody, "Messages not found in body", endpoint),
            );
        },
    };
    let mut contents: Vec<&str> = Vec::new();
    let mut i: usize = 0;
    while i < messages.len()
        invariant
            0 <= i <= messages.len(),
            chat_messages(*body) == Some(messages@),
            contents@.len() == i,
            forall|j: int| 0 <= j < i ==> message_content(#[trigger] messages@[j]) == Some(contents@[j]@),
        decreases messages.len() - i,
    {
        let content = match messages[i].get(CONTENT) {
            Some(content) => match content.as_str() {
                Some(content) => content,
                None => {
                    assert(message_content(messages@[i as int]) is None);
                    return Err(
                        ServiceError::new(
                            ErrorKind::InvalidBody,
                            "Message content is not a string",
                            endpoint,
                        ),
                    );
                },
            },
            None => {
                assert(message_content(messages@[i as int]) is None);
                return Err(
                    ServiceError::new(ErrorKind::InvalidBody, "Message content not found", endpoint),
                );
            },
        };
        contents.push(content);
        i = i + 1;
    }
    assert(chat_contents(*body).unwrap() =~= texts_of(contents@));
    Ok(contents)
}

/// Measures each text with the tokenizer at `index`.
fn count_each(tokenizers: &ModelTokenizers, index: usize, texts: &Vec<&str>) -> (counts: Vec<
    Option<usize>,
>)
    requires
        index < tokenizers.names().len(),
    ensures
        counts@.len() == texts@.len(),
{
    let mut counts: Vec<Option<usize>> = Vec::new();
    let mut i: usize = 0;
    while i < texts.len()
        invariant
            0 <= i <= texts.len(),
            counts@.len() == i,
            index < tokenizers.names().len(),
        decreases texts.len() - i,
    {
        counts.push(tokenizers.count(index, texts[i]));
        i = i + 1;
    }
    counts
}

/// The estimate of a chat completion of which the message contents
/// measured `counts`; `supported` says whether the node serves the model.
pub fn chat_estimate_from_counts(
    body: &JsonValue,
    supported: bool,
    counts: &Vec<Option<usize>>,
    endpoint: &str,
) -> (r: Result<i64, ServiceError>)
    ensures
        agrees(r, chat_units_of(*body, supported, counts@), endpoint@),
{
    if !supported {
        return invalid_body("Model not supported", endpoint);
    }
    let contents = match chat_message_contents(body, endpoint) {
        Ok(contents) => contents,
        Err(e) => { return Err(e); },
    };
    let max_tokens = match body.get(MAX_TOKENS) {
        Some(value) => match value.as_i64() {
            Some(max_tokens) => max_tokens,
            None => { return invalid_body("Max tokens not found in body", endpoint); },
        },
        None => { return invalid_body("Max tokens not found in body", endpoint); },
    };
    if counts.len() != contents.len() {
        return invalid_body("Failed to encode message content", endpoint);
    }
    match chat_completion_units(counts, max_tokens) {
        Some(units) => Ok(units),
        None => invalid_body("Failed to encode message content", endpoint),
    }
}

/// Estimates a chat completion: measures the content of each message with
/// the tokenizer of `model` and applies `chat_estimate_from_counts`.
pub fn calculate_chat_completion_compute_units(
    body: &JsonValue,
    tokenizers: &ModelTokenizers,
    model: &str,
    endpoint: &str,
) -> (r: Result<i64, ServiceError>)
    ensures
        chat_estimate(*body, *tokenizers, model@, endpoint@, r),
{
    let index = tokenizers.position(model);
    let counts = match index {
        Some(index) => match chat_message_contents(body, endpoint) {
            Ok(contents) => count_each(tokenizers, index, &contents),
            Err(_) => Vec::new(),
        },
        None => Vec::new(),
    };
    let r = chat_estimate_from_counts(body, index.is_some(), &counts, endpoint);
    proof {
        let supported = tokenizers.supports(model@);
        let witness = if supported {
            counts@
        } else {
            Seq::new(chat_texts(*body).len(), |i: int| None::<usize>)
        };
        assert(measures(chat_texts(*body), witness));
        assert(chat_units_of(*body, supported, witness) == chat_units_of(
            *body,
            supported,
            counts@,
        ));
    }
    r
}

/// The estimate of an embedding of which the input measured `counts`;
/// `supported` says whether the node serves the model.
pub fn embedding_estimate_from_counts(
    body: &JsonValue,
    supported: bool,
    counts: &Vec<Option<usize>>,
    endpoint: &str,
) -> (r: Result<i64, ServiceError>)
    ensures
        agrees(r, embedding_units_of(*body, supported, counts@), endpoint@),
{
    if !supported {
        return invalid_body("Model not supported", endpoint);
    }
    let input = match body.get(INPUT) {
        Some(input) => input,
        None => { return invalid_body("Input not found in body", endpoint); },
    };
    let units = match input {
        JsonValue::String(_) => if counts.len() == 1 {
            embedding_single_units(counts[0])
        } else {
            None
        },
        JsonValue::Array(items) => if counts.len() == items.len() {
            embedding_array_units(counts)
        } else {
            None
        },
        _ => { return invalid_body("Invalid input format", endpoint); },
    };
    match units {
        Some(units) => Ok(units),
        None => invalid_body("Failed to encode input text", endpoint),
    }
}

/// Measures the input of an embedding with the tokenizer at `index`.
fn count_input(body: &JsonValue, tokenizers: &ModelTokenizers, index: usize) -> (counts: Vec<
    Option<usize>,
>)
    requires
        index < tokenizers.names().len(),
    ensures
        measures(embedding_texts(*body), counts@),
{
    let mut counts: Vec<Option<usize>> = Vec::new();
    match body.get(INPUT) {
        Some(JsonValue::String(text)) => {
            counts.push(tokenizers.count(index, text.as_str()));
        },
        Some(JsonValue::Array(items)) => {
            let mut i: usize = 0;
            while i < items.len()
                invariant
                    0 <= i <= items.len(),
                    counts@.len() == i,
                    index < tokenizers.names().len(),
                    forall|j: int|
                        0 <= j < i && items@[j].text() is None ==> #[trigger] counts@[j] is None,
                decreases items.len() - i,
            {
                let count = match items[i].as_str() {
                    Some(text) => tokenizers.count(index, text),
                    None => None,
                };
                counts.push(count);
                i = i + 1;
            }
        },
        _ => {},
    }
    counts
}

/// Estimates an embedding: measures the input with the tokenizer of
/// `model`, one string or each string of an array, and applies
/// `embedding_estimate_from_counts`.
pub fn calculate_embedding_compute_units(
    body: &JsonValue,
    tokenizers: &ModelTokenizers,
    model: &str,
    endpoint: &str,
) -> (r: Result<i64, ServiceError>)
    ensures
        embedding_estimate(*body, *tokenizers, model@, endpoint@, r),
{
    let index = tokenizers.position(model);
    let counts = match index {
        Some(index) => count_input(body, tokenizers, index),
        None => Vec::new(),
    };
    let r = embedding_estimate_from_counts(body, index.is_some(), &counts, endpoint);
    proof {
        let supported = tokenizers.supports(model@);
        let witness = if supported {
            counts@
        } else {
            Seq::new(embedding_texts(*body).len(), |i: int| None::<usize>)
        };
        assert(measures(embedding_texts(*body), witness));
        assert(embedding_units_of(*body, supported, witness) == embedding_units_of(
            *body,
            supported,
            counts@,
        ));
    }
    r
}

/// A text that writes a signed decimal integer is ASCII.
proof fn lemma_parsed_is_ascii(text: Seq<char>)
    requires
        parse_i64_spec(text) is Some,
    ensures
        is_ascii_chars(text),
{
    let digits = digits_of(text);
    assert forall|i: int| 0 <= i < text.len() implies '\0' <= #[trigger] text[i] <= '\u{7f}' by {
        if has_sign(text) {
            if i > 0 {
                assert(is_digit(digits[i - 1]));
            }
        } else {
            assert(is_digit(digits[i]));
        }
    }
}

/// Reads a size written as `<width>x<height>`.
pub fn parse_image_size(size: &str) -> (r: Option<(i64, i64)>)
    ensures
        r == image_dimensions(size@),
{
    if !size.is_ascii() {
        proof {
            if image_dimensions(size@) is Some {
                let k = first_index_of(size@, 'x');
                lemma_first_index_of(size@, 'x');
                let width = size@.take(k);
                let height = size@.skip(k + 1);
                lemma_parsed_is_ascii(width);
                lemma_parsed_is_ascii(height);
                assert forall|i: int| 0 <= i < size@.len() implies '\0' <= #[trigger] size@[i]
                    <= '\u{7f}' by {
                    if i < k {
                        assert(width[i] == size@[i]);
                    } else if i > k {
                        assert(height[i - k - 1] == size@[i]);
                    }
                }
            }
        }
        return None;
    }
    match split_once_ascii(size, 120u8) {
        Some((width, height)) => {
            assert(120u8 as char == 'x');
            match parse_i64(width) {
                Some(w) => match parse_i64(height) {
                    Some(h) => Some((w, h)),
                    None => None,
                },
                None => None,
            }
        },
        None => {
            assert(120u8 as char == 'x');
            None
        },
    }
}

/// Width times height times the number of images, where it fits 64 bits.
fn pixel_product(width: i64, height: i64, n: u64) -> (r: Option<i64>)
    ensures
        match r {
            Some(p) => p == width * height * n,
            None => !(i64::MIN <= width * height * n <= i64::MAX),
        },
{
    let bound: i128 = 0x8000_0000_0000_0000;
    assert(-0x4000_0000_0000_0000_0000_0000_0000_0000 <= width * height
        <= 0x4000_0000_0000_0000_0000_0000_0000_0000) by (nonlinear_arith)
        requires
            -0x8000_0000_0000_0000 <= width <= 0x8000_0000_0000_0000,
            -0x8000_0000_0000_0000 <= height <= 0x8000_0000_0000_0000,
    ;
    let area: i128 = (width as i128) * (height as i128);
    if n == 0 {
        assert(area * 0 == 0);
        return Some(0);
    }
    if area > bound || area < -bound {
        assert(!(i64::MIN <= area * n <= i64::MAX)) by (nonlinear_arith)
            requires
                area > 0x8000_0000_0000_0000 || area < -0x8000_0000_0000_0000,
                n >= 1,
        ;
        return None;
    }
    assert(-0x8000_0000_0000_0000_0000_0000_0000_0000 < area * n
        < 0x8000_0000_0000_0000_0000_0000_0000_0000) by (nonlinear_arith)
        requires
            -0x8000_0000_0000_0000 <= area <= 0x8000_0000_0000_0000,
            0 <= n < 0x1_0000_0000_0000_0000,
    ;
    let product: i128 = area * (n as i128);
    if product < i64::MIN as i128 || product > i64::MAX as i128 {
        None
    } else {
        Some(product as i64)
    }
}

/// Estimates an image generation: width times height times the number of
/// images.
pub fn calculate_image_generation_compute_units(body: &JsonValue, endpoint: &str) -> (r: Result<
    i64,
    ServiceError,
>)
    ensures
        agrees(r, image_units(*body), endpoint@),
{
    let size = match body.get(IMAGE_SIZE) {
        Some(size) => match size.as_str() {
            Some(size) => size,
            None => { return invalid_body("Image size is not a string", endpoint); },
        },
        None => { return invalid_body("Image size not found in body", endpoint); },
    };
    let (width, height) = match parse_image_size(size) {
        Some(dimensions) => dimensions,
        None => { return invalid_body("Invalid image size format", endpoint); },
    };
    let n = match body.get(IMAGE_N) {
        Some(n) => match n.as_u64() {
            Some(n) => n,
            None => { return invalid_body("Invalid or missing image count (n)", endpoint); },
        },
        None => { return invalid_body("Invalid or missing image count (n)", endpoint); },
    };
    match pixel_product(width, height, n) {
        Some(units) => Ok(units),
        None => invalid_body("Image size is too large", endpoint),
    }
}

/// Estimates a request of the given kind.
pub fn calculate_compute_units(
    body: &JsonValue,
    request_type: RequestType,
    tokenizers: &ModelTokenizers,
    model: &str,
    endpoint: &str,
) -> (r: Result<i64, ServiceError>)
    ensures
        estimate(*body, request_type, *tokenizers, model@, endpoint@, r),
{
    match request_type {
        RequestType::ChatCompletions => calculate_chat_completion_compute_units(
            body,
            tokenizers,
            model,
            endpoint,
        ),
        RequestType::Embeddings => calculate_embedding_compute_units(
            body,
            tokenizers,
            model,
            endpoint,
        ),
        RequestType::ImageGenerations => calculate_image_generation_compute_units(body, endpoint),
        RequestType::NonInference => Ok(0),
    }
}

} // verus!
