//! The tokenizers of the models that the node serves.
//!
//! A tokenizer is kept as it was loaded and counts tokens as it is set to:
//! its truncation cuts the count, its padding fills it up. A tokenizer can
//! be set so that encoding any text panics; such a one is refused when the
//! set is made. Whether a tokenizer is fit is decided here from plain
//! values that are read off it: the numbers of its truncation and padding,
//! the tokens that its post-processor adds, and the serde forms of its
//! normalizer, pre-tokenizer and post-processor.

use crate::charsmap::{table_fits, table_is_fit};
use crate::headers::{base64_decode, base64_decoded};
use crate::json::{json_from_serde, JsonValue};
use crate::text::same_text;
use tokenizers::{PaddingStrategy, PostProcessor, Tokenizer, TruncationStrategy};
use vstd::prelude::*;

verus! {

/// An outside type: a tokenizer of the tokenizers crate.
#[verifier::external_type_specification]
#[verifier::external_body]
pub struct ExTokenizer(Tokenizer);

/// The truncation that a tokenizer is set to.
#[derive(Clone, Copy, Debug)]
pub struct Truncation {
    /// The length that an encoding is cut to, added tokens included.
    pub max_length: usize,
    /// How many tokens two successive parts of a cut encoding share.
    pub stride: usize,
    /// Only the second text of a pair is cut.
    pub second_only: bool,
}

/// The padding that a tokenizer is set to.
#[derive(Clone, Copy, Debug)]
pub struct Padding {
    /// The length that every encoding is filled up to, where it is fixed.
    pub fixed: Option<usize>,
    /// The number of which the filled length is made a multiple.
    pub multiple: Option<usize>,
}

/// The truncation of a tokenizer, as `Tokenizer::get_truncation` shows it.
pub uninterp spec fn truncation_of(tokenizer: Tokenizer) -> Option<Truncation>;

/// The padding of a tokenizer, as `Tokenizer::get_padding` shows it.
pub uninterp spec fn padding_of(tokenizer: Tokenizer) -> Option<Padding>;

/// The number of tokens that the post-processor of a tokenizer adds to one
/// text, as `PostProcessor::added_tokens` gives it; none without a
/// post-processor.
pub uninterp spec fn added_tokens_of(tokenizer: Tokenizer) -> usize;

/// The post-processor of a tokenizer in its serde form, as
/// `serde_json::to_value` writes it: null without one; `None` where it
/// cannot be written.
pub uninterp spec fn post_processor_of(tokenizer: Tokenizer) -> Option<JsonValue>;

/// The pre-tokenizer of a tokenizer in its serde form, as
/// `serde_json::to_value` writes it: null without one; `None` where it
/// cannot be written.
pub uninterp spec fn pre_tokenizer_of(tokenizer: Tokenizer) -> Option<JsonValue>;

/// The normalizer of a tokenizer in its serde form, as
/// `serde_json::to_value` writes it: null without one; `None` where it
/// cannot be written.
pub uninterp spec fn normalizer_of(tokenizer: Tokenizer) -> Option<JsonValue>;

/// Calls `Tokenizer::get_truncation` and copies the maximum length, the
/// stride and whether the strategy is `OnlySecond`.
#[verifier::external_body]
fn read_truncation(tokenizer: &Tokenizer) -> (r: Option<Truncation>)
    ensures
        r == truncation_of(*tokenizer),
{
    match tokenizer.get_truncation() {
        Some(p) => Some(Truncation {
            max_length: p.max_length,
            stride: p.stride,
            second_only: match p.strategy {
                TruncationStrategy::OnlySecond => true,
                TruncationStrategy::OnlyFirst => false,
                TruncationStrategy::LongestFirst => false,
            },
        }),
        None => None,
    }
}

/// Calls `Tokenizer::get_padding` and copies the fixed length, where the
/// strategy has one, and `pad_to_multiple_of`.
#[verifier::external_body]
fn read_padding(tokenizer: &Tokenizer) -> (r: Option<Padding>)
    ensures
        r == padding_of(*tokenizer),
{
    match tokenizer.get_padding() {
        Some(p) => Some(Padding {
            fixed: match p.strategy {
                PaddingStrategy::Fixed(length) => Some(length),
                PaddingStrategy::BatchLongest => None,
            },
            multiple: p.pad_to_multiple_of,
        }),
        None => None,
    }
}

/// Calls `PostProcessor::added_tokens` for one text on what
/// `Tokenizer::get_post_processor` gives, as `encode` does.
#[verifier::external_body]
fn read_added_tokens(tokenizer: &Tokenizer) -> (r: usize)
    ensures
        r == added_tokens_of(*tokenizer),
{
    match tokenizer.get_post_processor() {
        Some(processor) => processor.added_tokens(false),
        None => 0,
    }
}

/// Calls `serde_json::to_value` on what `Tokenizer::get_post_processor`
/// gives and copies the value.
#[verifier::external_body]
fn read_post_processor(tokenizer: &Tokenizer) -> (r: Option<JsonValue>)
    ensures
        r == post_processor_of(*tokenizer),
{
    match serde_json::to_value(tokenizer.get_post_processor()) {
        Ok(form) => Some(json_from_serde(&form)),
        Err(_) => None,
    }
}

/// Calls `serde_json::to_value` on what `Tokenizer::get_pre_tokenizer`
/// gives and copies the value.
#[verifier::external_body]
fn read_pre_tokenizer(tokenizer: &Tokenizer) -> (r: Option<JsonValue>)
    ensures
        r == pre_tokenizer_of(*tokenizer),
{
    match serde_json::to_value(tokenizer.get_pre_tokenizer()) {
        Ok(form) => Some(json_from_serde(&form)),
        Err(_) => None,
    }
}

/// Calls `serde_json::to_value` on what `Tokenizer::get_normalizer` gives
/// and copies the value.
#[verifier::external_body]
fn read_normalizer(tokenizer: &Tokenizer) -> (r: Option<JsonValue>)
    ensures
        r == normalizer_of(*tokenizer),
{
    match serde_json::to_value(tokenizer.get_normalizer()) {
        Ok(form) => Some(json_from_serde(&form)),
        Err(_) => None,
    }
}

/// The longest padding that a tokenizer may be set to. A length near the
/// largest integer makes the arithmetic of the padding overflow.
pub const MAX_PADDING: usize = 16_777_216;

/// The truncation does not make the encoding of a text panic: the tokens
/// that the post-processor adds fit the maximum length, and what is left
/// of it is nothing or more than the stride. A truncation of the second
/// text only never cuts a single text.
pub open spec fn truncation_fits(truncation: Option<Truncation>, added: usize) -> bool {
    match truncation {
        None => true,
        Some(t) => added <= t.max_length && (t.second_only || t.max_length - added == 0
            || t.stride < t.max_length - added),
    }
}

/// The padding does not make the arithmetic of the padded length
/// overflow.
pub open spec fn padding_fits(padding: Option<Padding>) -> bool {
    match padding {
        None => true,
        Some(p) => {
            &&& p.fixed matches Some(length) ==> length <= MAX_PADDING
            &&& p.multiple matches Some(multiple) ==> multiple <= MAX_PADDING
        },
    }
}

/// The kind of a post-processor: the member `type` of its form.
pub open spec fn kind_of(form: JsonValue) -> Option<Seq<char>> {
    match form.field("type"@) {
        Some(kind) => kind.text(),
        None => None,
    }
}

/// The post-processor hands on as many encodings as it takes, whatever it
/// is set to: it is a `BertProcessing`, a `RobertaProcessing` or a
/// `ByteLevel`.
pub open spec fn keeps_count(form: JsonValue) -> bool {
    kind_of(form) == Some("BertProcessing"@) || kind_of(form) == Some("RobertaProcessing"@)
        || kind_of(form) == Some("ByteLevel"@)
}

/// The post-processor is a `TemplateProcessing`.
pub open spec fn is_template(form: JsonValue) -> bool {
    kind_of(form) == Some("TemplateProcessing"@)
}

/// The entry of a special token holds as many ids as tokens.
pub open spec fn entry_fits(entry: JsonValue) -> bool {
    match (entry.field("ids"@), entry.field("tokens"@)) {
        (Some(ids), Some(tokens)) => match (ids.items(), tokens.items()) {
            (Some(ids), Some(tokens)) => ids.len() == tokens.len(),
            _ => false,
        },
        _ => false,
    }
}

/// The special token that a piece of a template names, where the piece
/// names one.
pub open spec fn special_token_of(piece: JsonValue) -> Option<Seq<char>> {
    match piece.field("SpecialToken"@) {
        Some(token) => match token.field("id"@) {
            Some(id) => id.text(),
            None => None,
        },
        None => None,
    }
}

/// The piece of a template can be applied to one text: it stands for the
/// first text, or for a special token that the template's map holds.
pub open spec fn piece_fits(piece: JsonValue, special_tokens: JsonValue) -> bool {
    match piece.field("Sequence"@) {
        Some(sequence) => match sequence.field("id"@) {
            Some(id) => id.text() == Some("A"@),
            None => false,
        },
        None => match special_token_of(piece) {
            Some(name) => match special_tokens.field(name) {
                Some(entry) => entry_fits(entry),
                None => false,
            },
            None => false,
        },
    }
}

/// The template for one text can be applied to one text: each of its
/// pieces can.
pub open spec fn template_fits(form: JsonValue) -> bool {
    match form.field("single"@) {
        Some(single) => match single.items() {
            Some(pieces) => match form.field("special_tokens"@) {
                Some(special_tokens) => pieces_fit(pieces, special_tokens),
                None => false,
            },
            None => false,
        },
        None => false,
    }
}

/// Each piece of a template can be applied to one text.
pub open spec fn pieces_fit(pieces: Seq<JsonValue>, special_tokens: JsonValue) -> bool {
    forall|i: int| 0 <= i < pieces.len() ==> piece_fits(#[trigger] pieces[i], special_tokens)
}

/// One post-processor can be applied to the encoding of one text.
pub open spec fn step_fits(form: JsonValue) -> bool {
    keeps_count(form) || (is_template(form) && template_fits(form))
}

/// The number of templates among post-processors.
pub open spec fn templates_in(forms: Seq<JsonValue>) -> nat
    decreases forms.len(),
{
    if forms.len() == 0 {
        0
    } else {
        templates_in(forms.drop_last()) + if is_template(forms.last()) {
            1nat
        } else {
            0nat
        }
    }
}

/// The steps of a sequence of post-processors can be applied to the
/// encoding of one text: each of them can, and at most one is a template.
/// A template hands on one encoding for each of its pieces, and a template
/// after it would be applied to them all.
pub open spec fn steps_fit(steps: Seq<JsonValue>) -> bool {
    &&& forall|i: int| 0 <= i < steps.len() ==> step_fits(#[trigger] steps[i])
    &&& templates_in(steps) <= 1
}

/// The post-processor can be applied to the encoding of one text: there is
/// none, or it is one that can, or it is a sequence of such with at most
/// one template.
pub open spec fn post_processor_fits(form: JsonValue) -> bool {
    ||| form is Null
    ||| step_fits(form)
    ||| kind_of(form) == Some("Sequence"@) && match form.field("processors"@) {
        Some(processors) => match processors.items() {
            Some(steps) => steps_fit(steps),
            None => false,
        },
        None => false,
    }
}

/// The table of a precompiled normalizer, which its form holds in base64,
/// is one that no walk leaves.
pub open spec fn charsmap_fits(form: JsonValue) -> bool {
    match form.field("precompiled_charsmap"@) {
        Some(charsmap) => match charsmap.text() {
            Some(text) => match base64_decoded(text) {
                Some(table) => table_fits(table),
                None => false,
            },
            None => false,
        },
        None => false,
    }
}

/// A normalizer that is no sequence rewrites a text without a panic: where
/// it is a precompiled one, which walks its table without looking at the
/// table's bounds, no walk leaves the table.
pub open spec fn rewriter_fits(form: JsonValue) -> bool {
    &&& kind_of(form) is Some
    &&& kind_of(form) != Some("Sequence"@)
    &&& kind_of(form) == Some("Precompiled"@) ==> charsmap_fits(form)
}

/// Each normalizer of a sequence rewrites a text without a panic.
pub open spec fn rewriters_fit(steps: Seq<JsonValue>) -> bool {
    forall|i: int| 0 <= i < steps.len() ==> rewriter_fits(#[trigger] steps[i])
}

/// The normalizer rewrites a text without a panic: there is none, or it is
/// one that does, or it is a sequence of such.
pub open spec fn normalizer_fits(form: JsonValue) -> bool {
    ||| form is Null
    ||| rewriter_fits(form)
    ||| kind_of(form) == Some("Sequence"@) && match form.field("normalizers"@) {
        Some(normalizers) => match normalizers.items() {
            Some(steps) => rewriters_fit(steps),
            None => false,
        },
        None => false,
    }
}

/// A pre-tokenizer that is no sequence splits a text without a panic:
/// where it cuts the text into runs of a fixed length, the length is not
/// zero.
pub open spec fn splitter_fits(form: JsonValue) -> bool {
    &&& kind_of(form) is Some
    &&& kind_of(form) != Some("Sequence"@)
    &&& kind_of(form) == Some("FixedLength"@) ==> match form.field("length"@) {
        Some(length) => length.unsigned() matches Some(n) && n >= 1,
        None => false,
    }
}

/// Each pre-tokenizer of a sequence splits a text without a panic.
pub open spec fn splitters_fit(steps: Seq<JsonValue>) -> bool {
    forall|i: int| 0 <= i < steps.len() ==> splitter_fits(#[trigger] steps[i])
}

/// The pre-tokenizer splits a text without a panic: there is none, or it
/// is one that does, or it is a sequence of such.
pub open spec fn pre_tokenizer_fits(form: JsonValue) -> bool {
    ||| form is Null
    ||| splitter_fits(form)
    ||| kind_of(form) == Some("Sequence"@) && match form.field("pretokenizers"@) {
        Some(pretokenizers) => match pretokenizers.items() {
            Some(steps) => splitters_fit(steps),
            None => false,
        },
        None => false,
    }
}

/// The tokenizer encodes one text, special tokens included, without a
/// panic that its settings bring about: its normalizer, its
/// pre-tokenizer, its truncation, its padding and its post-processor fit.
pub open spec fn encodes_single_text(tokenizer: Tokenizer) -> bool {
    &&& normalizer_of(tokenizer) matches Some(form) && normalizer_fits(form)
    &&& pre_tokenizer_of(tokenizer) matches Some(form) && pre_tokenizer_fits(form)
    &&& truncation_fits(truncation_of(tokenizer), added_tokens_of(tokenizer))
    &&& padding_fits(padding_of(tokenizer))
    &&& post_processor_of(tokenizer) matches Some(form) && post_processor_fits(form)
}

/// Calls `Tokenizer::encode` on one text, special tokens included, and
/// counts the ids of the encoding (`Encoding::get_ids`); `None` where
/// `encode` fails. A tokenizer may be set up to drop merges at random, so
/// nothing is claimed of the count. `encode` panics where a precompiled
/// normalizer holds a table that its walk leaves, where a pre-tokenizer
/// cuts into runs of length zero, where the stride of the truncation is
/// not below what the added tokens leave of the maximum length, where a
/// template names the second text or a special token that its map lacks,
/// and where a template follows a template: the call is made on
/// tokenizers of which `encodes_single_text` holds.
#[verifier::external_body]
pub(crate) fn count_tokens(tokenizer: &Tokenizer, text: &str) -> Option<usize>
    requires
        encodes_single_text(*tokenizer),
{
    match tokenizer.encode(text, true) {
        Ok(encoding) => Some(encoding.get_ids().len()),
        Err(_) => None,
    }
}

/// The number of templates does not go down as post-processors are added.
proof fn lemma_templates_in_prefix(forms: Seq<JsonValue>, n: int)
    requires
        0 <= n <= forms.len(),
    ensures
        templates_in(forms.take(n)) <= templates_in(forms),
    decreases forms.len(),
{
    if forms.len() == 0 || n == forms.len() {
        assert(forms.take(n) =~= forms);
    } else {
        assert(forms.drop_last().take(n) =~= forms.take(n));
        lemma_templates_in_prefix(forms.drop_last(), n);
    }
}

/// Reads the kind of a post-processor.
fn kind<'a>(form: &'a JsonValue) -> (r: Option<&'a str>)
    ensures
        match r {
            Some(kind) => kind_of(*form) == Some(kind@),
            None => kind_of(*form) is None,
        },
{
    match form.get("type") {
        Some(kind) => kind.as_str(),
        None => None,
    }
}

/// Whether the form has the given kind.
fn has_kind(form: &JsonValue, name: &str) -> (r: bool)
    ensures
        r == (kind_of(*form) == Some(name@)),
{
    match kind(form) {
        Some(kind) => same_text(kind, name),
        None => false,
    }
}

/// Whether the entry of a special token holds as many ids as tokens.
fn entry_is_fit(entry: &JsonValue) -> (r: bool)
    ensures
        r == entry_fits(*entry),
{
    match (entry.get("ids"), entry.get("tokens")) {
        (Some(ids), Some(tokens)) => match (ids.as_array(), tokens.as_array()) {
            (Some(ids), Some(tokens)) => ids.len() == tokens.len(),
            _ => false,
        },
        _ => false,
    }
}

/// Whether the piece of a template can be applied to one text.
fn piece_is_fit(piece: &JsonValue, special_tokens: &JsonValue) -> (r: bool)
    ensures
        r == piece_fits(*piece, *special_tokens),
{
    match piece.get("Sequence") {
        Some(sequence) => match sequence.get("id") {
            Some(id) => match id.as_str() {
                Some(id) => same_text(id, "A"),
                None => false,
            },
            None => false,
        },
        None => {
            let name = match piece.get("SpecialToken") {
                Some(token) => match token.get("id") {
                    Some(id) => id.as_str(),
                    None => None,
                },
                None => None,
            };
            match name {
                Some(name) => match special_tokens.get(name) {
                    Some(entry) => entry_is_fit(entry),
                    None => false,
                },
                None => false,
            }
        },
    }
}

/// Whether the template for one text can be applied to one text.
fn template_is_fit(form: &JsonValue) -> (r: bool)
    ensures
        r == template_fits(*form),
{
    let (pieces, special_tokens) = match (form.get("single"), form.get("special_tokens")) {
        (Some(single), Some(special_tokens)) => match single.as_array() {
            Some(pieces) => (pieces, special_tokens),
            None => { return false; },
        },
        _ => { return false; },
    };
    let mut i: usize = 0;
    while i < pieces.len()
        invariant
            0 <= i <= pieces.len(),
            form.field("single"@) matches Some(single) && single.items() == Some(pieces@),
            form.field("special_tokens"@) == Some(*special_tokens),
            pieces_fit(pieces@.take(i as int), *special_tokens),
        decreases pieces.len() - i,
    {
        if !piece_is_fit(&pieces[i], special_tokens) {
            assert(!pieces_fit(pieces@, *special_tokens));
            return false;
        }
        assert(pieces_fit(pieces@.take(i + 1), *special_tokens)) by {
            assert forall|j: int| 0 <= j < i + 1 implies piece_fits(
                #[trigger] pieces@.take(i + 1)[j],
                *special_tokens,
            ) by {
                if j < i {
                    assert(pieces@.take(i as int)[j] == pieces@[j]);
                }
            }
        }
        i = i + 1;
    }
    assert(pieces@.take(i as int) =~= pieces@);
    true
}

/// Whether one post-processor can be applied to the encoding of one text.
fn step_is_fit(form: &JsonValue) -> (r: bool)
    ensures
        r == step_fits(*form),
{
    if has_kind(form, "BertProcessing") || has_kind(form, "RobertaProcessing") || has_kind(
        form,
        "ByteLevel",
    ) {
        true
    } else {
        has_kind(form, "TemplateProcessing") && template_is_fit(form)
    }
}

/// Whether the steps of a sequence of post-processors can be applied to
/// the encoding of one text.
fn steps_are_fit(steps: &Vec<JsonValue>) -> (r: bool)
    ensures
        r == steps_fit(steps@),
{
    let mut templates: usize = 0;
    let mut i: usize = 0;
    assert(steps@.take(0) =~= Seq::<JsonValue>::empty());
    while i < steps.len()
        invariant
            0 <= i <= steps.len(),
            templates == templates_in(steps@.take(i as int)),
            templates <= 1,
            forall|j: int| 0 <= j < i ==> step_fits(#[trigger] steps@[j]),
        decreases steps.len() - i,
    {
        if !step_is_fit(&steps[i]) {
            return false;
        }
        let ghost longer = steps@.take(i + 1);
        assert(longer.drop_last() =~= steps@.take(i as int));
        assert(longer.last() == steps@[i as int]);
        if has_kind(&steps[i], "TemplateProcessing") {
            if templates == 1 {
                proof {
                    lemma_templates_in_prefix(steps@, i + 1);
                }
                return false;
            }
            templates = 1;
        }
        i = i + 1;
    }
    assert(steps@.take(i as int) =~= steps@);
    true
}

/// Whether the post-processor can be applied to the encoding of one text.
pub fn post_processor_is_fit(form: &JsonValue) -> (r: bool)
    ensures
        r == post_processor_fits(*form),
{
    match form {
        JsonValue::Null => true,
        _ => {
            if step_is_fit(form) {
                true
            } else if has_kind(form, "Sequence") {
                match form.get("processors") {
                    Some(processors) => match processors.as_array() {
                        Some(steps) => steps_are_fit(steps),
                        None => false,
                    },
                    None => false,
                }
            } else {
                false
            }
        },
    }
}

/// Whether a normalizer that is no sequence rewrites a text without a
/// panic.
fn rewriter_is_fit(form: &JsonValue) -> (r: bool)
    ensures
        r == rewriter_fits(*form),
{
    match kind(form) {
        Some(kind) => {
            if same_text(kind, "Sequence") {
                false
            } else if same_text(kind, "Precompiled") {
                match form.get("precompiled_charsmap") {
                    Some(charsmap) => match charsmap.as_str() {
                        Some(text) => match base64_decode(text) {
                            Some(table) => table_is_fit(&table),
                            None => false,
                        },
                        None => false,
                    },
                    None => false,
                }
            } else {
                true
            }
        },
        None => false,
    }
}

/// Whether the normalizer rewrites a text without a panic.
pub fn normalizer_is_fit(form: &JsonValue) -> (r: bool)
    ensures
        r == normalizer_fits(*form),
{
    match form {
        JsonValue::Null => { return true; },
        _ => {},
    }
    if rewriter_is_fit(form) {
        return true;
    }
    if !has_kind(form, "Sequence") {
        return false;
    }
    let steps = match form.get("normalizers") {
        Some(normalizers) => match normalizers.as_array() {
            Some(steps) => steps,
            None => { return false; },
        },
        None => { return false; },
    };
    let mut i: usize = 0;
    while i < steps.len()
        invariant
            0 <= i <= steps.len(),
            !(form is Null),
            !rewriter_fits(*form),
            form.field("normalizers"@) matches Some(held) && held.items() == Some(steps@),
            rewriters_fit(steps@.take(i as int)),
        decreases steps.len() - i,
    {
        if !rewriter_is_fit(&steps[i]) {
            assert(!rewriters_fit(steps@));
            return false;
        }
        assert(rewriters_fit(steps@.take(i + 1))) by {
            assert forall|j: int| 0 <= j < i + 1 implies rewriter_fits(
                #[trigger] steps@.take(i + 1)[j],
            ) by {
                if j < i {
                    assert(steps@.take(i as int)[j] == steps@[j]);
                }
            }
        }
        i = i + 1;
    }
    assert(steps@.take(i as int) =~= steps@);
    true
}

/// Whether a pre-tokenizer that is no sequence splits a text without a
/// panic.
fn splitter_is_fit(form: &JsonValue) -> (r: bool)
    ensures
        r == splitter_fits(*form),
{
    match kind(form) {
        Some(kind) => {
            if same_text(kind, "Sequence") {
                false
            } else if same_text(kind, "FixedLength") {
                match form.get("length") {
                    Some(length) => match length.as_u64() {
                        Some(n) => n >= 1,
                        None => false,
                    },
                    None => false,
                }
            } else {
                true
            }
        },
        None => false,
    }
}

/// Whether the pre-tokenizer splits a text without a panic.
pub fn pre_tokenizer_is_fit(form: &JsonValue) -> (r: bool)
    ensures
        r == pre_tokenizer_fits(*form),
{
    match form {
        JsonValue::Null => { return true; },
        _ => {},
    }
    if splitter_is_fit(form) {
        return true;
    }
    if !has_kind(form, "Sequence") {
        return false;
    }
    let steps = match form.get("pretokenizers") {
        Some(pretokenizers) => match pretokenizers.as_array() {
            Some(steps) => steps,
            None => { return false; },
        },
        None => { return false; },
    };
    let mut i: usize = 0;
    while i < steps.len()
        invariant
            0 <= i <= steps.len(),
            !(form is Null),
            !splitter_fits(*form),
            form.field("pretokenizers"@) matches Some(held) && held.items() == Some(steps@),
            splitters_fit(steps@.take(i as int)),
        decreases steps.len() - i,
    {
        if !splitter_is_fit(&steps[i]) {
            assert(!splitters_fit(steps@));
            return false;
        }
        assert(splitters_fit(steps@.take(i + 1))) by {
            assert forall|j: int| 0 <= j < i + 1 implies splitter_fits(
                #[trigger] steps@.take(i + 1)[j],
            ) by {
                if j < i {
                    assert(steps@.take(i as int)[j] == steps@[j]);
                }
            }
        }
        i = i + 1;
    }
    assert(steps@.take(i as int) =~= steps@);
    true
}

/// Whether the truncation does not make the encoding of a text panic.
pub fn truncation_is_fit(truncation: Option<Truncation>, added: usize) -> (r: bool)
    ensures
        r == truncation_fits(truncation, added),
{
    match truncation {
        None => true,
        Some(t) => added <= t.max_length && (t.second_only || t.max_length - added == 0
            || t.stride < t.max_length - added),
    }
}

/// Whether the padding does not make the arithmetic of the padded length
/// overflow.
pub fn padding_is_fit(padding: Option<Padding>) -> (r: bool)
    ensures
        r == padding_fits(padding),
{
    match padding {
        None => true,
        Some(p) => {
            let fixed = match p.fixed {
                Some(length) => length <= MAX_PADDING,
                None => true,
            };
            let multiple = match p.multiple {
                Some(multiple) => multiple <= MAX_PADDING,
                None => true,
            };
            fixed && multiple
        },
    }
}

/// Whether the tokenizer encodes one text without a panic that its
/// settings bring about.
fn is_fit(tokenizer: &Tokenizer) -> (r: bool)
    ensures
        r == encodes_single_text(*tokenizer),
{
    match read_normalizer(tokenizer) {
        Some(form) => {
            if !normalizer_is_fit(&form) {
                return false;
            }
        },
        None => { return false; },
    }
    match read_pre_tokenizer(tokenizer) {
        Some(form) => {
            if !pre_tokenizer_is_fit(&form) {
                return false;
            }
        },
        None => { return false; },
    }
    if !truncation_is_fit(read_truncation(tokenizer), read_added_tokens(tokenizer)) {
        return false;
    }
    if !padding_is_fit(read_padding(tokenizer)) {
        return false;
    }
    match read_post_processor(tokenizer) {
        Some(form) => post_processor_is_fit(&form),
        None => false,
    }
}

/// The models that the node serves, each with its tokenizer. Every
/// tokenizer encodes one text without a panic that its settings bring
/// about.
pub struct ModelTokenizers {
    models: Vec<String>,
    tokenizers: Vec<Tokenizer>,
}

impl ModelTokenizers {
    #[verifier::type_invariant]
    spec fn well_formed(self) -> bool {
        &&& self.models.len() == self.tokenizers.len()
        &&& forall|i: int|
            0 <= i < self.tokenizers@.len() ==> encodes_single_text(#[trigger] self.tokenizers@[i])
    }

    /// The tokenizers, in the order of the models.
    pub closed spec fn tokenizers(&self) -> Seq<Tokenizer> {
        self.tokenizers@
    }

    /// The names of the models, in the order in which they were given.
    pub closed spec fn names(&self) -> Seq<Seq<char>> {
        Seq::new(self.models@.len(), |i: int| self.models@[i]@)
    }

    /// The node serves `model`.
    pub open spec fn supports(&self, model: Seq<char>) -> bool {
        exists|i: int| 0 <= i < self.names().len() && self.names()[i] == model
    }

    /// Pairs each model with the tokenizer at its position; the tokenizers
    /// are kept as they are given. `None` unless there are as many
    /// tokenizers as models and `encodes_single_text` holds of every
    /// tokenizer.
    pub fn new(models: Vec<String>, tokenizers: Vec<Tokenizer>) -> (r: Option<Self>)
        ensures
            r is Some <==> {
                &&& models.len() == tokenizers.len()
                &&& forall|i: int|
                    0 <= i < tokenizers.len() ==> encodes_single_text(#[trigger] tokenizers[i])
            },
            r matches Some(set) ==> {
                &&& set.names().len() == models.len()
                &&& forall|i: int| 0 <= i < models.len() ==> set.names()[i] == models[i]@
                &&& set.tokenizers() == tokenizers@
            },
    {
        if models.len() != tokenizers.len() {
            return None;
        }
        let mut i: usize = 0;
        while i < tokenizers.len()
            invariant
                0 <= i <= tokenizers.len(),
                forall|j: int| 0 <= j < i ==> encodes_single_text(#[trigger] tokenizers[j]),
            decreases tokenizers.len() - i,
        {
            if !is_fit(&tokenizers[i]) {
                return None;
            }
            i = i + 1;
        }
        Some(ModelTokenizers { models, tokenizers })
    }

    /// The number of models.
    pub fn len(&self) -> (n: usize)
        ensures
            n == self.names().len(),
    {
        self.models.len()
    }

    /// The first position at which `model` stands, if the node serves it.
    pub fn position(&self, model: &str) -> (r: Option<usize>)
        ensures
            r is Some <==> self.supports(model@),
            r matches Some(index) ==> {
                &&& index < self.names().len()
                &&& self.names()[index as int] == model@
                &&& forall|j: int| 0 <= j < index ==> self.names()[j] != model@
            },
    {
        let mut i: usize = 0;
        while i < self.models.len()
            invariant
                0 <= i <= self.models.len(),
                forall|j: int| 0 <= j < i ==> self.names()[j] != model@,
            decreases self.models.len() - i,
        {
            if same_text(self.models[i].as_str(), model) {
                assert(self.names()[i as int] == model@);
                return Some(i);
            }
            i = i + 1;
        }
        None
    }

    /// Whether the node serves `model`.
    pub fn contains(&self, model: &str) -> (r: bool)
        ensures
            r == self.supports(model@),
    {
        self.position(model).is_some()
    }

    /// Counts the tokens of `text` with the tokenizer at `index`; `None`
    /// where the tokenizer fails on the text.
    pub(crate) fn count(&self, index: usize, text: &str) -> (r: Option<usize>)
        requires
            index < self.names().len(),
    {
        proof {
            use_type_invariant(self);
        }
        count_tokens(&self.tokenizers[index], text)
    }
}

} // verus!
