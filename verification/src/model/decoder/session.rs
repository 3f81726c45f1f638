//! Tensor contract of the merged decoder ONNX model and of one decoder pass.

use vstd::prelude::*;

use crate::model::contract::{
    find_named, has_named, named_tensor_failure, named_tensor_ok, text_eq, validate_named_tensor, ElementType,
    ModelKind, Outlet,
};
use crate::model::decoder::attention::AttentionMask;
use crate::model::decoder::config::DecoderConfig;
use crate::model::decoder::kv_cache::{kv_cache_valid, values_per_tensor, KVCache, KVCacheView, LayerCache};
use crate::model::tensor::Tensor3View;
use crate::model::embedding_model::output::InputEmbeddings;
use crate::util::text::{debug_list, debug_list_text, decimal, with_number, with_text, with_two_numbers};
use crate::Error;

verus! {

/// Name of the decoder's input-embeddings input.
pub const DECODER_INPUT_EMBEDS_NAME: &'static str = "inputs_embeds";
/// Name of the decoder's attention-mask input.
pub const DECODER_ATTENTION_MASK_NAME: &'static str = "attention_mask";
/// Name of the optional boolean input selecting the cached branch.
pub const DECODER_USE_CACHE_BRANCH_NAME: &'static str = "use_cache_branch";
/// Name of the decoder's logits output.
pub const DECODER_LOGITS_NAME: &'static str = "logits";

/// Name of the past-key input of a layer.
pub open spec fn past_key_spec(layer: nat) -> Seq<char> {
    "past_key_values."@ + decimal(layer) + ".key"@
}

/// Name of the past-value input of a layer.
pub open spec fn past_value_spec(layer: nat) -> Seq<char> {
    "past_key_values."@ + decimal(layer) + ".value"@
}

/// Name of the present-key output of a layer.
pub open spec fn present_key_spec(layer: nat) -> Seq<char> {
    "present."@ + decimal(layer) + ".key"@
}

/// Name of the present-value output of a layer.
pub open spec fn present_value_spec(layer: nat) -> Seq<char> {
    "present."@ + decimal(layer) + ".value"@
}

/// Name of the past-key input of a layer.
pub fn past_key_name(layer_index: usize) -> (s: String)
    ensures
        s@ == past_key_spec(layer_index as nat),
{
    with_number("past_key_values.", layer_index as u64, ".key")
}

/// Name of the past-value input of a layer.
pub fn past_value_name(layer_index: usize) -> (s: String)
    ensures
        s@ == past_value_spec(layer_index as nat),
{
    with_number("past_key_values.", layer_index as u64, ".value")
}

/// Name of the present-key output of a layer.
pub fn present_key_name(layer_index: usize) -> (s: String)
    ensures
        s@ == present_key_spec(layer_index as nat),
{
    with_number("present.", layer_index as u64, ".key")
}

/// Name of the present-value output of a layer.
pub fn present_value_name(layer_index: usize) -> (s: String)
    ensures
        s@ == present_value_spec(layer_index as nat),
{
    with_number("present.", layer_index as u64, ".value")
}

/// Number of decoder inputs: embeddings, mask, the optional branch flag, and a
/// key and a value per layer.
pub fn decoder_input_count(config: &DecoderConfig, has_cache_branch: bool) -> (n: usize)
    requires
        config.num_hidden_layers * 2 + 3 <= usize::MAX,
    ensures
        n == 2 + (if has_cache_branch { 1int } else { 0 }) + config.num_hidden_layers * 2,
{
    2 + (if has_cache_branch { 1 } else { 0 }) + config.num_hidden_layers * 2
}

/// Position of the past-key input of a layer; its past-value input follows it.
pub open spec fn past_key_position(has_cache_branch: bool, layer: int) -> int {
    (if has_cache_branch { 3int } else { 2 }) + 2 * layer
}

/// Whether the decoder inputs are in the positional order the decoder pass
/// relies on.
pub open spec fn decoder_input_order_ok(inputs: Seq<Outlet>, layers: nat, has_cache_branch: bool) -> bool {
    &&& inputs.len() >= past_key_position(has_cache_branch, layers as int)
    &&& inputs[0].name@ == DECODER_INPUT_EMBEDS_NAME@
    &&& inputs[1].name@ == DECODER_ATTENTION_MASK_NAME@
    &&& has_cache_branch ==> inputs[2].name@ == DECODER_USE_CACHE_BRANCH_NAME@
    &&& forall|l: int| 0 <= l < layers ==> {
        &&& (#[trigger] inputs[past_key_position(has_cache_branch, l)]).name@ == past_key_spec(l as nat)
        &&& inputs[past_key_position(has_cache_branch, l) + 1].name@ == past_value_spec(l as nat)
    }
}

/// Whether a decoder model's inputs and outputs match the decoder contract.
pub open spec fn decoder_session_ok(inputs: Seq<Outlet>, outputs: Seq<Outlet>, config: DecoderConfig) -> bool {
    let has = has_named(inputs, DECODER_USE_CACHE_BRANCH_NAME@);
    let layers = config.num_hidden_layers as nat;
    let cache_dims = seq![(1usize, config.num_key_value_heads), (3usize, config.head_dim)];
    &&& inputs.len() == 2 + (if has { 1int } else { 0 }) + 2 * layers
    &&& decoder_input_order_ok(inputs, layers, has)
    &&& named_tensor_ok(inputs, DECODER_INPUT_EMBEDS_NAME@, ElementType::Float32, seq![3usize],
        seq![(2usize, config.hidden_size)])
    &&& named_tensor_ok(inputs, DECODER_ATTENTION_MASK_NAME@, ElementType::Int64, seq![2usize], seq![])
    &&& has ==> named_tensor_ok(inputs, DECODER_USE_CACHE_BRANCH_NAME@, ElementType::Bool, seq![0usize, 1usize], seq![])
    &&& forall|l: nat| l < layers ==> {
        &&& named_tensor_ok(inputs, #[trigger] past_key_spec(l), ElementType::Float32, seq![4usize], cache_dims)
        &&& named_tensor_ok(inputs, past_value_spec(l), ElementType::Float32, seq![4usize], cache_dims)
    }
    &&& outputs.len() == 1 + 2 * layers
    &&& named_tensor_ok(outputs, DECODER_LOGITS_NAME@, ElementType::Float32, seq![3usize],
        seq![(2usize, config.vocab_size)])
    &&& forall|l: nat| l < layers ==> {
        &&& named_tensor_ok(outputs, #[trigger] present_key_spec(l), ElementType::Float32, seq![4usize], cache_dims)
        &&& named_tensor_ok(outputs, present_value_spec(l), ElementType::Float32, seq![4usize], cache_dims)
    }
}

/// The message given when input `position` is named `found` where `expected`
/// belongs.
pub open spec fn input_order_message(position: int, found: Seq<char>, expected: Seq<char>) -> Seq<char> {
    "decoder input #"@ + decimal(position as nat) + " is `"@ + found + ("`, expected `"@ + expected
        + "`; positional execution depends on ONNX input order"@)
}

/// Whether the past-key or past-value input of layer `l` is out of place.
pub open spec fn layer_order_bad(inputs: Seq<Outlet>, has_cache_branch: bool, l: int) -> bool {
    let p = past_key_position(has_cache_branch, l);
    inputs[p].name@ != past_key_spec(l as nat) || inputs[p + 1].name@ != past_value_spec(l as nat)
}

/// The first layer whose past-key or past-value input is out of place.
pub open spec fn first_order_bad_layer(inputs: Seq<Outlet>, layers: nat, has_cache_branch: bool) -> int {
    choose|l: int| 0 <= l < layers && layer_order_bad(inputs, has_cache_branch, l)
        && forall|k: int| 0 <= k < l ==> !layer_order_bad(inputs, has_cache_branch, k)
}

/// The message given for decoder inputs out of positional order: the first
/// input that is out of place.
pub open spec fn input_order_failure(inputs: Seq<Outlet>, layers: nat, has_cache_branch: bool) -> Seq<char> {
    if inputs[0].name@ != DECODER_INPUT_EMBEDS_NAME@ {
        input_order_message(0, inputs[0].name@, DECODER_INPUT_EMBEDS_NAME@)
    } else if inputs[1].name@ != DECODER_ATTENTION_MASK_NAME@ {
        input_order_message(1, inputs[1].name@, DECODER_ATTENTION_MASK_NAME@)
    } else if has_cache_branch && inputs[2].name@ != DECODER_USE_CACHE_BRANCH_NAME@ {
        input_order_message(2, inputs[2].name@, DECODER_USE_CACHE_BRANCH_NAME@)
    } else {
        let l = first_order_bad_layer(inputs, layers, has_cache_branch);
        let p = past_key_position(has_cache_branch, l);
        if inputs[p].name@ != past_key_spec(l as nat) {
            input_order_message(p, inputs[p].name@, past_key_spec(l as nat))
        } else {
            input_order_message(p + 1, inputs[p + 1].name@, past_value_spec(l as nat))
        }
    }
}

proof fn lemma_first_order_bad_layer(inputs: Seq<Outlet>, layers: nat, has_cache_branch: bool, m: int)
    requires
        0 <= m < layers,
        layer_order_bad(inputs, has_cache_branch, m),
        forall|k: int| 0 <= k < m ==> !layer_order_bad(inputs, has_cache_branch, k),
    ensures
        first_order_bad_layer(inputs, layers, has_cache_branch) == m,
{
    let l = first_order_bad_layer(inputs, layers, has_cache_branch);
    assert(0 <= l < layers && layer_order_bad(inputs, has_cache_branch, l)
        && forall|k: int| 0 <= k < l ==> !layer_order_bad(inputs, has_cache_branch, k));
    if l < m {
        assert(!layer_order_bad(inputs, has_cache_branch, l));
    } else if m < l {
        assert(!layer_order_bad(inputs, has_cache_branch, m));
    }
}

fn validate_input_at(inputs: &[Outlet], index: usize, expected: &str) -> (r: Result<(), Error>)
    ensures
        r is Ok <==> index < inputs@.len() && inputs@[index as int].name@ == expected@,
        r matches Err(e) ==> e matches Error::InvalidDecoderModel { reason } && reason@ == (if index
            >= inputs@.len() {
            "missing decoder input #"@ + decimal(index as nat) + ", expected `"@ + expected@ + "`"@
        } else {
            input_order_message(index as int, inputs@[index as int].name@, expected@)
        }),
{
    if index >= inputs.len() {
        let mut reason = with_number("missing decoder input #", index as u64, ", expected `");
        reason.append(expected);
        reason.append("`");
        return Err(Error::InvalidDecoderModel { reason });
    }
    if !text_eq(inputs[index].name.as_str(), expected) {
        let mut reason = with_number("decoder input #", index as u64, " is `");
        reason.append(inputs[index].name.as_str());
        reason.append(with_text("`, expected `", expected, "`; positional execution depends on ONNX input order").as_str());
        return Err(Error::InvalidDecoderModel { reason });
    }
    Ok(())
}

fn validate_decoder_input_order(inputs: &[Outlet], config: &DecoderConfig, has_cache_branch: bool) -> (r:
    Result<(), Error>)
    requires
        inputs@.len() == 2 + (if has_cache_branch { 1int } else { 0 }) + 2 * config.num_hidden_layers,
    ensures
        r is Ok <==> decoder_input_order_ok(inputs@, config.num_hidden_layers as nat, has_cache_branch),
        r matches Err(e) ==> e matches Error::InvalidDecoderModel { reason }
            && reason@ == input_order_failure(inputs@, config.num_hidden_layers as nat, has_cache_branch),
{
    let r = validate_input_at(inputs, 0, DECODER_INPUT_EMBEDS_NAME);
    if r.is_err() {
        return r;
    }
    let r = validate_input_at(inputs, 1, DECODER_ATTENTION_MASK_NAME);
    if r.is_err() {
        return r;
    }
    let mut index: usize = 2;
    if has_cache_branch {
        let r = validate_input_at(inputs, index, DECODER_USE_CACHE_BRANCH_NAME);
        if r.is_err() {
            return r;
        }
        index += 1;
    }
    let ghost offset: int = index as int;
    let ghost layers = config.num_hidden_layers as nat;
    let n = inputs.len();
    let mut layer: usize = 0;
    while layer < config.num_hidden_layers
        invariant
            offset == (if has_cache_branch { 3int } else { 2 }),
            layers == config.num_hidden_layers,
            inputs@.len() == offset + 2 * config.num_hidden_layers,
            layer <= config.num_hidden_layers,
            index == offset + 2 * layer,
            index <= inputs@.len(),
            inputs@[0].name@ == DECODER_INPUT_EMBEDS_NAME@,
            inputs@[1].name@ == DECODER_ATTENTION_MASK_NAME@,
            has_cache_branch ==> inputs@[2].name@ == DECODER_USE_CACHE_BRANCH_NAME@,
            n == inputs@.len(),
            forall|l: int| 0 <= l < layer ==> {
                &&& (#[trigger] inputs@[past_key_position(has_cache_branch, l)]).name@ == past_key_spec(l as nat)
                &&& inputs@[past_key_position(has_cache_branch, l) + 1].name@ == past_value_spec(l as nat)
            },
        decreases config.num_hidden_layers - layer,
    {
        let ghost p = past_key_position(has_cache_branch, layer as int);
        proof {
            assert forall|k: int| 0 <= k < layer implies !layer_order_bad(inputs@, has_cache_branch, k) by {
                assert(inputs@[past_key_position(has_cache_branch, k)].name@ == past_key_spec(k as nat));
            }
            if layer_order_bad(inputs@, has_cache_branch, layer as int) {
                lemma_first_order_bad_layer(inputs@, layers, has_cache_branch, layer as int);
            }
        }
        let key = past_key_name(layer);
        let r = validate_input_at(inputs, index, key.as_str());
        if r.is_err() {
            assert(inputs@[p].name@ != past_key_spec(layer as nat));
            return r;
        }
        let value = past_value_name(layer);
        let r = validate_input_at(inputs, index + 1, value.as_str());
        if r.is_err() {
            assert(inputs@[p].name@ == past_key_spec(layer as nat));
            assert(inputs@[p + 1].name@ != past_value_spec(layer as nat));
            return r;
        }
        index += 2;
        layer += 1;
    }
    Ok(())
}

/// The shape constraints of every past-key, past-value, present-key and
/// present-value tensor: `num_key_value_heads` on axis 1, `head_dim` on axis 3.
pub open spec fn cache_static_dims(config: DecoderConfig) -> Seq<(usize, usize)> {
    seq![(1usize, config.num_key_value_heads), (3usize, config.head_dim)]
}

/// Whether the past-key or past-value input of layer `l` has another tensor type.
pub open spec fn past_tensor_bad(inputs: Seq<Outlet>, config: DecoderConfig, l: nat) -> bool {
    !named_tensor_ok(inputs, past_key_spec(l), ElementType::Float32, seq![4usize], cache_static_dims(config))
        || !named_tensor_ok(inputs, past_value_spec(l), ElementType::Float32, seq![4usize], cache_static_dims(config))
}

/// Whether the present-key or present-value output of layer `l` has another
/// tensor type.
pub open spec fn present_tensor_bad(outputs: Seq<Outlet>, config: DecoderConfig, l: nat) -> bool {
    !named_tensor_ok(outputs, present_key_spec(l), ElementType::Float32, seq![4usize], cache_static_dims(config))
        || !named_tensor_ok(outputs, present_value_spec(l), ElementType::Float32, seq![4usize],
        cache_static_dims(config))
}

/// The first layer whose past-key or past-value input has another tensor type.
pub open spec fn first_past_tensor_bad(inputs: Seq<Outlet>, config: DecoderConfig) -> nat {
    choose|l: nat| l < config.num_hidden_layers && past_tensor_bad(inputs, config, l)
        && forall|k: nat| k < l ==> !past_tensor_bad(inputs, config, k)
}

/// The first layer whose present-key or present-value output has another
/// tensor type.
pub open spec fn first_present_tensor_bad(outputs: Seq<Outlet>, config: DecoderConfig) -> nat {
    choose|l: nat| l < config.num_hidden_layers && present_tensor_bad(outputs, config, l)
        && forall|k: nat| k < l ==> !present_tensor_bad(outputs, config, k)
}

/// The message given for the first layer whose past-key or past-value input
/// has another tensor type.
pub open spec fn past_tensor_failure(inputs: Seq<Outlet>, config: DecoderConfig) -> Seq<char> {
    let l = first_past_tensor_bad(inputs, config);
    if !named_tensor_ok(inputs, past_key_spec(l), ElementType::Float32, seq![4usize], cache_static_dims(config)) {
        named_tensor_failure(inputs, past_key_spec(l), ElementType::Float32, seq![4usize], cache_static_dims(config))
    } else {
        named_tensor_failure(inputs, past_value_spec(l), ElementType::Float32, seq![4usize],
            cache_static_dims(config))
    }
}

/// The message given for the first layer whose present-key or present-value
/// output has another tensor type.
pub open spec fn present_tensor_failure(outputs: Seq<Outlet>, config: DecoderConfig) -> Seq<char> {
    let l = first_present_tensor_bad(outputs, config);
    if !named_tensor_ok(outputs, present_key_spec(l), ElementType::Float32, seq![4usize], cache_static_dims(config)) {
        named_tensor_failure(outputs, present_key_spec(l), ElementType::Float32, seq![4usize],
            cache_static_dims(config))
    } else {
        named_tensor_failure(outputs, present_value_spec(l), ElementType::Float32, seq![4usize],
            cache_static_dims(config))
    }
}

proof fn lemma_first_past_tensor_bad(inputs: Seq<Outlet>, config: DecoderConfig, m: nat)
    requires
        m < config.num_hidden_layers,
        past_tensor_bad(inputs, config, m),
        forall|k: nat| k < m ==> !past_tensor_bad(inputs, config, k),
    ensures
        first_past_tensor_bad(inputs, config) == m,
{
    let l = first_past_tensor_bad(inputs, config);
    assert(l < config.num_hidden_layers && past_tensor_bad(inputs, config, l)
        && forall|k: nat| k < l ==> !past_tensor_bad(inputs, config, k));
    if l < m {
        assert(!past_tensor_bad(inputs, config, l));
    } else if m < l {
        assert(!past_tensor_bad(inputs, config, m));
    }
}

proof fn lemma_first_present_tensor_bad(outputs: Seq<Outlet>, config: DecoderConfig, m: nat)
    requires
        m < config.num_hidden_layers,
        present_tensor_bad(outputs, config, m),
        forall|k: nat| k < m ==> !present_tensor_bad(outputs, config, k),
    ensures
        first_present_tensor_bad(outputs, config) == m,
{
    let l = first_present_tensor_bad(outputs, config);
    assert(l < config.num_hidden_layers && present_tensor_bad(outputs, config, l)
        && forall|k: nat| k < l ==> !present_tensor_bad(outputs, config, k));
    if l < m {
        assert(!present_tensor_bad(outputs, config, l));
    } else if m < l {
        assert(!present_tensor_bad(outputs, config, m));
    }
}

/// The message given for a decoder model that breaks the contract: the first
/// check that fails, in the order the checks run.
pub open spec fn decoder_session_failure(inputs: Seq<Outlet>, outputs: Seq<Outlet>, config: DecoderConfig) -> Seq<
    char,
> {
    let has = has_named(inputs, DECODER_USE_CACHE_BRANCH_NAME@);
    let layers = config.num_hidden_layers as nat;
    let input_count = 2 + (if has { 1int } else { 0 }) + layers * 2;
    let output_count = 1 + layers * 2;
    if inputs.len() != input_count {
        "expected "@ + decimal(input_count as nat) + " inputs, found "@ + decimal(inputs.len()) + ""@
    } else if !decoder_input_order_ok(inputs, layers, has) {
        input_order_failure(inputs, layers, has)
    } else if !named_tensor_ok(inputs, DECODER_INPUT_EMBEDS_NAME@, ElementType::Float32, seq![3usize],
        seq![(2usize, config.hidden_size)]) {
        named_tensor_failure(inputs, DECODER_INPUT_EMBEDS_NAME@, ElementType::Float32, seq![3usize],
            seq![(2usize, config.hidden_size)])
    } else if !named_tensor_ok(inputs, DECODER_ATTENTION_MASK_NAME@, ElementType::Int64, seq![2usize], seq![]) {
        named_tensor_failure(inputs, DECODER_ATTENTION_MASK_NAME@, ElementType::Int64, seq![2usize], seq![])
    } else if has && !named_tensor_ok(inputs, DECODER_USE_CACHE_BRANCH_NAME@, ElementType::Bool,
        seq![0usize, 1usize], seq![]) {
        named_tensor_failure(inputs, DECODER_USE_CACHE_BRANCH_NAME@, ElementType::Bool, seq![0usize, 1usize],
            seq![])
    } else if exists|l: nat| l < layers && #[trigger] past_tensor_bad(inputs, config, l) {
        past_tensor_failure(inputs, config)
    } else if outputs.len() != output_count {
        "expected "@ + decimal(output_count as nat) + " outputs, found "@ + decimal(outputs.len()) + ""@
    } else if !named_tensor_ok(outputs, DECODER_LOGITS_NAME@, ElementType::Float32, seq![3usize],
        seq![(2usize, config.vocab_size)]) {
        named_tensor_failure(outputs, DECODER_LOGITS_NAME@, ElementType::Float32, seq![3usize],
            seq![(2usize, config.vocab_size)])
    } else {
        present_tensor_failure(outputs, config)
    }
}

/// Whether the input count, the positional order and the embeddings, mask and
/// cache-branch inputs match the decoder contract.
pub open spec fn leading_inputs_ok(inputs: Seq<Outlet>, config: DecoderConfig, has: bool) -> bool {
    let layers = config.num_hidden_layers as nat;
    &&& inputs.len() == 2 + (if has { 1int } else { 0 }) + layers * 2
    &&& decoder_input_order_ok(inputs, layers, has)
    &&& named_tensor_ok(inputs, DECODER_INPUT_EMBEDS_NAME@, ElementType::Float32, seq![3usize],
        seq![(2usize, config.hidden_size)])
    &&& named_tensor_ok(inputs, DECODER_ATTENTION_MASK_NAME@, ElementType::Int64, seq![2usize], seq![])
    &&& has ==> named_tensor_ok(inputs, DECODER_USE_CACHE_BRANCH_NAME@, ElementType::Bool, seq![0usize, 1usize],
        seq![])
}

/// Checks a decoder model's inputs and outputs against the decoder contract and
/// reports whether it has the optional cache-branch input.
pub fn validate_session_contract(inputs: &[Outlet], outputs: &[Outlet], config: &DecoderConfig) -> (r:
    Result<bool, Error>)
    requires
        config.num_hidden_layers * 2 + 3 <= usize::MAX,
    ensures
        r is Ok <==> decoder_session_ok(inputs@, outputs@, *config),
        r matches Ok(has) ==> has == has_named(inputs@, DECODER_USE_CACHE_BRANCH_NAME@),
        r matches Err(e) ==> e matches Error::InvalidDecoderModel { reason }
            && reason@ == decoder_session_failure(inputs@, outputs@, *config),
{
    let has_cache_branch = find_named(inputs, DECODER_USE_CACHE_BRANCH_NAME).is_some();
    let ghost layers = config.num_hidden_layers as nat;
    let ghost cache_dims = cache_static_dims(*config);
    let expected_input_count = decoder_input_count(config, has_cache_branch);
    if inputs.len() != expected_input_count {
        let reason = with_two_numbers("expected ", expected_input_count as u64, " inputs, found ", inputs.len() as u64, "");
        return Err(Error::InvalidDecoderModel { reason });
    }
    match validate_decoder_input_order(inputs, config, has_cache_branch) {
        Ok(()) => {},
        Err(e) => {
            return Err(e);
        },
    }
    let rank3: [usize; 1] = [3];
    let rank2: [usize; 1] = [2];
    let rank4: [usize; 1] = [4];
    let scalar_ranks: [usize; 2] = [0, 1];
    let no_dims: [(usize, usize); 0] = [];
    let hidden_dims: [(usize, usize); 1] = [(2, config.hidden_size)];
    let vocab_dims: [(usize, usize); 1] = [(2, config.vocab_size)];
    assert(rank3@ =~= seq![3usize]);
    assert(rank2@ =~= seq![2usize]);
    assert(rank4@ =~= seq![4usize]);
    assert(scalar_ranks@ =~= seq![0usize, 1usize]);
    assert(no_dims@ =~= Seq::<(usize, usize)>::empty());
    assert(hidden_dims@ =~= seq![(2usize, config.hidden_size)]);
    assert(vocab_dims@ =~= seq![(2usize, config.vocab_size)]);
    match validate_named_tensor(ModelKind::Decoder, inputs, DECODER_INPUT_EMBEDS_NAME, ElementType::Float32, &rank3,
        &hidden_dims) {
        Ok(()) => {},
        Err(e) => {
            return Err(e);
        },
    }
    match validate_named_tensor(ModelKind::Decoder, inputs, DECODER_ATTENTION_MASK_NAME, ElementType::Int64, &rank2,
        &no_dims) {
        Ok(()) => {},
        Err(e) => {
            return Err(e);
        },
    }
    if has_cache_branch {
        match validate_named_tensor(ModelKind::Decoder, inputs, DECODER_USE_CACHE_BRANCH_NAME, ElementType::Bool,
            &scalar_ranks, &no_dims) {
            Ok(()) => {},
            Err(e) => {
                return Err(e);
            },
        }
    }
    assert(leading_inputs_ok(inputs@, *config, has_cache_branch));
    let mut layer: usize = 0;
    while layer < config.num_hidden_layers
        invariant
            layer <= config.num_hidden_layers,
            layers == config.num_hidden_layers,
            cache_dims == cache_static_dims(*config),
            cache_dims == seq![(1usize, config.num_key_value_heads), (3usize, config.head_dim)],
            rank4@ == seq![4usize],
            has_cache_branch == has_named(inputs@, DECODER_USE_CACHE_BRANCH_NAME@),
            leading_inputs_ok(inputs@, *config, has_cache_branch),
            forall|l: nat| l < layer ==> {
                &&& named_tensor_ok(inputs@, #[trigger] past_key_spec(l), ElementType::Float32, seq![4usize], cache_dims)
                &&& named_tensor_ok(inputs@, past_value_spec(l), ElementType::Float32, seq![4usize], cache_dims)
            },
        decreases config.num_hidden_layers - layer,
    {
        proof {
            assert forall|k: nat| k < layer implies !past_tensor_bad(inputs@, *config, k) by {
                assert(named_tensor_ok(inputs@, past_key_spec(k), ElementType::Float32, seq![4usize], cache_dims));
            }
            if past_tensor_bad(inputs@, *config, layer as nat) {
                lemma_first_past_tensor_bad(inputs@, *config, layer as nat);
            }
        }
        let dims = [(1, config.num_key_value_heads), (3, config.head_dim)];
        assert(dims@ =~= cache_dims);
        let key = past_key_name(layer);
        let r = validate_named_tensor(ModelKind::Decoder, inputs, key.as_str(), ElementType::Float32, &rank4, &dims);
        if let Err(e) = r {
            return Err(e);
        }
        assert(named_tensor_ok(inputs@, past_key_spec(layer as nat), ElementType::Float32, seq![4usize], cache_dims));
        let value = past_value_name(layer);
        let r = validate_named_tensor(ModelKind::Decoder, inputs, value.as_str(), ElementType::Float32, &rank4, &dims);
        if let Err(e) = r {
            return Err(e);
        }
        assert(named_tensor_ok(inputs@, past_value_spec(layer as nat), ElementType::Float32, seq![4usize], cache_dims));
        assert forall|l: nat| l < layer + 1 implies {
            &&& named_tensor_ok(inputs@, #[trigger] past_key_spec(l), ElementType::Float32, seq![4usize], cache_dims)
            &&& named_tensor_ok(inputs@, past_value_spec(l), ElementType::Float32, seq![4usize], cache_dims)
        } by {
            if l < layer {
                assert(named_tensor_ok(inputs@, past_key_spec(l), ElementType::Float32, seq![4usize], cache_dims));
            }
        }
        layer += 1;
    }
    proof {
        assert forall|l: nat| l < layers implies !#[trigger] past_tensor_bad(inputs@, *config, l) by {
            assert(named_tensor_ok(inputs@, past_key_spec(l), ElementType::Float32, seq![4usize], cache_dims));
        }
    }
    let expected_output_count = 1 + config.num_hidden_layers * 2;
    if outputs.len() != expected_output_count {
        let reason = with_two_numbers("expected ", expected_output_count as u64, " outputs, found ", outputs.len() as u64, "");
        return Err(Error::InvalidDecoderModel { reason });
    }
    match validate_named_tensor(ModelKind::Decoder, outputs, DECODER_LOGITS_NAME, ElementType::Float32, &rank3,
        &vocab_dims) {
        Ok(()) => {},
        Err(e) => {
            return Err(e);
        },
    }
    let mut layer: usize = 0;
    while layer < config.num_hidden_layers
        invariant
            layer <= config.num_hidden_layers,
            layers == config.num_hidden_layers,
            cache_dims == cache_static_dims(*config),
            cache_dims == seq![(1usize, config.num_key_value_heads), (3usize, config.head_dim)],
            rank4@ == seq![4usize],
            has_cache_branch == has_named(inputs@, DECODER_USE_CACHE_BRANCH_NAME@),
            leading_inputs_ok(inputs@, *config, has_cache_branch),
            forall|l: nat| l < layers ==> !#[trigger] past_tensor_bad(inputs@, *config, l),
            forall|l: nat| l < layers ==> {
                &&& named_tensor_ok(inputs@, #[trigger] past_key_spec(l), ElementType::Float32, seq![4usize], cache_dims)
                &&& named_tensor_ok(inputs@, past_value_spec(l), ElementType::Float32, seq![4usize], cache_dims)
            },
            outputs@.len() == 1 + layers * 2,
            named_tensor_ok(outputs@, DECODER_LOGITS_NAME@, ElementType::Float32, seq![3usize],
                seq![(2usize, config.vocab_size)]),
            forall|l: nat| l < layer ==> {
                &&& named_tensor_ok(outputs@, #[trigger] present_key_spec(l), ElementType::Float32, seq![4usize], cache_dims)
                &&& named_tensor_ok(outputs@, present_value_spec(l), ElementType::Float32, seq![4usize], cache_dims)
            },
        decreases config.num_hidden_layers - layer,
    {
        proof {
            assert forall|k: nat| k < layer implies !present_tensor_bad(outputs@, *config, k) by {
                assert(named_tensor_ok(outputs@, present_key_spec(k), ElementType::Float32, seq![4usize], cache_dims));
            }
            if present_tensor_bad(outputs@, *config, layer as nat) {
                lemma_first_present_tensor_bad(outputs@, *config, layer as nat);
            }
        }
        let dims = [(1, config.num_key_value_heads), (3, config.head_dim)];
        assert(dims@ =~= cache_dims);
        let key = present_key_name(layer);
        let r = validate_named_tensor(ModelKind::Decoder, outputs, key.as_str(), ElementType::Float32, &rank4, &dims);
        if let Err(e) = r {
            return Err(e);
        }
        assert(named_tensor_ok(outputs@, present_key_spec(layer as nat), ElementType::Float32, seq![4usize], cache_dims));
        let value = present_value_name(layer);
        let r = validate_named_tensor(ModelKind::Decoder, outputs, value.as_str(), ElementType::Float32, &rank4, &dims);
        if let Err(e) = r {
            return Err(e);
        }
        assert(named_tensor_ok(outputs@, present_value_spec(layer as nat), ElementType::Float32, seq![4usize], cache_dims));
        assert forall|l: nat| l < layer + 1 implies {
            &&& named_tensor_ok(outputs@, #[trigger] present_key_spec(l), ElementType::Float32, seq![4usize], cache_dims)
            &&& named_tensor_ok(outputs@, present_value_spec(l), ElementType::Float32, seq![4usize], cache_dims)
        } by {
            if l < layer {
                assert(named_tensor_ok(outputs@, present_key_spec(l), ElementType::Float32, seq![4usize], cache_dims));
            }
        }
        layer += 1;
    }
    Ok(has_cache_branch)
}

/// Whether one decoder pass may run on these inputs: one or more positions of
/// the configured hidden size, a cache that matches the configuration and the
/// batch, and an attention mask covering past and new positions.
pub open spec fn decoder_inputs_valid<T>(
    embeddings: Tensor3View<T>,
    mask: Seq<i64>,
    cache: KVCacheView<T>,
    config: DecoderConfig,
) -> bool {
    let total = cache.past_sequence_length + embeddings.d1;
    &&& embeddings.d0 > 0
    &&& embeddings.d1 > 0
    &&& embeddings.d2 == config.hidden_size
    &&& cache.layers.len() == config.num_hidden_layers
    &&& cache.batch_size == embeddings.d0
    &&& cache.num_key_value_heads == config.num_key_value_heads
    &&& cache.head_dim == config.head_dim
    &&& total <= usize::MAX
    &&& embeddings.d0 * total <= usize::MAX
    &&& mask.len() == embeddings.d0 * total
}

/// The message given for decoder-pass inputs that break the contract: the first
/// check that fails.
pub open spec fn decoder_inputs_failure<T>(
    embeddings: Tensor3View<T>,
    mask: Seq<i64>,
    cache: KVCacheView<T>,
    config: DecoderConfig,
) -> Seq<char> {
    let total = cache.past_sequence_length + embeddings.d1;
    if embeddings.d0 == 0 {
        "batch size must be greater than zero"@
    } else if embeddings.d1 == 0 {
        "sequence length must be greater than zero"@
    } else if embeddings.d2 != config.hidden_size {
        "hidden size is "@ + decimal(embeddings.d2) + ", expected "@ + decimal(config.hidden_size as nat) + ""@
    } else if cache.layers.len() != config.num_hidden_layers {
        "KV cache has "@ + decimal(cache.layers.len()) + " layers, expected "@ + decimal(
            config.num_hidden_layers as nat,
        ) + ""@
    } else if cache.batch_size != embeddings.d0 {
        "KV cache batch size is "@ + decimal(cache.batch_size) + ", expected "@ + decimal(embeddings.d0) + ""@
    } else if cache.num_key_value_heads != config.num_key_value_heads {
        "KV cache head count is "@ + decimal(cache.num_key_value_heads) + ", expected "@ + decimal(
            config.num_key_value_heads as nat,
        ) + ""@
    } else if cache.head_dim != config.head_dim {
        "KV cache head dimension is "@ + decimal(cache.head_dim) + ", expected "@ + decimal(config.head_dim as nat)
            + ""@
    } else if total > usize::MAX {
        "total sequence length is too large"@
    } else if embeddings.d0 * total > usize::MAX {
        "attention mask shape is too large"@
    } else {
        "attention mask length is "@ + decimal(mask.len()) + ", expected "@ + decimal(embeddings.d0 * total) + ""@
    }
}

/// Checks the inputs of one decoder pass and returns the total sequence length
/// (past plus new positions).
pub fn validate_decoder_inputs<T>(
    input_embeddings: &InputEmbeddings<T>,
    attention_mask: &AttentionMask,
    kv_cache: &KVCache<T>,
    config: &DecoderConfig,
) -> (r: Result<usize, Error>)
    ensures
        r is Ok <==> decoder_inputs_valid(input_embeddings@, attention_mask@, kv_cache@, *config),
        r matches Ok(total) ==> total == kv_cache@.past_sequence_length + input_embeddings@.d1,
        r matches Err(e) ==> e matches Error::InvalidDecoderInput { reason }
            && reason@ == decoder_inputs_failure(input_embeddings@, attention_mask@, kv_cache@, *config),
{
    let (batch_size, sequence_length, hidden_size) = input_embeddings.shape();
    if batch_size == 0 {
        return Err(Error::InvalidDecoderInput { reason: "batch size must be greater than zero".to_owned() });
    }
    if sequence_length == 0 {
        return Err(Error::InvalidDecoderInput { reason: "sequence length must be greater than zero".to_owned() });
    }
    if hidden_size != config.hidden_size {
        return Err(Error::InvalidDecoderInput {
            reason: with_two_numbers("hidden size is ", hidden_size as u64, ", expected ", config.hidden_size as u64, ""),
        });
    }
    let layers = kv_cache.layers();
    if kv_cache.layer_count() != config.num_hidden_layers {
        return Err(Error::InvalidDecoderInput {
            reason: with_two_numbers("KV cache has ", kv_cache.layer_count() as u64, " layers, expected ",
                config.num_hidden_layers as u64, ""),
        });
    }
    if kv_cache.batch_size() != batch_size {
        return Err(Error::InvalidDecoderInput {
            reason: with_two_numbers("KV cache batch size is ", kv_cache.batch_size() as u64, ", expected ",
                batch_size as u64, ""),
        });
    }
    if kv_cache.num_key_value_heads() != config.num_key_value_heads {
        return Err(Error::InvalidDecoderInput {
            reason: with_two_numbers("KV cache head count is ", kv_cache.num_key_value_heads() as u64, ", expected ",
                config.num_key_value_heads as u64, ""),
        });
    }
    if kv_cache.head_dim() != config.head_dim {
        return Err(Error::InvalidDecoderInput {
            reason: with_two_numbers("KV cache head dimension is ", kv_cache.head_dim() as u64, ", expected ",
                config.head_dim as u64, ""),
        });
    }
    let expected_cache_values = match values_per_tensor(
        kv_cache.batch_size(),
        kv_cache.past_sequence_length(),
        kv_cache.num_key_value_heads(),
        kv_cache.head_dim(),
    ) {
        Ok(n) => n,
        Err(_) => {
            return Err(Error::InvalidDecoderInput { reason: "KV cache tensor shape is too large".to_owned() });
        },
    };
    let mut layer_index: usize = 0;
    while layer_index < layers.len()
        invariant
            layer_index <= layers@.len(),
            layers@.map_values(|l: LayerCache<T>| l@) == kv_cache@.layers,
            kv_cache_valid(kv_cache@.layers, kv_cache@.batch_size as int, kv_cache@.past_sequence_length as int,
                kv_cache@.num_key_value_heads as int, kv_cache@.head_dim as int),
            expected_cache_values == kv_cache@.batch_size * kv_cache@.num_key_value_heads
                * kv_cache@.past_sequence_length * kv_cache@.head_dim,
        decreases layers@.len() - layer_index,
    {
        let layer = &layers[layer_index];
        assert(kv_cache@.layers[layer_index as int] == layer@);
        if layer.key().len() != expected_cache_values {
            return Err(Error::InvalidDecoderInput {
                reason: with_number("KV cache layer ", layer_index as u64, " key length does not match its shape"),
            });
        }
        if layer.value().len() != expected_cache_values {
            return Err(Error::InvalidDecoderInput {
                reason: with_number("KV cache layer ", layer_index as u64, " value length does not match its shape"),
            });
        }
        layer_index += 1;
    }
    let total_sequence_length = match kv_cache.past_sequence_length().checked_add(sequence_length) {
        Some(n) => n,
        None => {
            return Err(Error::InvalidDecoderInput { reason: "total sequence length is too large".to_owned() });
        },
    };
    let expected_attention_values = match batch_size.checked_mul(total_sequence_length) {
        Some(n) => n,
        None => {
            return Err(Error::InvalidDecoderInput { reason: "attention mask shape is too large".to_owned() });
        },
    };
    if attention_mask.len() != expected_attention_values {
        return Err(Error::InvalidDecoderInput {
            reason: with_two_numbers("attention mask length is ", attention_mask.len() as u64, ", expected ",
                expected_attention_values as u64, ""),
        });
    }
    Ok(total_sequence_length)
}

/// Whether every dimension of `shape` is non-negative.
pub open spec fn dims_non_negative(shape: Seq<i64>) -> bool {
    forall|i: int| 0 <= i < shape.len() ==> shape[i] >= 0
}

/// Whether a logits output has shape `(batch_size, sequence_length, vocab_size)`.
pub open spec fn logits_shape_ok(shape: Seq<i64>, batch_size: usize, sequence_length: usize, vocab_size: usize) -> bool {
    &&& shape.len() == 3
    &&& dims_non_negative(shape)
    &&& shape[0] as usize == batch_size
    &&& shape[1] as usize == sequence_length
    &&& shape[2] as usize == vocab_size
}

/// Whether every dimension of `shape` is non-negative.
pub fn check_non_negative(shape: &[i64]) -> (b: bool)
    ensures
        b == dims_non_negative(shape@),
{
    let mut i: usize = 0;
    while i < shape.len()
        invariant
            i <= shape@.len(),
            forall|k: int| 0 <= k < i ==> shape@[k] >= 0,
        decreases shape@.len() - i,
    {
        if shape[i] < 0 {
            return false;
        }
        i += 1;
    }
    true
}

/// The message given for a logits shape that breaks the contract: the first
/// check that fails.
pub open spec fn logits_shape_failure(shape: Seq<i64>, batch_size: usize, sequence_length: usize, vocab_size: usize) -> Seq<char> {
    if shape.len() != 3 {
        "`logits` has rank "@ + decimal(shape.len()) + ", expected 3"@
    } else if !dims_non_negative(shape) {
        "`logits` has negative shape "@ + debug_list(shape)
    } else if shape[0] as usize != batch_size {
        "`logits` batch size is "@ + decimal(shape[0] as nat) + ", expected "@ + decimal(batch_size as nat) + ""@
    } else if shape[1] as usize != sequence_length {
        "`logits` sequence length is "@ + decimal(shape[1] as nat) + ", expected "@ + decimal(
            sequence_length as nat,
        ) + ""@
    } else {
        "`logits` vocabulary size is "@ + decimal(shape[2] as nat) + ", expected "@ + decimal(vocab_size as nat)
            + ""@
    }
}

/// Checks the shape of the decoder's logits output.
pub fn validate_logits_shape(shape: &[i64], batch_size: usize, sequence_length: usize, vocab_size: usize) -> (r:
    Result<(), Error>)
    ensures
        r is Ok <==> logits_shape_ok(shape@, batch_size, sequence_length, vocab_size),
        r matches Err(e) ==> e matches Error::InvalidDecoderOutput { reason }
            && reason@ == logits_shape_failure(shape@, batch_size, sequence_length, vocab_size),
{
    if shape.len() != 3 {
        return Err(Error::InvalidDecoderOutput {
            reason: with_number("`logits` has rank ", shape.len() as u64, ", expected 3"),
        });
    }
    if !check_non_negative(shape) {
        let mut reason = "`logits` has negative shape ".to_owned();
        reason.append(debug_list_text(shape).as_str());
        return Err(Error::InvalidDecoderOutput { reason });
    }
    if shape[0] as usize != batch_size {
        return Err(Error::InvalidDecoderOutput {
            reason: with_two_numbers("`logits` batch size is ", shape[0] as u64, ", expected ", batch_size as u64, ""),
        });
    }
    if shape[1] as usize != sequence_length {
        return Err(Error::InvalidDecoderOutput {
            reason: with_two_numbers("`logits` sequence length is ", shape[1] as u64, ", expected ",
                sequence_length as u64, ""),
        });
    }
    if shape[2] as usize != vocab_size {
        return Err(Error::InvalidDecoderOutput {
            reason: with_two_numbers("`logits` vocabulary size is ", shape[2] as u64, ", expected ",
                vocab_size as u64, ""),
        });
    }
    Ok(())
}

/// Whether a present-key or present-value output has shape
/// `(batch_size, num_key_value_heads, total_sequence_length, head_dim)`.
pub open spec fn cache_output_shape_ok(
    shape: Seq<i64>,
    batch_size: usize,
    total_sequence_length: usize,
    config: DecoderConfig,
) -> bool {
    &&& shape.len() == 4
    &&& dims_non_negative(shape)
    &&& shape[0] as usize == batch_size
    &&& shape[1] as usize == config.num_key_value_heads
    &&& shape[2] as usize == total_sequence_length
    &&& shape[3] as usize == config.head_dim
}

/// The first axis of a rank-4 shape that differs from `expected`.
pub open spec fn first_mismatched_axis(shape: Seq<i64>, expected: Seq<usize>) -> int {
    choose|a: int| 0 <= a < 4 && shape[a] as usize != expected[a]
        && forall|b: int| 0 <= b < a ==> shape[b] as usize == expected[b]
}

/// The message given for a present-key or present-value shape that breaks the
/// contract: the first check that fails, and for a wrong dimension the first
/// such axis.
pub open spec fn cache_output_failure(
    shape: Seq<i64>,
    name: Seq<char>,
    batch_size: usize,
    total_sequence_length: usize,
    config: DecoderConfig,
) -> Seq<char> {
    if shape.len() != 4 {
        "`"@ + name + "` has rank "@ + (""@ + decimal(shape.len()) + ", expected 4"@)
    } else if !dims_non_negative(shape) {
        "`"@ + name + "` has negative shape "@ + debug_list(shape)
    } else {
        let expected = seq![batch_size, config.num_key_value_heads, total_sequence_length, config.head_dim];
        let a = first_mismatched_axis(shape, expected);
        "`"@ + name + "` dimension "@ + (""@ + decimal(a as nat) + " is "@ + decimal(shape[a] as nat) + ""@) + (
        ", expected "@ + decimal(expected[a] as nat) + ""@)
    }
}

/// Checks the shape of a present-key or present-value output.
pub fn validate_cache_output_shape(
    shape: &[i64],
    name: &str,
    batch_size: usize,
    total_sequence_length: usize,
    config: &DecoderConfig,
) -> (r: Result<(), Error>)
    ensures
        r is Ok <==> cache_output_shape_ok(shape@, batch_size, total_sequence_length, *config),
        r matches Err(e) ==> e matches Error::InvalidDecoderOutput { reason }
            && reason@ == cache_output_failure(shape@, name@, batch_size, total_sequence_length, *config),
{
    if shape.len() != 4 {
        let mut reason = with_text("`", name, "` has rank ");
        reason.append(with_number("", shape.len() as u64, ", expected 4").as_str());
        return Err(Error::InvalidDecoderOutput { reason });
    }
    if !check_non_negative(shape) {
        let mut reason = with_text("`", name, "` has negative shape ");
        reason.append(debug_list_text(shape).as_str());
        return Err(Error::InvalidDecoderOutput { reason });
    }
    let expected = [batch_size, config.num_key_value_heads, total_sequence_length, config.head_dim];
    let mut axis: usize = 0;
    while axis < 4
        invariant
            axis <= 4,
            shape@.len() == 4,
            dims_non_negative(shape@),
            expected@ == seq![batch_size, config.num_key_value_heads, total_sequence_length, config.head_dim],
            forall|k: int| 0 <= k < axis ==> shape@[k] as usize == expected@[k],
        decreases 4 - axis,
    {
        if shape[axis] as usize != expected[axis] {
            proof {
                let a = first_mismatched_axis(shape@, expected@);
                assert(0 <= a < 4 && shape@[a] as usize != expected@[a]
                    && forall|b: int| 0 <= b < a ==> shape@[b] as usize == expected@[b]);
                if a < axis {
                    assert(shape@[a] as usize == expected@[a]);
                } else if axis < a {
                    assert(shape@[axis as int] as usize == expected@[axis as int]);
                }
            }
            let mut reason = with_text("`", name, "` dimension ");
            reason.append(with_two_numbers("", axis as u64, " is ", shape[axis] as u64, "").as_str());
            reason.append(with_number(", expected ", expected[axis] as u64, "").as_str());
            return Err(Error::InvalidDecoderOutput { reason });
        }
        axis += 1;
    }
    proof {
        assert(shape@[0] as usize == expected@[0]);
        assert(shape@[1] as usize == expected@[1]);
        assert(shape@[2] as usize == expected@[2]);
        assert(shape@[3] as usize == expected@[3]);
    }
    Ok(())
}

} // verus!
