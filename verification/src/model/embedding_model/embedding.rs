//! Tensor contract of the token embedding ONNX model.

use vstd::prelude::*;

use crate::model::contract::{
    tensor_metadata_failure, tensor_metadata_ok, text_eq, validate_tensor_metadata, ElementType, ModelKind, Outlet,
};
use crate::model::decoder::session::{check_non_negative, dims_non_negative};
use crate::model::embedding_model::config::EmbeddingConfig;
use crate::util::text::{debug_list, debug_list_text, decimal, signed_decimal, with_number, with_signed_number, with_text, with_two_numbers};
use crate::Error;

verus! {

/// Name of the embedding model's input.
pub const EMBEDDING_INPUT_NAME: &'static str = "input_ids";
/// Name of the embedding model's output.
pub const EMBEDDING_OUTPUT_NAME: &'static str = "inputs_embeds";

/// Whether an embedding model's single input and output match the contract.
pub open spec fn embedding_session_ok(inputs: Seq<Outlet>, outputs: Seq<Outlet>, config: EmbeddingConfig) -> bool {
    &&& inputs.len() == 1
    &&& inputs[0].name@ == EMBEDDING_INPUT_NAME@
    &&& tensor_metadata_ok(inputs[0].value_type, ElementType::Int64, seq![2usize], seq![])
    &&& outputs.len() == 1
    &&& outputs[0].name@ == EMBEDDING_OUTPUT_NAME@
    &&& tensor_metadata_ok(outputs[0].value_type, ElementType::Float32, seq![3usize],
        seq![(2usize, config.hidden_size)])
}

/// The message given for an embedding model that breaks the contract: the
/// first check that fails.
pub open spec fn embedding_session_failure(inputs: Seq<Outlet>, outputs: Seq<Outlet>, config: EmbeddingConfig) -> Seq<char> {
    if inputs.len() != 1 {
        "expected 1 input, found "@ + decimal(inputs.len()) + ""@
    } else if inputs[0].name@ != EMBEDDING_INPUT_NAME@ {
        "expected input `input_ids`, found `"@ + inputs[0].name@ + "`"@
    } else if !tensor_metadata_ok(inputs[0].value_type, ElementType::Int64, seq![2usize], seq![]) {
        tensor_metadata_failure(inputs[0].value_type, EMBEDDING_INPUT_NAME@, ElementType::Int64, seq![2usize], seq![])
    } else if outputs.len() != 1 {
        "expected 1 output, found "@ + decimal(outputs.len()) + ""@
    } else if outputs[0].name@ != EMBEDDING_OUTPUT_NAME@ {
        "expected output `inputs_embeds`, found `"@ + outputs[0].name@ + "`"@
    } else {
        tensor_metadata_failure(outputs[0].value_type, EMBEDDING_OUTPUT_NAME@, ElementType::Float32, seq![3usize],
            seq![(2usize, config.hidden_size)])
    }
}

/// Checks an embedding model's inputs and outputs against the contract.
pub fn validate_session_contract(inputs: &[Outlet], outputs: &[Outlet], config: &EmbeddingConfig) -> (r:
    Result<(), Error>)
    ensures
        r is Ok <==> embedding_session_ok(inputs@, outputs@, *config),
        r matches Err(e) ==> e matches Error::InvalidEmbeddingModel { reason }
            && reason@ == embedding_session_failure(inputs@, outputs@, *config),
{
    if inputs.len() != 1 {
        return Err(Error::InvalidEmbeddingModel { reason: with_number("expected 1 input, found ", inputs.len() as u64, "") });
    }
    if !text_eq(inputs[0].name.as_str(), EMBEDDING_INPUT_NAME) {
        return Err(Error::InvalidEmbeddingModel {
            reason: with_text("expected input `input_ids`, found `", inputs[0].name.as_str(), "`"),
        });
    }
    let rank2: [usize; 1] = [2];
    let rank3: [usize; 1] = [3];
    let no_dims: [(usize, usize); 0] = [];
    let hidden_dims: [(usize, usize); 1] = [(2, config.hidden_size)];
    assert(rank2@ =~= seq![2usize]);
    assert(rank3@ =~= seq![3usize]);
    assert(no_dims@ =~= Seq::<(usize, usize)>::empty());
    assert(hidden_dims@ =~= seq![(2usize, config.hidden_size)]);
    let r = validate_tensor_metadata(ModelKind::Embedding, &inputs[0].value_type, EMBEDDING_INPUT_NAME,
        ElementType::Int64, &rank2, &no_dims);
    if r.is_err() {
        return r;
    }
    if outputs.len() != 1 {
        return Err(Error::InvalidEmbeddingModel { reason: with_number("expected 1 output, found ", outputs.len() as u64, "") });
    }
    if !text_eq(outputs[0].name.as_str(), EMBEDDING_OUTPUT_NAME) {
        return Err(Error::InvalidEmbeddingModel {
            reason: with_text("expected output `inputs_embeds`, found `", outputs[0].name.as_str(), "`"),
        });
    }
    validate_tensor_metadata(ModelKind::Embedding, &outputs[0].value_type, EMBEDDING_OUTPUT_NAME,
        ElementType::Float32, &rank3, &hidden_dims)
}

/// Whether a token sequence is acceptable to the embedding model: not empty and
/// every ID inside the vocabulary.
pub open spec fn token_ids_valid(token_ids: Seq<i64>, vocab_size: usize) -> bool {
    &&& token_ids.len() > 0
    &&& forall|i: int| 0 <= i < token_ids.len() ==> 0 <= #[trigger] token_ids[i] && (token_ids[i] as usize) < vocab_size
}

/// Whether token `i` is negative or outside the vocabulary.
pub open spec fn token_id_out_of_range(token_ids: Seq<i64>, vocab_size: usize, i: int) -> bool {
    token_ids[i] < 0 || token_ids[i] as usize >= vocab_size
}

/// The first token that is negative or outside the vocabulary.
pub open spec fn first_out_of_range(token_ids: Seq<i64>, vocab_size: usize) -> int {
    choose|i: int| 0 <= i < token_ids.len() && token_id_out_of_range(token_ids, vocab_size, i)
        && forall|j: int| 0 <= j < i ==> !token_id_out_of_range(token_ids, vocab_size, j)
}

/// The message given for token IDs the embedding model cannot take.
pub open spec fn token_ids_failure(token_ids: Seq<i64>, vocab_size: usize) -> Seq<char> {
    if token_ids.len() == 0 {
        "token_ids must contain at least one token"@
    } else {
        let i = first_out_of_range(token_ids, vocab_size);
        if token_ids[i] < 0 {
            "token_ids["@ + decimal(i as nat) + "] is negative: "@ + (""@ + signed_decimal(token_ids[i] as int) + ""@)
        } else {
            "token_ids["@ + decimal(i as nat) + "]="@ + (""@ + decimal(token_ids[i] as nat)
                + " exceeds vocabulary size "@ + decimal(vocab_size as nat) + ""@)
        }
    }
}

proof fn lemma_first_out_of_range(token_ids: Seq<i64>, vocab_size: usize, k: int)
    requires
        0 <= k < token_ids.len(),
        token_id_out_of_range(token_ids, vocab_size, k),
        forall|j: int| 0 <= j < k ==> !token_id_out_of_range(token_ids, vocab_size, j),
    ensures
        first_out_of_range(token_ids, vocab_size) == k,
{
    let i = first_out_of_range(token_ids, vocab_size);
    assert(0 <= i < token_ids.len() && token_id_out_of_range(token_ids, vocab_size, i)
        && forall|j: int| 0 <= j < i ==> !token_id_out_of_range(token_ids, vocab_size, j));
    if i < k {
        assert(!token_id_out_of_range(token_ids, vocab_size, i));
    } else if k < i {
        assert(!token_id_out_of_range(token_ids, vocab_size, k));
    }
}

/// Checks model-ready token IDs against the embedding vocabulary.
pub fn validate_token_ids(token_ids: &[i64], config: &EmbeddingConfig) -> (r: Result<(), Error>)
    ensures
        r is Ok <==> token_ids_valid(token_ids@, config.vocab_size),
        r matches Err(e) ==> e matches Error::InvalidEmbeddingInput { reason }
            && reason@ == token_ids_failure(token_ids@, config.vocab_size),
{
    if token_ids.len() == 0 {
        return Err(Error::InvalidEmbeddingInput { reason: "token_ids must contain at least one token".to_owned() });
    }
    let mut index: usize = 0;
    while index < token_ids.len()
        invariant
            index <= token_ids@.len(),
            forall|i: int| 0 <= i < index ==> 0 <= #[trigger] token_ids@[i] && (token_ids@[i] as usize) < config.vocab_size,
        decreases token_ids@.len() - index,
    {
        let token_id = token_ids[index];
        proof {
            if token_id_out_of_range(token_ids@, config.vocab_size, index as int) {
                lemma_first_out_of_range(token_ids@, config.vocab_size, index as int);
            }
        }
        if token_id < 0 {
            let mut reason = with_number("token_ids[", index as u64, "] is negative: ");
            reason.append(with_signed_number("", token_id, "").as_str());
            return Err(Error::InvalidEmbeddingInput { reason });
        }
        if token_id as usize >= config.vocab_size {
            let mut reason = with_number("token_ids[", index as u64, "]=");
            reason.append(with_two_numbers("", token_id as u64, " exceeds vocabulary size ", config.vocab_size as u64, "").as_str());
            return Err(Error::InvalidEmbeddingInput { reason });
        }
        index += 1;
    }
    Ok(())
}

/// Whether an embedding output has shape `(1, sequence_length, hidden_size)`.
pub open spec fn embedding_shape_ok(shape: Seq<i64>, sequence_length: usize, config: EmbeddingConfig) -> bool {
    &&& shape.len() == 3
    &&& dims_non_negative(shape)
    &&& shape[0] == 1
    &&& shape[1] as usize == sequence_length
    &&& shape[2] as usize == config.hidden_size
}

/// The message given for an embedding output shape that breaks the contract:
/// the first check that fails.
pub open spec fn embedding_shape_failure(shape: Seq<i64>, sequence_length: usize, config: EmbeddingConfig) -> Seq<char> {
    if shape.len() != 3 {
        "`inputs_embeds` has rank "@ + decimal(shape.len()) + ", expected 3"@
    } else if !dims_non_negative(shape) {
        "`inputs_embeds` has negative shape "@ + debug_list(shape)
    } else if shape[0] != 1 {
        "`inputs_embeds` batch size is "@ + decimal(shape[0] as nat) + ", expected 1"@
    } else if shape[1] as usize != sequence_length {
        "`inputs_embeds` sequence length is "@ + decimal(shape[1] as nat) + ", expected "@ + decimal(
            sequence_length as nat,
        ) + ""@
    } else {
        "`inputs_embeds` hidden size is "@ + decimal(shape[2] as nat) + ", expected "@ + decimal(
            config.hidden_size as nat,
        ) + ""@
    }
}

/// Checks the shape of the embedding model's output.
pub fn validate_embedding_shape(shape: &[i64], sequence_length: usize, config: &EmbeddingConfig) -> (r: Result<(), Error>)
    ensures
        r is Ok <==> embedding_shape_ok(shape@, sequence_length, *config),
        r matches Err(e) ==> e matches Error::InvalidEmbeddingOutput { reason }
            && reason@ == embedding_shape_failure(shape@, sequence_length, *config),
{
    if shape.len() != 3 {
        return Err(Error::InvalidEmbeddingOutput {
            reason: with_number("`inputs_embeds` has rank ", shape.len() as u64, ", expected 3"),
        });
    }
    if !check_non_negative(shape) {
        let mut reason = "`inputs_embeds` has negative shape ".to_owned();
        reason.append(debug_list_text(shape).as_str());
        return Err(Error::InvalidEmbeddingOutput { reason });
    }
    if shape[0] != 1 {
        return Err(Error::InvalidEmbeddingOutput {
            reason: with_number("`inputs_embeds` batch size is ", shape[0] as u64, ", expected 1"),
        });
    }
    if shape[1] as usize != sequence_length {
        return Err(Error::InvalidEmbeddingOutput {
            reason: with_two_numbers("`inputs_embeds` sequence length is ", shape[1] as u64, ", expected ",
                sequence_length as u64, ""),
        });
    }
    if shape[2] as usize != config.hidden_size {
        return Err(Error::InvalidEmbeddingOutput {
            reason: with_two_numbers("`inputs_embeds` hidden size is ", shape[2] as u64, ", expected ",
                config.hidden_size as u64, ""),
        });
    }
    Ok(())
}

} // verus!
