//! Tensor contract of the vision encoder ONNX model.

use vstd::prelude::*;

use crate::model::contract::{
    tensor_metadata_failure, tensor_metadata_ok, text_eq, validate_tensor_metadata, ElementType, ModelKind, Outlet,
};
use crate::model::decoder::session::{check_non_negative, dims_non_negative};
use crate::model::tensor::Tensor4View;
use crate::model::vision_encoder::config::VisionConfig;
use crate::model::vision_encoder::input::ImageTensor;
use crate::util::text::{debug_list, debug_list_text, decimal, with_number, with_text, with_two_numbers};
use crate::Error;

verus! {

/// Name of the vision encoder's input.
pub const VISION_INPUT_NAME: &'static str = "pixel_values";
/// Name of the vision encoder's output.
pub const VISION_OUTPUT_NAME: &'static str = "image_features";

/// Whether a vision encoder's single input and output match the contract.
pub open spec fn vision_session_ok(inputs: Seq<Outlet>, outputs: Seq<Outlet>, config: VisionConfig) -> bool {
    &&& inputs.len() == 1
    &&& inputs[0].name@ == VISION_INPUT_NAME@
    &&& tensor_metadata_ok(inputs[0].value_type, ElementType::Float32, seq![4usize],
        seq![(1usize, config.num_channels)])
    &&& outputs.len() == 1
    &&& outputs[0].name@ == VISION_OUTPUT_NAME@
    &&& tensor_metadata_ok(outputs[0].value_type, ElementType::Float32, seq![3usize],
        seq![(2usize, config.hidden_size)])
}

/// The message given for a vision encoder that breaks the contract: the first
/// check that fails.
pub open spec fn vision_session_failure(inputs: Seq<Outlet>, outputs: Seq<Outlet>, config: VisionConfig) -> Seq<char> {
    if inputs.len() != 1 {
        "expected 1 input, found "@ + decimal(inputs.len()) + ""@
    } else if inputs[0].name@ != VISION_INPUT_NAME@ {
        "expected input `pixel_values`, found `"@ + inputs[0].name@ + "`"@
    } else if !tensor_metadata_ok(inputs[0].value_type, ElementType::Float32, seq![4usize],
        seq![(1usize, config.num_channels)]) {
        tensor_metadata_failure(inputs[0].value_type, VISION_INPUT_NAME@, ElementType::Float32, seq![4usize],
            seq![(1usize, config.num_channels)])
    } else if outputs.len() != 1 {
        "expected 1 output, found "@ + decimal(outputs.len()) + ""@
    } else if outputs[0].name@ != VISION_OUTPUT_NAME@ {
        "expected output `image_features`, found `"@ + outputs[0].name@ + "`"@
    } else {
        tensor_metadata_failure(outputs[0].value_type, VISION_OUTPUT_NAME@, ElementType::Float32, seq![3usize],
            seq![(2usize, config.hidden_size)])
    }
}

/// Checks a vision encoder's inputs and outputs against the contract.
pub fn validate_session_contract(inputs: &[Outlet], outputs: &[Outlet], config: &VisionConfig) -> (r:
    Result<(), Error>)
    ensures
        r is Ok <==> vision_session_ok(inputs@, outputs@, *config),
        r matches Err(e) ==> e matches Error::InvalidVisionModel { reason }
            && reason@ == vision_session_failure(inputs@, outputs@, *config),
{
    if inputs.len() != 1 {
        return Err(Error::InvalidVisionModel { reason: with_number("expected 1 input, found ", inputs.len() as u64, "") });
    }
    if !text_eq(inputs[0].name.as_str(), VISION_INPUT_NAME) {
        return Err(Error::InvalidVisionModel {
            reason: with_text("expected input `pixel_values`, found `", inputs[0].name.as_str(), "`"),
        });
    }
    let rank4: [usize; 1] = [4];
    let rank3: [usize; 1] = [3];
    let channel_dims: [(usize, usize); 1] = [(1, config.num_channels)];
    let hidden_dims: [(usize, usize); 1] = [(2, config.hidden_size)];
    assert(rank4@ =~= seq![4usize]);
    assert(rank3@ =~= seq![3usize]);
    assert(channel_dims@ =~= seq![(1usize, config.num_channels)]);
    assert(hidden_dims@ =~= seq![(2usize, config.hidden_size)]);
    let r = validate_tensor_metadata(ModelKind::Vision, &inputs[0].value_type, VISION_INPUT_NAME,
        ElementType::Float32, &rank4, &channel_dims);
    if r.is_err() {
        return r;
    }
    if outputs.len() != 1 {
        return Err(Error::InvalidVisionModel { reason: with_number("expected 1 output, found ", outputs.len() as u64, "") });
    }
    if !text_eq(outputs[0].name.as_str(), VISION_OUTPUT_NAME) {
        return Err(Error::InvalidVisionModel {
            reason: with_text("expected output `image_features`, found `", outputs[0].name.as_str(), "`"),
        });
    }
    validate_tensor_metadata(ModelKind::Vision, &outputs[0].value_type, VISION_OUTPUT_NAME, ElementType::Float32,
        &rank3, &hidden_dims)
}

/// Whether a pixel tensor is acceptable to the vision encoder.
pub open spec fn image_tensor_valid<T>(pixels: Tensor4View<T>, config: VisionConfig) -> bool {
    &&& pixels.d0 > 0
    &&& pixels.d1 == config.num_channels
    &&& pixels.d2 > 0
    &&& pixels.d3 > 0
}

/// Checks a preprocessed image tensor against the vision encoder contract.
pub fn validate_image_tensor<T>(pixel_values: &ImageTensor<T>, config: &VisionConfig) -> (r: Result<(), Error>)
    ensures
        r is Ok <==> image_tensor_valid(pixel_values@, *config),
        r matches Err(e) ==> e matches Error::InvalidVisionInput { reason } && reason@ == (if pixel_values@.d0 == 0 {
            "batch size must be greater than zero"@
        } else if pixel_values@.d1 != config.num_channels {
            "expected "@ + decimal(config.num_channels as nat) + " channels, found "@ + decimal(pixel_values@.d1)
                + ""@
        } else {
            "height and width must be greater than zero, found "@ + decimal(pixel_values@.d2) + "x"@ + decimal(
                pixel_values@.d3,
            ) + ""@
        }),
{
    let (batch_size, channels, height, width) = pixel_values.shape();
    if batch_size == 0 {
        return Err(Error::InvalidVisionInput { reason: "batch size must be greater than zero".to_owned() });
    }
    if channels != config.num_channels {
        return Err(Error::InvalidVisionInput {
            reason: with_two_numbers("expected ", config.num_channels as u64, " channels, found ", channels as u64, ""),
        });
    }
    if height == 0 || width == 0 {
        return Err(Error::InvalidVisionInput {
            reason: with_two_numbers("height and width must be greater than zero, found ", height as u64, "x",
                width as u64, ""),
        });
    }
    Ok(())
}

/// Whether an image feature output has rank 3, no negative dimension, the
/// batch size of the input and the configured hidden size.
pub open spec fn image_feature_shape_ok(shape: Seq<i64>, batch_size: usize, config: VisionConfig) -> bool {
    &&& shape.len() == 3
    &&& dims_non_negative(shape)
    &&& shape[0] as usize == batch_size
    &&& shape[2] as usize == config.hidden_size
}

/// Checks the shape of the vision encoder's output: the features keep the
/// batch size of the input image tensor.
pub fn validate_image_feature_shape(shape: &[i64], batch_size: usize, config: &VisionConfig) -> (r: Result<
    (),
    Error,
>)
    ensures
        r is Ok <==> image_feature_shape_ok(shape@, batch_size, *config),
        r matches Err(e) ==> e matches Error::InvalidVisionOutput { reason } && reason@ == (if shape@.len() != 3 {
            "`image_features` has rank "@ + decimal(shape@.len()) + ", expected 3"@
        } else if !dims_non_negative(shape@) {
            "`image_features` has negative shape "@ + debug_list(shape@)
        } else if shape@[0] as usize != batch_size {
            "`image_features` batch size is "@ + decimal(shape@[0] as nat) + ", expected "@ + decimal(
                batch_size as nat,
            ) + ""@
        } else {
            "`image_features` hidden size is "@ + decimal(shape@[2] as nat) + ", expected "@ + decimal(
                config.hidden_size as nat,
            ) + ""@
        }),
{
    if shape.len() != 3 {
        return Err(Error::InvalidVisionOutput {
            reason: with_number("`image_features` has rank ", shape.len() as u64, ", expected 3"),
        });
    }
    if !check_non_negative(shape) {
        let mut reason = "`image_features` has negative shape ".to_owned();
        reason.append(debug_list_text(shape).as_str());
        return Err(Error::InvalidVisionOutput { reason });
    }
    if shape[0] as usize != batch_size {
        return Err(Error::InvalidVisionOutput {
            reason: with_two_numbers("`image_features` batch size is ", shape[0] as u64, ", expected ",
                batch_size as u64, ""),
        });
    }
    if shape[2] as usize != config.hidden_size {
        return Err(Error::InvalidVisionOutput {
            reason: with_two_numbers("`image_features` hidden size is ", shape[2] as u64, ", expected ",
                config.hidden_size as u64, ""),
        });
    }
    Ok(())
}

} // verus!
