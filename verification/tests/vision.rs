use fast_lightonocr::model::contract::{ElementType, Outlet, OutletType};
use fast_lightonocr::model::vision_encoder::config::VisionConfig;
use fast_lightonocr::model::vision_encoder::encoder::{
    validate_image_feature_shape, validate_image_tensor, validate_session_contract,
};
use fast_lightonocr::model::{Activation, DataType, ImageFeatures, ImageTensor, ModelType};
use fast_lightonocr::Error;

fn config() -> VisionConfig {
    VisionConfig {
        dtype: DataType::BFloat16,
        head_dim: 64,
        hidden_act: Activation::Silu,
        hidden_size: 1024,
        image_size: 1540,
        intermediate_size: 4096,
        model_type: ModelType::Pixtral,
        num_attention_heads: 16,
        num_channels: 3,
        num_hidden_layers: 24,
        patch_size: 14,
    }
}

#[test]
fn image_features_expose_shape_and_values() {
    let features = ImageFeatures::new(vec![0.0, 1.0, 2.0, 3.0], 1, 2, 2).unwrap();

    assert_eq!(features.shape(), (1, 2, 2));
    assert_eq!(features.batch_size(), 1);
    assert_eq!(features.num_merged_patches(), 2);
    assert_eq!(features.hidden_size(), 2);
    assert_eq!(features.as_slice(), &[0.0, 1.0, 2.0, 3.0]);
    assert_eq!(features.get(0, 1, 1), Some(3.0));
    assert_eq!(features.get(1, 0, 0), None);
}

#[test]
fn rejects_invalid_image_feature_shapes() {
    let error = ImageFeatures::new(vec![0.0; 3], 1, 2, 2).expect_err("shape validation should fail");

    match error {
        Error::InvalidVisionOutput { reason } => {
            assert!(reason.contains("does not match shape"));
        }
        other => panic!("expected invalid vision output error, got {other:?}"),
    }
}

#[test]
fn rejects_invalid_image_tensor_shapes() {
    let error = ImageTensor::new(vec![0.0; 3], 1, 3, 2, 2).expect_err("shape validation should fail");

    match error {
        Error::ImageProcessing { reason } => {
            assert!(reason.contains("does not match shape"));
        }
        other => panic!("expected image processing error, got {other:?}"),
    }
}

#[test]
fn image_tensor_exposes_nchw_values() {
    let pixels = ImageTensor::new((0..12).collect::<Vec<i32>>(), 1, 3, 2, 2).unwrap();

    assert_eq!(pixels.shape(), (1, 3, 2, 2));
    assert_eq!(pixels.channels(), 3);
    assert_eq!(pixels.height(), 2);
    assert_eq!(pixels.width(), 2);
    assert_eq!(pixels.get(0, 2, 1, 0), Some(10));
    assert_eq!(pixels.get(0, 3, 0, 0), None);
}

#[test]
fn copies_image_features_into_an_existing_buffer() {
    let mut features = ImageFeatures::new(vec![0, 0, 0, 0], 1, 2, 2).unwrap();
    features.copy_from_slice(&[1, 2, 3, 4], 1, 2, 2).unwrap();
    assert_eq!(features.as_slice(), &[1, 2, 3, 4]);
    assert!(matches!(features.copy_from_slice(&[1, 2, 3], 1, 2, 2), Err(Error::InvalidVisionOutput { .. })));
}

#[test]
fn checks_the_vision_session_and_its_inputs() {
    let inputs = [Outlet {
        name: "pixel_values".to_owned(),
        value_type: OutletType::Tensor { ty: ElementType::Float32, shape: vec![-1, 3, -1, -1] },
    }];
    let outputs = [Outlet {
        name: "image_features".to_owned(),
        value_type: OutletType::Tensor { ty: ElementType::Float32, shape: vec![-1, -1, 1024] },
    }];
    assert!(validate_session_contract(&inputs, &outputs, &config()).is_ok());
    assert!(matches!(validate_session_contract(&outputs, &inputs, &config()), Err(Error::InvalidVisionModel { .. })));

    let pixels = ImageTensor::new(vec![0.0f32; 3 * 28 * 28], 1, 3, 28, 28).unwrap();
    assert!(validate_image_tensor(&pixels, &config()).is_ok());
    let grey = ImageTensor::new(vec![0.0f32; 28 * 28], 1, 1, 28, 28).unwrap();
    assert!(matches!(validate_image_tensor(&grey, &config()), Err(Error::InvalidVisionInput { .. })));

    assert!(validate_image_feature_shape(&[1, 289, 1024], 1, &config()).is_ok());
    assert!(matches!(validate_image_feature_shape(&[1, 289, 4], 1, &config()), Err(Error::InvalidVisionOutput { .. })));
    match validate_image_feature_shape(&[2, 289, 1024], 1, &config()) {
        Err(Error::InvalidVisionOutput { reason }) => assert_eq!(reason, "`image_features` batch size is 2, expected 1"),
        other => panic!("expected a batch size mismatch, got {other:?}"),
    }
    match validate_image_feature_shape(&[1, -1, 1024], 1, &config()) {
        Err(Error::InvalidVisionOutput { reason }) => {
            assert_eq!(reason, "`image_features` has negative shape [1, -1, 1024]")
        },
        other => panic!("expected a negative shape, got {other:?}"),
    }
}
