use fast_lightonocr::processor::config::{
    ceil_to_multiple, patch_grid_stride, resize_output_size, validate_config, DataFormat, ImageSettings,
    ImageSize, ProcessorConfig, ProcessorField, ProcessorFields, ResampleFilter,
};
use fast_lightonocr::processor::VisionGrid;
use fast_lightonocr::Error;

const PATCH_SIZE: usize = 14;
const SPATIAL_MERGE_SIZE: usize = 2;

#[test]
fn feature_count() {
    let grid = VisionGrid { width: 3, height: 5 };

    assert_eq!(grid.feature_count(), 15);
}

#[test]
fn computes_square_grid() {
    let grid = VisionGrid::from_image_size(476, 476, PATCH_SIZE, SPATIAL_MERGE_SIZE).unwrap();

    assert_eq!(grid.width, 17);
    assert_eq!(grid.height, 17);
    assert_eq!(grid.feature_count(), 289);
}

#[test]
fn computes_non_square_grid() {
    let grid = VisionGrid::from_image_size(476, 448, PATCH_SIZE, SPATIAL_MERGE_SIZE).unwrap();

    assert_eq!(grid.width, 17);
    assert_eq!(grid.height, 16);
    assert_eq!(grid.feature_count(), 272);
}

#[test]
fn computes_single_feature_grid() {
    let grid = VisionGrid::from_image_size(28, 28, PATCH_SIZE, SPATIAL_MERGE_SIZE).unwrap();

    assert_eq!(grid.width, 1);
    assert_eq!(grid.height, 1);
    assert_eq!(grid.feature_count(), 1);
}

#[test]
fn rejects_width_not_divisible_by_patch_size() {
    let error = VisionGrid::from_image_size(475, 476, PATCH_SIZE, SPATIAL_MERGE_SIZE).unwrap_err();

    assert!(matches!(error, Error::ImageProcessing { .. }));
}

#[test]
fn rejects_height_not_divisible_by_patch_size() {
    let error = VisionGrid::from_image_size(476, 475, PATCH_SIZE, SPATIAL_MERGE_SIZE).unwrap_err();

    assert!(matches!(error, Error::ImageProcessing { .. }));
}

#[test]
fn rejects_patch_grid_not_divisible_by_merge_size() {
    // 462 / 14 = 33 patches, which cannot be merged in 2x2 groups.
    let error = VisionGrid::from_image_size(462, 462, PATCH_SIZE, SPATIAL_MERGE_SIZE).unwrap_err();

    assert!(matches!(error, Error::ImageProcessing { .. }));
}

#[test]
fn rounds_up_to_patch_grid_stride() {
    assert_eq!(patch_grid_stride(14, 2), 28);
    assert_eq!(ceil_to_multiple(0, 28), 0);
    assert_eq!(ceil_to_multiple(28, 28), 28);
    assert_eq!(ceil_to_multiple(29, 28), 56);
    assert_eq!(ceil_to_multiple(1540, 28), 1540);
    assert_eq!(ceil_to_multiple(1000, 28), 1008);
}

#[test]
fn resize_output_size_keeps_size_without_resizing() {
    assert_eq!(resize_output_size(101, 57, false, 5, 5, 14, 2), (101, 57));
}

#[test]
fn resized_sizes_always_form_a_grid() {
    for (scaled_height, scaled_width) in [(1, 1), (27, 29), (333, 1000), (1540, 770)] {
        let (height, width) =
            resize_output_size(scaled_height, scaled_width, true, scaled_height, scaled_width, 14, 2);
        assert_eq!(height % 28, 0);
        assert_eq!(width % 28, 0);
        assert!(height >= scaled_height && height < scaled_height + 28);
        assert!(width >= scaled_width && width < scaled_width + 28);
        assert!(VisionGrid::from_image_size(width, height, 14, 2).is_ok());
    }
}

fn settings() -> ImageSettings {
    ImageSettings {
        patch_size: 14,
        spatial_merge_size: 2,
        size: ImageSize { longest_edge: 1540 },
        data_format: DataFormat::ChannelsFirst,
        mean_channels: 3,
        std_channels: 3,
        std_has_zero: false,
    }
}

fn rejection(settings: ImageSettings) -> String {
    match validate_config(&settings) {
        Err(Error::UnsupportedProcessorConfiguration { reason }) => reason,
        other => panic!("expected unsupported processor configuration, got {other:?}"),
    }
}

#[test]
fn accepts_supported_image_settings() {
    assert!(validate_config(&settings()).is_ok());
}

#[test]
fn rejects_each_unsupported_image_setting() {
    assert_eq!(rejection(ImageSettings { patch_size: 0, ..settings() }), "patch_size must be greater than zero");
    assert_eq!(
        rejection(ImageSettings { spatial_merge_size: 0, ..settings() }),
        "spatial_merge_size must be greater than zero"
    );
    assert_eq!(
        rejection(ImageSettings { patch_size: usize::MAX, ..settings() }),
        "patch_size * spatial_merge_size is too large"
    );
    assert_eq!(
        rejection(ImageSettings { size: ImageSize { longest_edge: 0 }, ..settings() }),
        "longest_edge must be greater than zero"
    );
    assert_eq!(
        rejection(ImageSettings { data_format: DataFormat::ChannelsLast, ..settings() }),
        "only channels_first processor output is supported"
    );
    assert_eq!(
        rejection(ImageSettings { mean_channels: 1, ..settings() }),
        "image_mean must contain three channel values"
    );
    assert_eq!(
        rejection(ImageSettings { std_channels: 4, ..settings() }),
        "image_std must contain three channel values"
    );
    assert_eq!(rejection(ImageSettings { std_has_zero: true, ..settings() }), "image_std values must be non-zero");
}

#[test]
fn decodes_resample_filter_codes() {
    assert_eq!(ResampleFilter::from_code(3), Some(ResampleFilter::Bicubic));
    assert_eq!(ResampleFilter::from_code(2), None);
}

fn no_fields() -> ProcessorFields {
    ProcessorFields {
        patch_size: None,
        spatial_merge_size: None,
        image_token: None,
        image_break_token: None,
        image_end_token: None,
    }
}

#[test]
fn top_level_processor_fields_win_over_nested_ones() {
    let top = ProcessorFields {
        patch_size: Some(16),
        spatial_merge_size: Some(2),
        image_token: Some("[IMG]".to_owned()),
        ..no_fields()
    };
    let nested = ProcessorFields {
        spatial_merge_size: Some(4),
        image_token: Some("<img>".to_owned()),
        image_break_token: Some("[IMG_BREAK]".to_owned()),
        image_end_token: Some("[IMG_END]".to_owned()),
        ..no_fields()
    };

    let config = ProcessorConfig::resolve(top, nested, 14).unwrap();

    assert_eq!(config.patch_size(), 16);
    assert_eq!(config.spatial_merge_size(), 2);
    assert_eq!(config.image_token(), "[IMG]");
    assert_eq!(config.image_break_token(), "[IMG_BREAK]");
    assert_eq!(config.image_end_token(), "[IMG_END]");
}

#[test]
fn patch_size_falls_back_to_image_processor() {
    let nested = ProcessorFields {
        spatial_merge_size: Some(2),
        image_token: Some("<|image_pad|>".to_owned()),
        image_break_token: Some("<|vision_pad|>".to_owned()),
        image_end_token: Some("<|vision_end|>".to_owned()),
        ..no_fields()
    };

    let config = ProcessorConfig::resolve(no_fields(), nested, 14).unwrap();

    assert_eq!(config.patch_size(), 14);
}

#[test]
fn reports_first_missing_processor_field() {
    assert_eq!(ProcessorConfig::resolve(no_fields(), no_fields(), 14), Err(ProcessorField::SpatialMergeSize));
    let partial = ProcessorFields {
        spatial_merge_size: Some(2),
        image_token: Some("<|image_pad|>".to_owned()),
        ..no_fields()
    };
    let error = ProcessorConfig::resolve(partial, no_fields(), 14).unwrap_err();
    assert_eq!(error, ProcessorField::ImageBreakToken);
    assert_eq!(error.name(), "image_break_token");
}

#[test]
fn resizes_to_patch_aligned_longest_edge() {
    // A 10x5 image with `longest_edge` 4 scales by 2.5 to 4x2 pixels; patch
    // size 2 with merge factor 1 keeps that patch-aligned size.
    assert_eq!(resize_output_size(5, 10, true, 2, 4, 2, 1), (2, 4));
}
