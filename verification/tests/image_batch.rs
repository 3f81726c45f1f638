use fast_lightonocr::model::ImageTensor;
use fast_lightonocr::processor::image::pad_image_batch;
use fast_lightonocr::processor::text::{expand_placeholder_ids, image_grid_token_ids};
use fast_lightonocr::processor::VisionGrid;
use fast_lightonocr::Error;

fn image(height: usize, width: usize, base: i32) -> ImageTensor<i32> {
    let data = (0..(3 * height * width) as i32).map(|v| base + v).collect();
    ImageTensor::new(data, 1, 3, height, width).unwrap()
}

#[test]
fn pads_batches_on_the_bottom_and_right() {
    let first = image(2, 2, 100);
    let second = image(1, 3, 200);

    let batch = pad_image_batch(&[first.clone(), second.clone()], 0).unwrap();

    assert_eq!(batch.shape(), (2, 3, 2, 3));
    for (b, source) in [first, second].iter().enumerate() {
        for c in 0..3 {
            for y in 0..2 {
                for x in 0..3 {
                    let expected = source.get(0, c, y, x).unwrap_or(0);
                    assert_eq!(batch.get(b, c, y, x), Some(expected));
                }
            }
        }
    }
    assert_eq!(batch.get(0, 0, 0, 2), Some(0));
    assert_eq!(batch.get(1, 2, 1, 0), Some(0));
    assert_eq!(batch.get(1, 2, 0, 2), Some(208));
}

#[test]
fn a_single_image_is_kept_as_is() {
    let single = image(2, 3, 0);

    let batch = pad_image_batch(std::slice::from_ref(&single), -1).unwrap();

    assert_eq!(batch.shape(), (1, 3, 2, 3));
    assert_eq!(batch.as_slice(), single.as_slice());
}

#[test]
fn an_empty_batch_is_rejected() {
    match pad_image_batch::<f32>(&[], 0.0) {
        Err(Error::ImageProcessing { reason }) => assert_eq!(reason, "at least one image is required"),
        other => panic!("expected image processing error, got {other:?}"),
    }
}

#[test]
fn expanded_prompt_has_one_image_token_per_feature() {
    let grid = VisionGrid { width: 4, height: 3 };
    let grid_ids = image_grid_token_ids(9, 8, 7, grid);

    let expanded = expand_placeholder_ids(&[1, 9, 2], 9, &grid_ids).unwrap();

    assert_eq!(expanded.iter().filter(|&&id| id == 9).count(), grid.feature_count());
    assert_eq!(expanded.len(), 3 - 1 + grid.feature_count() + grid.height);
}
