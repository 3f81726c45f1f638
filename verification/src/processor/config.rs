//! Processor settings from `processor_config.json` and the integer rules
//! applied to them: field resolution, validation and patch alignment.

use vstd::prelude::*;

use crate::processor::grid::grid_compatible;
use crate::Error;

verus! {

/// Target image sizing policy for the image processor.
#[derive(Debug, Clone, Copy, PartialEq, Eq)]
pub struct ImageSize {
    /// Longest image edge after resizing.
    pub longest_edge: usize,
}

/// Tensor channel layout emitted by the image processor.
#[derive(Debug, Clone, Copy, PartialEq, Eq)]
pub enum DataFormat {
    /// Channels-first layout, `(channels, height, width)`.
    ChannelsFirst,
    /// Channels-last layout, `(height, width, channels)`.
    ChannelsLast,
}

/// Image resize filters encoded by Hugging Face processor configuration.
#[derive(Debug, Clone, Copy, PartialEq, Eq)]
pub enum ResampleFilter {
    /// Bicubic resize filter, encoded as `3`.
    Bicubic,
}

impl ResampleFilter {
    /// The filter encoded by `code` in a processor configuration, if supported.
    pub fn from_code(code: u8) -> (r: Option<ResampleFilter>)
        ensures
            r is Some <==> code == 3,
            r matches Some(f) ==> f is Bicubic,
    {
        if code == 3 {
            Some(ResampleFilter::Bicubic)
        } else {
            None
        }
    }
}

/// Number of colour channels produced by preprocessing.
pub const CHANNELS: usize = 3;

/// Processor fields that may appear at the top level of
/// `processor_config.json` or inside its `image_processor` object.
#[derive(Debug, Clone, PartialEq, Eq)]
pub struct ProcessorFields {
    /// Vision patch size in pixels.
    pub patch_size: Option<usize>,
    /// Spatial merge factor.
    pub spatial_merge_size: Option<usize>,
    /// Token inserted for each vision feature.
    pub image_token: Option<String>,
    /// Token separating rows of vision features.
    pub image_break_token: Option<String>,
    /// Token terminating the vision features.
    pub image_end_token: Option<String>,
}

/// A processor field that is required but present in neither place.
#[derive(Debug, Clone, Copy, PartialEq, Eq)]
pub enum ProcessorField {
    /// `spatial_merge_size`.
    SpatialMergeSize,
    /// `image_token`.
    ImageToken,
    /// `image_break_token`.
    ImageBreakToken,
    /// `image_end_token`.
    ImageEndToken,
}

impl ProcessorField {
    /// The JSON key of the field.
    pub fn name(self) -> (s: &'static str)
        ensures
            self is SpatialMergeSize ==> s@ == "spatial_merge_size"@,
            self is ImageToken ==> s@ == "image_token"@,
            self is ImageBreakToken ==> s@ == "image_break_token"@,
            self is ImageEndToken ==> s@ == "image_end_token"@,
    {
        match self {
            ProcessorField::SpatialMergeSize => "spatial_merge_size",
            ProcessorField::ImageToken => "image_token",
            ProcessorField::ImageBreakToken => "image_break_token",
            ProcessorField::ImageEndToken => "image_end_token",
        }
    }
}

/// The first of two optional values that is present.
pub open spec fn first_present<A>(preferred: Option<A>, fallback: Option<A>) -> Option<A> {
    if preferred is Some {
        preferred
    } else {
        fallback
    }
}

fn pick<A>(preferred: Option<A>, fallback: Option<A>) -> (r: Option<A>)
    ensures
        r == first_present(preferred, fallback),
{
    match preferred {
        Some(v) => Some(v),
        None => fallback,
    }
}

/// Processor metadata from `processor_config.json` (image preprocessing
/// settings excluded).
#[derive(Debug, Clone, PartialEq, Eq)]
pub struct ProcessorConfig {
    patch_size: usize,
    spatial_merge_size: usize,
    image_token: String,
    image_break_token: String,
    image_end_token: String,
}

/// Abstract value of a [`ProcessorConfig`].
pub struct ProcessorConfigView {
    pub patch_size: nat,
    pub spatial_merge_size: nat,
    pub image_token: Seq<char>,
    pub image_break_token: Seq<char>,
    pub image_end_token: Seq<char>,
}

impl View for ProcessorConfig {
    type V = ProcessorConfigView;

    closed spec fn view(&self) -> ProcessorConfigView {
        ProcessorConfigView {
            patch_size: self.patch_size as nat,
            spatial_merge_size: self.spatial_merge_size as nat,
            image_token: self.image_token@,
            image_break_token: self.image_break_token@,
            image_end_token: self.image_end_token@,
        }
    }
}

/// The first required field that neither the top level nor the nested
/// `image_processor` object provides.
pub open spec fn missing_processor_field(top: ProcessorFields, nested: ProcessorFields) -> Option<ProcessorField> {
    if first_present(top.spatial_merge_size, nested.spatial_merge_size) is None {
        Some(ProcessorField::SpatialMergeSize)
    } else if first_present(top.image_token, nested.image_token) is None {
        Some(ProcessorField::ImageToken)
    } else if first_present(top.image_break_token, nested.image_break_token) is None {
        Some(ProcessorField::ImageBreakToken)
    } else if first_present(top.image_end_token, nested.image_end_token) is None {
        Some(ProcessorField::ImageEndToken)
    } else {
        None
    }
}

impl ProcessorConfig {
    /// Resolves the processor metadata: a top-level field wins over the same
    /// field inside `image_processor`; the patch size falls back to the image
    /// processor's own `patch_size`.
    pub fn resolve(top: ProcessorFields, nested: ProcessorFields, image_processor_patch_size: usize) -> (r: Result<
        ProcessorConfig,
        ProcessorField,
    >)
        ensures
            match missing_processor_field(top, nested) {
                Some(field) => r == Err::<ProcessorConfig, ProcessorField>(field),
                None => r matches Ok(c) && {
                    &&& c@.patch_size == (match top.patch_size {
                        Some(p) => p,
                        None => image_processor_patch_size,
                    })
                    &&& Some(c@.spatial_merge_size as usize) == first_present(top.spatial_merge_size, nested.spatial_merge_size)
                    &&& first_present(top.image_token, nested.image_token) matches Some(t) && c@.image_token == t@
                    &&& first_present(top.image_break_token, nested.image_break_token) matches Some(t) && c@.image_break_token == t@
                    &&& first_present(top.image_end_token, nested.image_end_token) matches Some(t) && c@.image_end_token == t@
                },
            },
    {
        let spatial_merge_size = match pick(top.spatial_merge_size, nested.spatial_merge_size) {
            Some(v) => v,
            None => return Err(ProcessorField::SpatialMergeSize),
        };
        let image_token = match pick(top.image_token, nested.image_token) {
            Some(v) => v,
            None => return Err(ProcessorField::ImageToken),
        };
        let image_break_token = match pick(top.image_break_token, nested.image_break_token) {
            Some(v) => v,
            None => return Err(ProcessorField::ImageBreakToken),
        };
        let image_end_token = match pick(top.image_end_token, nested.image_end_token) {
            Some(v) => v,
            None => return Err(ProcessorField::ImageEndToken),
        };
        let patch_size = match top.patch_size {
            Some(p) => p,
            None => image_processor_patch_size,
        };
        Ok(ProcessorConfig { patch_size, spatial_merge_size, image_token, image_break_token, image_end_token })
    }

    /// Returns the vision encoder patch size.
    pub fn patch_size(&self) -> (r: usize)
        ensures
            r == self@.patch_size,
    {
        self.patch_size
    }

    /// Returns the spatial merge factor applied to the patch grid.
    pub fn spatial_merge_size(&self) -> (r: usize)
        ensures
            r == self@.spatial_merge_size,
    {
        self.spatial_merge_size
    }

    /// Returns the placeholder token representing a single vision feature.
    pub fn image_token(&self) -> (r: &str)
        ensures
            r@ == self@.image_token,
    {
        self.image_token.as_str()
    }

    /// Returns the token separating rows of vision features.
    pub fn image_break_token(&self) -> (r: &str)
        ensures
            r@ == self@.image_break_token,
    {
        self.image_break_token.as_str()
    }

    /// Returns the token marking the end of the vision feature sequence.
    pub fn image_end_token(&self) -> (r: &str)
        ensures
            r@ == self@.image_end_token,
    {
        self.image_end_token.as_str()
    }
}

/// The integer settings of the image processor that preprocessing relies on.
#[derive(Debug, Clone, Copy, PartialEq, Eq)]
pub struct ImageSettings {
    /// Patch size of the image processor.
    pub patch_size: usize,
    /// Spatial merge factor.
    pub spatial_merge_size: usize,
    /// Target sizing policy.
    pub size: ImageSize,
    /// Emitted channel layout.
    pub data_format: DataFormat,
    /// Number of per-channel normalization means.
    pub mean_channels: usize,
    /// Number of per-channel normalization standard deviations.
    pub std_channels: usize,
    /// Whether one of the standard deviations is zero.
    pub std_has_zero: bool,
}

/// The reason the first unsupported setting is rejected, or `None` when the
/// settings are supported.
pub open spec fn settings_issue(s: ImageSettings) -> Option<Seq<char>> {
    if s.patch_size == 0 {
        Some("patch_size must be greater than zero"@)
    } else if s.spatial_merge_size == 0 {
        Some("spatial_merge_size must be greater than zero"@)
    } else if s.patch_size * s.spatial_merge_size > usize::MAX {
        Some("patch_size * spatial_merge_size is too large"@)
    } else if s.size.longest_edge == 0 {
        Some("longest_edge must be greater than zero"@)
    } else if !(s.data_format is ChannelsFirst) {
        Some("only channels_first processor output is supported"@)
    } else if s.mean_channels != CHANNELS {
        Some("image_mean must contain three channel values"@)
    } else if s.std_channels != CHANNELS {
        Some("image_std must contain three channel values"@)
    } else if s.std_has_zero {
        Some("image_std values must be non-zero"@)
    } else {
        None
    }
}

/// Checks that the image processor settings describe supported preprocessing.
pub fn validate_config(settings: &ImageSettings) -> (r: Result<(), Error>)
    ensures
        match settings_issue(*settings) {
            None => r is Ok,
            Some(msg) => r matches Err(Error::UnsupportedProcessorConfiguration { reason }) && reason@ == msg,
        },
{
    let reason = if settings.patch_size == 0 {
        "patch_size must be greater than zero"
    } else if settings.spatial_merge_size == 0 {
        "spatial_merge_size must be greater than zero"
    } else if settings.patch_size.checked_mul(settings.spatial_merge_size).is_none() {
        "patch_size * spatial_merge_size is too large"
    } else if settings.size.longest_edge == 0 {
        "longest_edge must be greater than zero"
    } else if !matches!(settings.data_format, DataFormat::ChannelsFirst) {
        "only channels_first processor output is supported"
    } else if settings.mean_channels != CHANNELS {
        "image_mean must contain three channel values"
    } else if settings.std_channels != CHANNELS {
        "image_std must contain three channel values"
    } else if settings.std_has_zero {
        "image_std values must be non-zero"
    } else {
        return Ok(());
    };
    Err(Error::UnsupportedProcessorConfiguration { reason: reason.to_owned() })
}

/// Pixel side of one merged feature cell: `patch_size * spatial_merge_size`.
pub fn patch_grid_stride(patch_size: usize, spatial_merge_size: usize) -> (r: usize)
    requires
        patch_size * spatial_merge_size <= usize::MAX,
    ensures
        r == patch_size * spatial_merge_size,
{
    patch_size * spatial_merge_size
}

/// The least multiple of `factor` that is at least `value`.
pub open spec fn round_up(value: int, factor: int) -> int {
    (value / factor + if value % factor == 0 { 0int } else { 1int }) * factor
}

/// Rounds `value` up to a multiple of `factor`.
pub fn ceil_to_multiple(value: usize, factor: usize) -> (r: usize)
    requires
        factor > 0,
        round_up(value as int, factor as int) <= usize::MAX,
    ensures
        r == round_up(value as int, factor as int),
{
    let q = value / factor;
    let blocks = if value % factor == 0 {
        q
    } else {
        proof {
            assert(q + 1 <= (q + 1) * factor) by (nonlinear_arith)
                requires
                    factor > 0,
                    q >= 0,
            ;
        }
        q + 1
    };
    blocks * factor
}

/// Properties of rounding up: the result is a multiple of `factor`, at least
/// `value`, and less than `factor` above it.
pub proof fn lemma_round_up(value: int, factor: int)
    requires
        value >= 0,
        factor > 0,
    ensures
        round_up(value, factor) % factor == 0,
        value <= round_up(value, factor) < value + factor,
{
    let q = value / factor;
    let r = value % factor;
    assert(value == q * factor + r && 0 <= r < factor) by (nonlinear_arith)
        requires
            factor > 0,
            q == value / factor,
            r == value % factor,
    ;
    let b: int = q + if r == 0 { 0int } else { 1int };
    assert(round_up(value, factor) == b * factor);
    assert((b * factor) % factor == 0) by (nonlinear_arith)
        requires
            factor > 0,
    ;
    assert(b * factor == q * factor + (if r == 0 { 0int } else { factor })) by (nonlinear_arith)
        requires
            b == q + if r == 0 { 0int } else { 1int },
    ;
}

/// Output size of the resize step. Without resizing the input size is kept;
/// otherwise the downscaled size (`scaled_height` x `scaled_width`) is rounded
/// up to a multiple of the patch grid stride.
pub fn resize_output_size(
    height: usize,
    width: usize,
    do_resize: bool,
    scaled_height: usize,
    scaled_width: usize,
    patch_size: usize,
    spatial_merge_size: usize,
) -> (r: (usize, usize))
    requires
        do_resize ==> {
            &&& patch_size > 0
            &&& spatial_merge_size > 0
            &&& patch_size * spatial_merge_size <= usize::MAX
            &&& round_up(scaled_height as int, patch_size * spatial_merge_size) <= usize::MAX
            &&& round_up(scaled_width as int, patch_size * spatial_merge_size) <= usize::MAX
        },
    ensures
        !do_resize ==> r == (height, width),
        do_resize ==> {
            &&& r.0 == round_up(scaled_height as int, patch_size * spatial_merge_size)
            &&& r.1 == round_up(scaled_width as int, patch_size * spatial_merge_size)
        },
{
    if !do_resize {
        return (height, width);
    }
    let stride = patch_grid_stride(patch_size, spatial_merge_size);
    proof {
        assert(stride > 0) by (nonlinear_arith)
            requires
                patch_size > 0,
                spatial_merge_size > 0,
                stride == patch_size * spatial_merge_size,
        ;
    }
    (ceil_to_multiple(scaled_height, stride), ceil_to_multiple(scaled_width, stride))
}

proof fn lemma_multiple_of_stride(x: int, patch_size: int, merge: int)
    requires
        x >= 0,
        patch_size > 0,
        merge > 0,
    ensures
        round_up(x, patch_size * merge) % patch_size == 0,
        (round_up(x, patch_size * merge) / patch_size) % merge == 0,
{
    let stride = patch_size * merge;
    assert(stride > 0) by (nonlinear_arith)
        requires
            patch_size > 0,
            merge > 0,
            stride == patch_size * merge,
    ;
    let b: int = x / stride + if x % stride == 0 { 0int } else { 1int };
    assert(round_up(x, stride) == b * stride);
    let bm: int = b * merge;
    vstd::arithmetic::mul::lemma_mul_is_associative(b, merge, patch_size);
    vstd::arithmetic::mul::lemma_mul_is_commutative(merge, patch_size);
    assert(b * stride == bm * patch_size);
    if b >= 0 {
        assert(bm >= 0) by (nonlinear_arith)
            requires
                b >= 0,
                merge > 0,
                bm == b * merge,
        ;
    }
    vstd::arithmetic::div_mod::lemma_mod_multiples_basic(bm, patch_size);
    assert(x / stride >= 0) by (nonlinear_arith)
        requires
            x >= 0,
            stride > 0,
    ;
    vstd::arithmetic::div_mod::lemma_div_by_multiple(bm, patch_size);
    vstd::arithmetic::div_mod::lemma_mod_multiples_basic(b, merge);
}

/// Every size produced by resizing can be cut into whole patches that merge
/// into whole feature cells, so [`crate::processor::VisionGrid::from_image_size`]
/// accepts it.
pub proof fn lemma_resized_size_fits_grid(scaled_height: int, scaled_width: int, patch_size: int, merge: int)
    requires
        scaled_height >= 0,
        scaled_width >= 0,
        patch_size > 0,
        merge > 0,
    ensures
        grid_compatible(
            round_up(scaled_width, patch_size * merge),
            round_up(scaled_height, patch_size * merge),
            patch_size,
            merge,
        ),
{
    lemma_multiple_of_stride(scaled_height, patch_size, merge);
    lemma_multiple_of_stride(scaled_width, patch_size, merge);
}

} // verus!
