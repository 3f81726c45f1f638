//! Metadata of ONNX model inputs and outputs, and the checks that a loaded
//! model matches the tensor contract the pipeline relies on.
//!
//! Sessions are created outside the library; their input and output metadata
//! is handed in as [`Outlet`] values.

use vstd::prelude::*;

use crate::util::text::{decimal, with_number, with_text};
use crate::Error;

verus! {

/// Element types of ONNX tensors that the contracts mention.
#[derive(Debug, Clone, Copy, PartialEq, Eq, Structural)]
pub enum ElementType {
    /// 32-bit floating point.
    Float32,
    /// 64-bit signed integer.
    Int64,
    /// Boolean.
    Bool,
    /// Any other element type.
    Other,
}

/// Type of a model input or output.
#[derive(Debug, Clone, PartialEq, Eq)]
pub enum OutletType {
    /// A tensor with an element type and a shape; negative dimensions are dynamic.
    Tensor { ty: ElementType, shape: Vec<i64> },
    /// A sequence, map or other non-tensor value.
    NonTensor,
}

/// Name and type of one model input or output.
#[derive(Debug, Clone, PartialEq, Eq)]
pub struct Outlet {
    /// Name of the input or output.
    pub name: String,
    /// Type of the input or output.
    pub value_type: OutletType,
}

/// The model whose contract is checked; it selects the error variant.
#[derive(Debug, Clone, Copy, PartialEq, Eq, Structural)]
pub enum ModelKind {
    /// The merged decoder.
    Decoder,
    /// The token embedding model.
    Embedding,
    /// The vision encoder.
    Vision,
}

/// Whether `e` is the "invalid model" error of this model kind.
pub open spec fn is_invalid_model_error(kind: ModelKind, e: Error) -> bool {
    match kind {
        ModelKind::Decoder => e is InvalidDecoderModel,
        ModelKind::Embedding => e is InvalidEmbeddingModel,
        ModelKind::Vision => e is InvalidVisionModel,
    }
}

/// Whether `e` is the "invalid model" error of this model kind with message `message`.
pub open spec fn invalid_model_with(kind: ModelKind, e: Error, message: Seq<char>) -> bool {
    match kind {
        ModelKind::Decoder => e matches Error::InvalidDecoderModel { reason } && reason@ == message,
        ModelKind::Embedding => e matches Error::InvalidEmbeddingModel { reason } && reason@ == message,
        ModelKind::Vision => e matches Error::InvalidVisionModel { reason } && reason@ == message,
    }
}

/// The "invalid model" error of this model kind.
pub fn invalid_model(kind: ModelKind, reason: String) -> (e: Error)
    ensures
        is_invalid_model_error(kind, e),
        invalid_model_with(kind, e, reason@),
{
    match kind {
        ModelKind::Decoder => Error::InvalidDecoderModel { reason },
        ModelKind::Embedding => Error::InvalidEmbeddingModel { reason },
        ModelKind::Vision => Error::InvalidVisionModel { reason },
    }
}

/// Whether a tensor type has the expected element type, one of the expected
/// ranks, and the expected size on each statically known axis.
pub open spec fn tensor_metadata_ok(
    value_type: OutletType,
    expected_type: ElementType,
    expected_ranks: Seq<usize>,
    static_dims: Seq<(usize, usize)>,
) -> bool {
    match value_type {
        OutletType::NonTensor => false,
        OutletType::Tensor { ty, shape } => {
            &&& ty == expected_type
            &&& expected_ranks.contains(shape@.len() as usize)
            &&& forall|j: int| 0 <= j < static_dims.len() ==> {
                &&& (#[trigger] static_dims[j]).0 < shape@.len()
                &&& shape@[static_dims[j].0 as int] >= 0 ==> (shape@[static_dims[j].0 as int] as usize)
                    == static_dims[j].1
            }
        },
    }
}

/// Whether `i` is the first position of an outlet named `name`.
pub open spec fn first_named(outlets: Seq<Outlet>, name: Seq<char>, i: int) -> bool {
    &&& 0 <= i < outlets.len()
    &&& outlets[i].name@ == name
    &&& forall|j: int| 0 <= j < i ==> (#[trigger] outlets[j]).name@ != name
}

/// Whether some outlet is named `name`.
pub open spec fn has_named(outlets: Seq<Outlet>, name: Seq<char>) -> bool {
    exists|i: int| 0 <= i < outlets.len() && (#[trigger] outlets[i]).name@ == name
}

/// Whether the first outlet named `name` exists and has the expected tensor type.
pub open spec fn named_tensor_ok(
    outlets: Seq<Outlet>,
    name: Seq<char>,
    expected_type: ElementType,
    expected_ranks: Seq<usize>,
    static_dims: Seq<(usize, usize)>,
) -> bool {
    exists|i: int| #[trigger] first_named(outlets, name, i)
        && tensor_metadata_ok(outlets[i].value_type, expected_type, expected_ranks, static_dims)
}

/// Text equality.
pub fn text_eq(a: &str, b: &str) -> (r: bool)
    ensures
        r == (a@ == b@),
{
    let x = a.to_owned();
    let y = b.to_owned();
    x == y
}

/// Position of the first outlet named `name`.
pub fn find_named(outlets: &[Outlet], name: &str) -> (r: Option<usize>)
    ensures
        r matches Some(i) ==> first_named(outlets@, name@, i as int),
        r is None ==> !has_named(outlets@, name@),
{
    let mut i: usize = 0;
    while i < outlets.len()
        invariant
            i <= outlets@.len(),
            forall|j: int| 0 <= j < i ==> (#[trigger] outlets@[j]).name@ != name@,
        decreases outlets@.len() - i,
    {
        if text_eq(outlets[i].name.as_str(), name) {
            return Some(i);
        }
        i += 1;
    }
    None
}

/// How an element type is named in messages.
pub open spec fn element_type_text(ty: ElementType) -> Seq<char> {
    match ty {
        ElementType::Float32 => "float32"@,
        ElementType::Int64 => "int64"@,
        ElementType::Bool => "bool"@,
        ElementType::Other => "another element type"@,
    }
}

fn element_type_name(ty: ElementType) -> (s: &'static str)
    ensures
        s@ == element_type_text(ty),
{
    match ty {
        ElementType::Float32 => "float32",
        ElementType::Int64 => "int64",
        ElementType::Bool => "bool",
        ElementType::Other => "another element type",
    }
}

/// Whether static dimension `j` is missing from `shape` or has another size.
pub open spec fn static_dim_mismatch(shape: Seq<i64>, static_dims: Seq<(usize, usize)>, j: int) -> bool {
    static_dims[j].0 >= shape.len() || (shape[static_dims[j].0 as int] >= 0
        && shape[static_dims[j].0 as int] as usize != static_dims[j].1)
}

/// The first static dimension that `shape` does not have.
pub open spec fn first_static_mismatch(shape: Seq<i64>, static_dims: Seq<(usize, usize)>) -> int {
    choose|j: int| 0 <= j < static_dims.len() && static_dim_mismatch(shape, static_dims, j)
        && forall|q: int| 0 <= q < j ==> !static_dim_mismatch(shape, static_dims, q)
}

/// The message given for a tensor type that breaks the contract: the first
/// check that fails, and for the static dimensions the first one missed.
pub open spec fn tensor_metadata_failure(
    value_type: OutletType,
    name: Seq<char>,
    expected_type: ElementType,
    expected_ranks: Seq<usize>,
    static_dims: Seq<(usize, usize)>,
) -> Seq<char> {
    match value_type {
        OutletType::NonTensor => "`"@ + name + "` is not a tensor"@,
        OutletType::Tensor { ty, shape } => if ty != expected_type {
            "`"@ + name + "` has type "@ + element_type_text(ty) + ", expected "@ + element_type_text(expected_type)
        } else if !expected_ranks.contains(shape@.len() as usize) {
            "`"@ + name + "` has rank "@ + (""@ + decimal(shape@.len()) + ", which is not an expected rank"@)
        } else {
            let j = first_static_mismatch(shape@, static_dims);
            let (axis, expected) = static_dims[j];
            if axis >= shape@.len() {
                "`"@ + name + "` is missing static dimension axis "@ + (""@ + decimal(axis as nat) + ""@)
            } else {
                "`"@ + name + "` dimension "@ + (""@ + decimal(axis as nat) + " does not have the expected size "@
                    + decimal(expected as nat) + ""@)
            }
        },
    }
}

proof fn lemma_first_static_mismatch(shape: Seq<i64>, static_dims: Seq<(usize, usize)>, k: int)
    requires
        0 <= k < static_dims.len(),
        static_dim_mismatch(shape, static_dims, k),
        forall|q: int| 0 <= q < k ==> !static_dim_mismatch(shape, static_dims, q),
    ensures
        first_static_mismatch(shape, static_dims) == k,
{
    let j = first_static_mismatch(shape, static_dims);
    assert(0 <= j < static_dims.len() && static_dim_mismatch(shape, static_dims, j)
        && forall|q: int| 0 <= q < j ==> !static_dim_mismatch(shape, static_dims, q));
    if j < k {
        assert(!static_dim_mismatch(shape, static_dims, j));
    } else if k < j {
        assert(!static_dim_mismatch(shape, static_dims, k));
    }
}

/// Checks the element type, rank and static dimensions of a model input or
/// output.
pub fn validate_tensor_metadata(
    kind: ModelKind,
    value_type: &OutletType,
    name: &str,
    expected_type: ElementType,
    expected_ranks: &[usize],
    static_dims: &[(usize, usize)],
) -> (r: Result<(), Error>)
    ensures
        r is Ok <==> tensor_metadata_ok(*value_type, expected_type, expected_ranks@, static_dims@),
        r matches Err(e) ==> is_invalid_model_error(kind, e) && invalid_model_with(kind, e,
            tensor_metadata_failure(*value_type, name@, expected_type, expected_ranks@, static_dims@)),
{
    let (ty, shape) = match value_type {
        OutletType::Tensor { ty, shape } => (*ty, shape),
        OutletType::NonTensor => {
            return Err(invalid_model(kind, with_text("`", name, "` is not a tensor")));
        },
    };
    if ty != expected_type {
        let mut reason = with_text("`", name, "` has type ");
        reason.append(element_type_name(ty));
        reason.append(", expected ");
        reason.append(element_type_name(expected_type));
        return Err(invalid_model(kind, reason));
    }
    let rank = shape.len();
    let mut rank_ok = false;
    let mut k: usize = 0;
    while k < expected_ranks.len()
        invariant
            k <= expected_ranks@.len(),
            rank == shape@.len(),
            rank_ok == (exists|m: int| 0 <= m < k && expected_ranks@[m] == rank),
        decreases expected_ranks@.len() - k,
    {
        if expected_ranks[k] == rank {
            rank_ok = true;
        }
        k += 1;
    }
    if !rank_ok {
        proof {
            assert forall|m: int| 0 <= m < expected_ranks@.len() implies expected_ranks@[m] != rank by {}
        }
        let mut reason = with_text("`", name, "` has rank ");
        reason.append(with_number("", rank as u64, ", which is not an expected rank").as_str());
        return Err(invalid_model(kind, reason));
    }
    proof {
        let m = choose|m: int| 0 <= m < expected_ranks@.len() && expected_ranks@[m] == rank;
        assert(expected_ranks@.contains(rank));
    }
    let mut j: usize = 0;
    while j < static_dims.len()
        invariant
            j <= static_dims@.len(),
            rank == shape@.len(),
            *value_type matches OutletType::Tensor { ty: t, shape: s } && t == ty && s@ == shape@,
            forall|q: int| 0 <= q < j ==> {
                &&& (#[trigger] static_dims@[q]).0 < shape@.len()
                &&& shape@[static_dims@[q].0 as int] >= 0 ==> (shape@[static_dims@[q].0 as int] as usize)
                    == static_dims@[q].1
            },
            ty == expected_type,
            expected_ranks@.contains(rank),
        decreases static_dims@.len() - j,
    {
        let (axis, expected) = static_dims[j];
        assert(static_dims@[j as int] == (axis, expected));
        proof {
            assert forall|q: int| 0 <= q < j implies !static_dim_mismatch(shape@, static_dims@, q) by {
                assert(static_dims@[q].0 < shape@.len());
            }
            if static_dim_mismatch(shape@, static_dims@, j as int) {
                lemma_first_static_mismatch(shape@, static_dims@, j as int);
            }
        }
        if axis >= rank {
            let mut reason = with_text("`", name, "` is missing static dimension axis ");
            reason.append(with_number("", axis as u64, "").as_str());
            return Err(invalid_model(kind, reason));
        }
        let actual = shape[axis];
        assert(actual == shape@[axis as int]);
        if actual >= 0 && actual as usize != expected {
            let mut reason = with_text("`", name, "` dimension ");
            reason.append(with_two_numbers_text(axis as u64, expected as u64).as_str());
            return Err(invalid_model(kind, reason));
        }
        j += 1;
    }
    Ok(())
}

fn with_two_numbers_text(axis: u64, expected: u64) -> (s: String)
    ensures
        s@ == ""@ + decimal(axis as nat) + " does not have the expected size "@ + decimal(expected as nat) + ""@,
{
    crate::util::text::with_two_numbers("", axis, " does not have the expected size ", expected, "")
}

/// The position of the first outlet named `name`.
pub open spec fn first_named_index(outlets: Seq<Outlet>, name: Seq<char>) -> int {
    choose|i: int| first_named(outlets, name, i)
}

/// The message given when the first outlet named `name` is missing or has
/// another tensor type.
pub open spec fn named_tensor_failure(
    outlets: Seq<Outlet>,
    name: Seq<char>,
    expected_type: ElementType,
    expected_ranks: Seq<usize>,
    static_dims: Seq<(usize, usize)>,
) -> Seq<char> {
    if !has_named(outlets, name) {
        "missing `"@ + name + "` tensor"@
    } else {
        tensor_metadata_failure(outlets[first_named_index(outlets, name)].value_type, name, expected_type,
            expected_ranks, static_dims)
    }
}

/// Finds the first outlet named `name` and checks its tensor type.
pub fn validate_named_tensor(
    kind: ModelKind,
    outlets: &[Outlet],
    name: &str,
    expected_type: ElementType,
    expected_ranks: &[usize],
    static_dims: &[(usize, usize)],
) -> (r: Result<(), Error>)
    ensures
        r is Ok <==> named_tensor_ok(outlets@, name@, expected_type, expected_ranks@, static_dims@),
        r matches Err(e) ==> is_invalid_model_error(kind, e) && invalid_model_with(kind, e,
            named_tensor_failure(outlets@, name@, expected_type, expected_ranks@, static_dims@)),
{
    let index = match find_named(outlets, name) {
        Some(i) => i,
        None => {
            proof {
                assert forall|i: int| !first_named(outlets@, name@, i) by {
                    if first_named(outlets@, name@, i) {
                        assert(outlets@[i].name@ == name@);
                    }
                }
            }
            return Err(invalid_model(kind, with_text("missing `", name, "` tensor")));
        },
    };
    let r = validate_tensor_metadata(kind, &outlets[index].value_type, name, expected_type, expected_ranks, static_dims);
    proof {
        assert(has_named(outlets@, name@)) by {
            assert(outlets@[index as int].name@ == name@);
        }
        assert forall|i: int| #[trigger] first_named(outlets@, name@, i) implies i == index by {
            if i < index {
                assert(outlets@[i].name@ != name@);
            } else if i > index {
                assert(outlets@[index as int].name@ != name@);
            }
        }
        assert(first_named(outlets@, name@, first_named_index(outlets@, name@)));
    }
    r
}

} // verus!
