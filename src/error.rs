use vstd::prelude::*;

verus! {

/// Status codes of the kernel's `ManifoldError` enumeration, in the order of its C header.
pub const MANIFOLD_NO_ERROR: u32 = 0;
pub const MANIFOLD_NON_FINITE_VERTEX: u32 = 1;
pub const MANIFOLD_NOT_MANIFOLD: u32 = 2;
pub const MANIFOLD_VERTEX_INDEX_OUT_OF_BOUNDS: u32 = 3;
pub const MANIFOLD_PROPERTIES_WRONG_LENGTH: u32 = 4;
pub const MANIFOLD_MISSING_POSITION_PROPERTIES: u32 = 5;
pub const MANIFOLD_MERGE_VECTORS_DIFFERENT_LENGTHS: u32 = 6;
pub const MANIFOLD_MERGE_INDEX_OUT_OF_BOUNDS: u32 = 7;
pub const MANIFOLD_TRANSFORM_WRONG_LENGTH: u32 = 8;
pub const MANIFOLD_RUN_INDEX_WRONG_LENGTH: u32 = 9;
pub const MANIFOLD_FACE_ID_WRONG_LENGTH: u32 = 10;
pub const MANIFOLD_INVALID_CONSTRUCTION: u32 = 11;

/// The closed taxonomy of kernel status codes, with an escape hatch for codes
/// that a newer kernel may add.
#[derive(Debug, Clone, Copy, PartialEq, Eq, Structural, PartialOrd, Ord)]
#[non_exhaustive]
pub enum Error {
    NoError,
    NonFiniteVertex,
    NotManifold,
    VertexIndexOutOfBounds,
    PropertiesWrongLength,
    MissingPositionProperties,
    MergeVectorsDifferentLengths,
    MergeIndexOutOfBounds,
    TransformWrongLength,
    RunIndexWrongLength,
    FaceIdWrongLength,
    InvalidConstruction,
    Unknown(u32),
}

/// The error that a kernel status code stands for.
pub open spec fn error_of_code(code: u32) -> Error {
    match code {
        0 => Error::NoError,
        1 => Error::NonFiniteVertex,
        2 => Error::NotManifold,
        3 => Error::VertexIndexOutOfBounds,
        4 => Error::PropertiesWrongLength,
        5 => Error::MissingPositionProperties,
        6 => Error::MergeVectorsDifferentLengths,
        7 => Error::MergeIndexOutOfBounds,
        8 => Error::TransformWrongLength,
        9 => Error::RunIndexWrongLength,
        10 => Error::FaceIdWrongLength,
        11 => Error::InvalidConstruction,
        _ => Error::Unknown(code),
    }
}

/// The status code that an error stands for; `Unknown` keeps the raw code.
pub open spec fn code_of_error(e: Error) -> u32 {
    match e {
        Error::NoError => 0,
        Error::NonFiniteVertex => 1,
        Error::NotManifold => 2,
        Error::VertexIndexOutOfBounds => 3,
        Error::PropertiesWrongLength => 4,
        Error::MissingPositionProperties => 5,
        Error::MergeVectorsDifferentLengths => 6,
        Error::MergeIndexOutOfBounds => 7,
        Error::TransformWrongLength => 8,
        Error::RunIndexWrongLength => 9,
        Error::FaceIdWrongLength => 10,
        Error::InvalidConstruction => 11,
        Error::Unknown(v) => v,
    }
}

impl From<u32> for Error {
    fn from(value: u32) -> (r: Error) {
        match value {
            MANIFOLD_NO_ERROR => Error::NoError,
            MANIFOLD_NON_FINITE_VERTEX => Error::NonFiniteVertex,
            MANIFOLD_NOT_MANIFOLD => Error::NotManifold,
            MANIFOLD_VERTEX_INDEX_OUT_OF_BOUNDS => Error::VertexIndexOutOfBounds,
            MANIFOLD_PROPERTIES_WRONG_LENGTH => Error::PropertiesWrongLength,
            MANIFOLD_MISSING_POSITION_PROPERTIES => Error::MissingPositionProperties,
            MANIFOLD_MERGE_VECTORS_DIFFERENT_LENGTHS => Error::MergeVectorsDifferentLengths,
            MANIFOLD_MERGE_INDEX_OUT_OF_BOUNDS => Error::MergeIndexOutOfBounds,
            MANIFOLD_TRANSFORM_WRONG_LENGTH => Error::TransformWrongLength,
            MANIFOLD_RUN_INDEX_WRONG_LENGTH => Error::RunIndexWrongLength,
            MANIFOLD_FACE_ID_WRONG_LENGTH => Error::FaceIdWrongLength,
            MANIFOLD_INVALID_CONSTRUCTION => Error::InvalidConstruction,
            value => Error::Unknown(value),
        }
    }
}

impl vstd::std_specs::convert::FromSpecImpl<u32> for Error {
    open spec fn obeys_from_spec() -> bool {
        true
    }

    open spec fn from_spec(v: u32) -> Error {
        error_of_code(v)
    }
}

/// Status codes that can tell whether they report a failure.
pub trait ManifoldErrorExt {
    spec fn spec_is_error(&self) -> bool;

    fn is_error(&self) -> (r: bool)
        ensures
            r == self.spec_is_error(),
    ;
}

impl ManifoldErrorExt for u32 {
    /// Every code but the one for "no error" reports a failure.
    open spec fn spec_is_error(&self) -> bool {
        *self != MANIFOLD_NO_ERROR
    }

    fn is_error(&self) -> (r: bool) {
        *self != MANIFOLD_NO_ERROR
    }
}

/// Passes `value` on when the kernel reported `status` as no error for it,
/// and turns any other status into the matching typed error.
pub fn check_error<T>(value: T, status: u32) -> (r: Result<T, Error>)
    ensures
        status == MANIFOLD_NO_ERROR ==> r == Ok::<T, Error>(value),
        status != MANIFOLD_NO_ERROR ==> r == Err::<T, Error>(error_of_code(status)),
{
    match Error::from(status) {
        Error::NoError => Ok(value),
        e => Err(e),
    }
}

/// A status code and the error it maps to agree on whether something failed,
/// and the mapping loses nothing: the code can be read back from the error.
pub proof fn lemma_error_code_round_trip(code: u32)
    ensures
        code_of_error(error_of_code(code)) == code,
        (error_of_code(code) == Error::NoError) == !code.spec_is_error(),
        (error_of_code(code) is Unknown) <==> code > MANIFOLD_INVALID_CONSTRUCTION,
{
}

} // verus!
