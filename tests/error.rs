use manifold3d::error::{
    MANIFOLD_FACE_ID_WRONG_LENGTH, MANIFOLD_INVALID_CONSTRUCTION, MANIFOLD_MERGE_INDEX_OUT_OF_BOUNDS,
    MANIFOLD_MERGE_VECTORS_DIFFERENT_LENGTHS, MANIFOLD_MISSING_POSITION_PROPERTIES,
    MANIFOLD_NON_FINITE_VERTEX, MANIFOLD_NOT_MANIFOLD, MANIFOLD_NO_ERROR,
    MANIFOLD_PROPERTIES_WRONG_LENGTH, MANIFOLD_RUN_INDEX_WRONG_LENGTH,
    MANIFOLD_TRANSFORM_WRONG_LENGTH, MANIFOLD_VERTEX_INDEX_OUT_OF_BOUNDS,
};
use manifold3d::{check_error, Error, ManifoldErrorExt};

#[test]
fn test_error_from_u32() {
    // Checks whether the error discrimination works at all
    assert_eq!(Error::from(MANIFOLD_NO_ERROR), Error::NoError);
    assert_eq!(Error::from(MANIFOLD_NON_FINITE_VERTEX), Error::NonFiniteVertex);
}

#[test]
fn error_from_every_known_code() {
    let expected = [
        (MANIFOLD_NO_ERROR, Error::NoError),
        (MANIFOLD_NON_FINITE_VERTEX, Error::NonFiniteVertex),
        (MANIFOLD_NOT_MANIFOLD, Error::NotManifold),
        (MANIFOLD_VERTEX_INDEX_OUT_OF_BOUNDS, Error::VertexIndexOutOfBounds),
        (MANIFOLD_PROPERTIES_WRONG_LENGTH, Error::PropertiesWrongLength),
        (MANIFOLD_MISSING_POSITION_PROPERTIES, Error::MissingPositionProperties),
        (MANIFOLD_MERGE_VECTORS_DIFFERENT_LENGTHS, Error::MergeVectorsDifferentLengths),
        (MANIFOLD_MERGE_INDEX_OUT_OF_BOUNDS, Error::MergeIndexOutOfBounds),
        (MANIFOLD_TRANSFORM_WRONG_LENGTH, Error::TransformWrongLength),
        (MANIFOLD_RUN_INDEX_WRONG_LENGTH, Error::RunIndexWrongLength),
        (MANIFOLD_FACE_ID_WRONG_LENGTH, Error::FaceIdWrongLength),
        (MANIFOLD_INVALID_CONSTRUCTION, Error::InvalidConstruction),
    ];
    for (i, (code, error)) in expected.iter().enumerate() {
        assert_eq!(*code, i as u32);
        assert_eq!(Error::from(*code), *error);
    }
}

#[test]
fn error_from_unknown_code_keeps_it() {
    assert_eq!(Error::from(12u32), Error::Unknown(12));
    assert_eq!(Error::from(u32::MAX), Error::Unknown(u32::MAX));
}

#[test]
fn status_is_error_only_when_not_zero() {
    assert!(!MANIFOLD_NO_ERROR.is_error());
    assert!(MANIFOLD_NOT_MANIFOLD.is_error());
    assert!(12u32.is_error());
}

#[test]
fn check_error_passes_value_on_no_error() {
    assert_eq!(check_error("solid", MANIFOLD_NO_ERROR), Ok("solid"));
}

#[test]
fn check_error_reports_each_failure() {
    assert_eq!(check_error(7u8, MANIFOLD_NOT_MANIFOLD), Err(Error::NotManifold));
    assert_eq!(
        check_error(7u8, MANIFOLD_INVALID_CONSTRUCTION),
        Err(Error::InvalidConstruction)
    );
    assert_eq!(check_error(7u8, 40), Err(Error::Unknown(40)));
}
