use vector_store::error::ErrorKind;
use vector_store::error::StoreError;

#[test]
fn every_error_has_its_kind_and_message() {
    let cases = vec![
        (StoreError::Configuration("a".to_string()), ErrorKind::Configuration, "a"),
        (StoreError::Connection("b".to_string()), ErrorKind::Connection, "b"),
        (StoreError::Schema("c".to_string()), ErrorKind::Schema, "c"),
        (StoreError::Embedding("d".to_string()), ErrorKind::Embedding, "d"),
        (StoreError::DimensionMismatch("e".to_string()), ErrorKind::DimensionMismatch, "e"),
        (StoreError::Encoding("f".to_string()), ErrorKind::Encoding, "f"),
        (StoreError::Engine("g".to_string()), ErrorKind::Engine, "g"),
    ];
    for (error, kind, message) in cases {
        assert_eq!(error.kind(), kind);
        assert_eq!(error.message(), message);
    }
}
