use entity_store::error::ApiError;
use entity_store::id::ObjectId;

#[test]
fn parse_and_render_round_trip() {
    let id = ObjectId::parse_str("000000000000000000000001").expect("must parse");
    assert_eq!(id.to_hex(), "000000000000000000000001");

    let id = ObjectId::parse_str("0123456789abcdef01234567").expect("must parse");
    assert_eq!(id.to_hex(), "0123456789abcdef01234567");
}

#[test]
fn parse_accepts_uppercase_and_renders_lowercase() {
    let upper = ObjectId::parse_str("FFFFFFFFFFFFFFFFFFFFFFFF").expect("must parse");
    let lower = ObjectId::parse_str("ffffffffffffffffffffffff").expect("must parse");
    assert_eq!(upper, lower);
    assert_eq!(upper.to_hex(), "ffffffffffffffffffffffff");
}

#[test]
fn parse_rejects_wrong_length_and_bad_digits() {
    // Too short, too long, a digit out of the hex range, and empty.
    for s in ["0123456789abcdef0123456", "0123456789abcdef012345678", "0123456789abcdefg1234567",
        ""] {
        match ObjectId::parse_str(s) {
            Err(e @ ApiError::BadRequest(_)) => {
                assert_eq!(e.message(), "Invalid ID format");
                assert_eq!(e.status_code(), 400);
            },
            _ => panic!("{:?} must be rejected as a client fault", s),
        }
    }
}

#[test]
fn distinct_values_compare_unequal() {
    let a = ObjectId::parse_str("000000000000000000000001").expect("must parse");
    let b = ObjectId::parse_str("000000000000000000000002").expect("must parse");
    assert_ne!(a, b);
    assert!(a.equals(&a));
    assert!(!a.equals(&b));
}

#[test]
fn error_status_mapping() {
    assert_eq!(ApiError::NotFound.status_code(), 404);
    assert_eq!(ApiError::BadRequest("x".to_string()).status_code(), 400);
    assert_eq!(ApiError::Internal("x".to_string()).status_code(), 500);
    assert_eq!(ApiError::StoreFailure("x".to_string()).status_code(), 500);
    assert_eq!(ApiError::EncodingFailure("x".to_string()).status_code(), 500);
}

#[test]
fn error_messages() {
    assert_eq!(ApiError::NotFound.message(), "Resource not found");
    assert_eq!(ApiError::BadRequest("why".to_string()).message(), "why");
    assert_eq!(ApiError::Internal("broken".to_string()).message(), "broken");
    assert_eq!(ApiError::StoreFailure("down".to_string()).message(), "down");
    assert_eq!(ApiError::EncodingFailure("bad doc".to_string()).message(), "bad doc");
}
