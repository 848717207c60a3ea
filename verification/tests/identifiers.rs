use orbix_backend::error::AppError;
use orbix_backend::ident::{parse_id, ObjectId};

#[test]
fn parses_twenty_four_hex_digits() {
    let id = ObjectId::parse_str("507f1f77bcf86cd799439011").unwrap();
    assert_eq!(id.hi, 0x507f1f77);
    assert_eq!(id.lo, 0xbcf86cd799439011);
}

#[test]
fn writes_lower_case_hex() {
    let id = ObjectId { hi: 0x507f1f77, lo: 0xbcf86cd799439011 };
    assert_eq!(id.to_hex(), "507f1f77bcf86cd799439011");
    let zero = ObjectId { hi: 0, lo: 0 };
    assert_eq!(zero.to_hex(), "000000000000000000000000");
    let top = ObjectId { hi: u32::MAX, lo: u64::MAX };
    assert_eq!(top.to_hex(), "ffffffffffffffffffffffff");
}

#[test]
fn upper_case_is_accepted_and_normalised() {
    let id = ObjectId::parse_str("507F1F77BCF86CD799439011").unwrap();
    assert_eq!(id.to_hex(), "507f1f77bcf86cd799439011");
}

#[test]
fn hex_round_trip() {
    for (hi, lo) in [(0u32, 0u64), (1, 2), (0xdeadbeef, 0x0123456789abcdef), (u32::MAX, u64::MAX)] {
        let id = ObjectId { hi, lo };
        assert_eq!(ObjectId::parse_str(&id.to_hex()), Some(id));
    }
}

#[test]
fn malformed_identifiers_are_refused() {
    for raw in [
        "",
        "507f1f77bcf86cd79943901",
        "507f1f77bcf86cd7994390111",
        "507f1f77bcf86cd79943901g",
        "507f1f77bcf86cd79943901 ",
        " 507f1f77bcf86cd79943901",
        "+07f1f77bcf86cd799439011",
        "507f1f77bcf86cd7994390é1",
        "not-an-id",
    ] {
        assert_eq!(ObjectId::parse_str(raw), None, "{:?}", raw);
    }
}

#[test]
fn parse_id_reports_bad_request_with_the_given_text() {
    assert_eq!(
        parse_id("xyz", "Invalid ID"),
        Err(AppError::BadRequest("Invalid ID".to_string()))
    );
    assert_eq!(
        parse_id("507f1f77bcf86cd799439011", "Invalid ID"),
        Ok(ObjectId { hi: 0x507f1f77, lo: 0xbcf86cd799439011 })
    );
}

#[test]
fn parsing_agrees_with_the_storage_engine() {
    for raw in [
        "507f1f77bcf86cd799439011",
        "507F1F77BCF86CD799439011",
        "000000000000000000000000",
        "ffffffffffffffffffffffff",
        "0123456789abcdefABCDEF01",
        "",
        "507f1f77bcf86cd79943901",
        "507f1f77bcf86cd7994390111",
        "507f1f77bcf86cd79943901g",
        "507f1f77-bcf86cd799439011",
        "507f1f77bcf86cd7994390 1",
        "+07f1f77bcf86cd799439011",
        "0x7f1f77bcf86cd799439011",
        "507f1f77bcf86cd7994390é",
        "ééééééééééééééééééééééé",
        "éééééééééééé",
    ] {
        let theirs = bson::oid::ObjectId::parse_str(raw).ok();
        let ours = ObjectId::parse_str(raw);
        assert_eq!(ours.is_some(), theirs.is_some(), "{:?}", raw);
        if let (Some(ours), Some(theirs)) = (ours, theirs) {
            assert_eq!(ours.to_hex(), theirs.to_hex());
            let bytes = theirs.bytes();
            assert_eq!(ours.hi.to_be_bytes(), [bytes[0], bytes[1], bytes[2], bytes[3]]);
            assert_eq!(ours.lo.to_be_bytes()[..], bytes[4..]);
        }
    }
}

#[test]
fn fresh_identifiers_of_the_storage_engine_are_read_and_written_back() {
    for _ in 0..50 {
        let theirs = bson::oid::ObjectId::new();
        let ours = ObjectId::parse_str(&theirs.to_hex()).unwrap();
        assert_eq!(ours.to_hex(), theirs.to_hex());
    }
}
