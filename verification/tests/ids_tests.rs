use axum_server::ids::{parse_user_id, user_id_string, user_not_found_message};

const ID: u128 = 0x550e8400_e29b_41d4_a716_446655440000;

#[test]
fn parses_every_uuid_form() {
    assert_eq!(parse_user_id("550e8400-e29b-41d4-a716-446655440000"), Some(ID));
    assert_eq!(parse_user_id("550e8400e29b41d4a716446655440000"), Some(ID));
    assert_eq!(parse_user_id("{550e8400-e29b-41d4-a716-446655440000}"), Some(ID));
    assert_eq!(parse_user_id("urn:uuid:550e8400-e29b-41d4-a716-446655440000"), Some(ID));
    assert_eq!(parse_user_id("URN:UUID:550E8400-E29B-41D4-A716-446655440000"), Some(ID));
}

#[test]
fn refuses_what_is_not_a_uuid() {
    for bad in [
        "",
        "not-a-uuid",
        "550e8400-e29b-41d4-a716-44665544000",
        "550e8400-e29b-41d4-a716-44665544000g",
        "550e8400xe29b-41d4-a716-446655440000",
        "[550e8400-e29b-41d4-a716-446655440000]",
        "urn:uid::550e8400-e29b-41d4-a716-446655440000",
    ] {
        assert_eq!(parse_user_id(bad), None, "{bad:?}");
    }
}

#[test]
fn writes_the_hyphenated_lower_case_form() {
    assert_eq!(user_id_string(ID), "550e8400-e29b-41d4-a716-446655440000");
    assert_eq!(user_id_string(0), "00000000-0000-0000-0000-000000000000");
    assert_eq!(user_id_string(u128::MAX), "ffffffff-ffff-ffff-ffff-ffffffffffff");
}

#[test]
fn written_ids_read_back() {
    for id in [0u128, 1, ID, u128::MAX, 0x0123_4567_89ab_cdef_fedc_ba98_7654_3210] {
        assert_eq!(parse_user_id(&user_id_string(id)), Some(id));
    }
}

#[test]
fn not_found_message_names_the_id() {
    assert_eq!(
        user_not_found_message(1),
        "User with id 00000000-0000-0000-0000-000000000001 not found"
    );
}
