use squared_api_wrapper::response::{
    BinaryObjectResponse, BinaryResponse, StringObjectResponse, StringResponse,
};

#[test]
fn binary_create_from_data_copies_status_and_body() {
    let r = BinaryResponse::create_from_data(Some(200), &b"abc"[..]);
    assert_eq!(r.http_code, Some(200));
    assert_eq!(r.raw_data, b"abc".to_vec());
}

#[test]
fn binary_create_from_data_keeps_absent_status_and_empty_body() {
    let r = BinaryResponse::create_from_data(None, &[]);
    assert_eq!(r.http_code, None);
    assert_eq!(r.raw_data, Vec::<u8>::new());
}

#[test]
fn string_create_from_data_copies_status_and_body() {
    let r = StringResponse::create_from_data(Some(404), String::from("missing"));
    assert_eq!(r.http_code, Some(404));
    assert_eq!(r.raw_data, "missing");
}

#[test]
fn binary_object_create_from_data_copies_everything() {
    let r = BinaryObjectResponse::create_from_data(Some(201), &b"body"[..], Some(7u32));
    assert_eq!(r.http_code, Some(201));
    assert_eq!(r.raw_data, b"body".to_vec());
    assert_eq!(r.object, Some(7u32));
}

#[test]
fn string_object_create_from_data_copies_everything() {
    let r = StringObjectResponse::create_from_data(Some(200), String::from("body"), Some(1u8));
    assert_eq!(r.http_code, Some(200));
    assert_eq!(r.raw_data, "body");
    assert_eq!(r.object, Some(1u8));
}

#[test]
fn to_string_response_decodes_valid_utf8() {
    let r = BinaryResponse::create_from_data(Some(200), "héllo".as_bytes());
    let t = r.to_string_response();
    assert_eq!(t.http_code, Some(200));
    assert_eq!(t.raw_data, "héllo");
}

#[test]
fn to_string_response_replaces_invalid_bytes() {
    let r = BinaryResponse::create_from_data(Some(200), &[0x61, 0xff, 0x62][..]);
    let t = r.to_string_response();
    assert_eq!(t.http_code, Some(200));
    assert_eq!(t.raw_data, "a\u{fffd}b");
}

#[test]
fn to_string_response_of_empty_body_is_empty() {
    let r = BinaryResponse::create_from_data(None, &[]);
    let t = r.to_string_response();
    assert_eq!(t.http_code, None);
    assert_eq!(t.raw_data, "");
}

#[test]
fn binary_object_to_string_response_keeps_status_and_object() {
    let r = BinaryObjectResponse::create_from_data(Some(200), &[0xf0, 0x9f][..], Some(9i64));
    let t = r.to_string_response();
    assert_eq!(t.http_code, Some(200));
    assert_eq!(t.raw_data, "\u{fffd}");
    assert_eq!(t.object, Some(9i64));
}

#[test]
fn binary_add_object_is_additive() {
    let r = BinaryResponse::create_from_data(Some(200), &b"raw"[..]);
    let t = r.add_object(42u64);
    assert_eq!(t.http_code, Some(200));
    assert_eq!(t.raw_data, b"raw".to_vec());
    assert_eq!(t.object, Some(42u64));
}

#[test]
fn binary_add_optional_object_none_stays_none() {
    let r = BinaryResponse::create_from_data(Some(200), &b"raw"[..]);
    let t = r.add_optional_object::<u64>(None);
    assert_eq!(t.http_code, Some(200));
    assert_eq!(t.raw_data, b"raw".to_vec());
    assert_eq!(t.object, None);
}

#[test]
fn binary_add_optional_object_some_is_kept() {
    let r = BinaryResponse::create_from_data(None, &b"x"[..]);
    let t = r.add_optional_object(Some(5u8));
    assert_eq!(t.http_code, None);
    assert_eq!(t.raw_data, b"x".to_vec());
    assert_eq!(t.object, Some(5u8));
}

#[test]
fn string_add_object_is_additive() {
    let r = StringResponse::create_from_data(Some(500), String::from("oops"));
    let t = r.add_object(3u16);
    assert_eq!(t.http_code, Some(500));
    assert_eq!(t.raw_data, "oops");
    assert_eq!(t.object, Some(3u16));
}

#[test]
fn string_add_optional_object_none_stays_none() {
    let r = StringResponse::create_from_data(Some(500), String::from("oops"));
    let t = r.add_optional_object::<u16>(None);
    assert_eq!(t.http_code, Some(500));
    assert_eq!(t.raw_data, "oops");
    assert_eq!(t.object, None);
}

#[test]
fn default_binary_response_is_absent_and_empty() {
    let r = BinaryResponse::default();
    assert_eq!(r.http_code, None);
    assert_eq!(r.raw_data, Vec::<u8>::new());
}

#[test]
fn default_string_response_is_absent_and_empty() {
    let r = StringResponse::default();
    assert_eq!(r.http_code, None);
    assert_eq!(r.raw_data, "");
}

#[test]
fn default_binary_object_response_is_absent_and_empty() {
    let r = BinaryObjectResponse::<u32>::default();
    assert_eq!(r.http_code, None);
    assert_eq!(r.raw_data, Vec::<u8>::new());
    assert_eq!(r.object, None);
}

#[test]
fn default_string_object_response_is_absent_and_empty() {
    let r = StringObjectResponse::<u32>::default();
    assert_eq!(r.http_code, None);
    assert_eq!(r.raw_data, "");
    assert_eq!(r.object, None);
}
