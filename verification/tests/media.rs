use vegar::media::{bytes_to_base64, decode_data_url, from_base64, get_file_type};

#[test]
fn file_type_from_hex_signature() {
    assert_eq!(get_file_type("ffd8ffe000104a46"), "jpeg");
    assert_eq!(get_file_type("89504e470d0a1a0a"), "png");
    assert_eq!(get_file_type("4749463839610100"), "gif");
}

#[test]
fn png_bytes_to_data_url() {
    let data = vec![0x89u8, 0x50, 0x4e, 0x47, 0x0d, 0x0a];
    assert_eq!(bytes_to_base64(data), "data:image/png;base64,iVBORw0K");
}

#[test]
fn jpeg_bytes_to_data_url() {
    let data = vec![0xffu8, 0xd8, 0xff, 0xe0, 0x00];
    assert_eq!(bytes_to_base64(data), "data:image/jpeg;base64,/9j/4AA=");
}

#[test]
fn gif_bytes_to_data_url() {
    let data = b"GIF89a".to_vec();
    assert_eq!(bytes_to_base64(data), "data:image/gif;base64,R0lGODlh");
}

#[test]
fn data_url_round_trip() {
    let data = vec![0x47u8, 0x49, 0x46, 0x38, 1, 2, 3, 250, 251, 252, 0];
    let url = bytes_to_base64(data.clone());
    assert_eq!(from_base64(url.clone()), data);
    assert_eq!(decode_data_url(url), Some(data));
}

#[test]
fn from_base64_takes_text_after_first_comma() {
    assert_eq!(from_base64("x,aGVsbG8=".to_string()), b"hello".to_vec());
    assert_eq!(from_base64("data:text/plain;base64,aGVsbA==".to_string()), b"hell".to_vec());
    assert_eq!(from_base64(",".to_string()), Vec::<u8>::new());
}

#[test]
fn decode_data_url_refuses_bad_input() {
    assert_eq!(decode_data_url("no comma here".to_string()), None);
    assert_eq!(decode_data_url("a,aGVsbG8".to_string()), None);
    assert_eq!(decode_data_url("a,b,aGVs".to_string()), None);
    assert_eq!(decode_data_url("a,aGVs".to_string()), Some(b"hel".to_vec()));
}

#[test]
fn padded_groups_may_follow_each_other() {
    assert_eq!(decode_data_url("x,AA==AA==".to_string()), Some(vec![0u8, 0]));
    assert_eq!(from_base64("x,AA==AA==".to_string()), vec![0u8, 0]);
}
