use wlrs_relay::codec::{decode, encode};
use wlrs_relay::err::{Category, Error, ErrorKind};

#[test]
fn decode_empty_frame_is_missing_length() {
    let r = decode(&[]);
    assert!(matches!(r, Err(ErrorKind::MissingInitialLength)));
}

#[test]
fn decode_truncated_username_is_unexpected_element() {
    assert!(matches!(decode(&[3, b'b', b'o']), Err(ErrorKind::UnexpectedElement)));
    assert!(matches!(decode(&[1]), Err(ErrorKind::UnexpectedElement)));
    assert!(matches!(decode(&[255, 1, 2, 3]), Err(ErrorKind::UnexpectedElement)));
}

#[test]
fn decode_splits_username_and_credential() {
    let req = decode(&[3, b'b', b'o', b'b', 0xde, 0xad, 0xbe, 0xef]).ok().unwrap();
    assert_eq!(req.username, "bob");
    assert_eq!(req.credential, vec![0xde, 0xad, 0xbe, 0xef]);
}

#[test]
fn decode_allows_empty_username_and_credential() {
    let req = decode(&[0]).ok().unwrap();
    assert_eq!(req.username, "");
    assert!(req.credential.is_empty());
    let req = decode(&[2, b'a', b'l']).ok().unwrap();
    assert_eq!(req.username, "al");
    assert!(req.credential.is_empty());
}

#[test]
fn decode_rejects_invalid_utf8_username() {
    assert!(matches!(decode(&[2, 0xff, 0xfe, 1]), Err(ErrorKind::InvalidUsername)));
}

#[test]
fn decode_reads_multibyte_username() {
    let req = decode(&[3, 0xc3, 0xa9, b'x', 7]).ok().unwrap();
    assert_eq!(req.username, "\u{e9}x");
    assert_eq!(req.credential, vec![7]);
}

#[test]
fn encode_lays_out_frame() {
    let m = encode("bob", &[9, 8]).unwrap();
    assert_eq!(m, vec![3, b'b', b'o', b'b', 9, 8]);
}

#[test]
fn encode_refuses_overlong_username() {
    let long = "x".repeat(256);
    assert!(encode(&long, &[1]).is_none());
    let max = "y".repeat(255);
    assert_eq!(encode(&max, &[]).unwrap().len(), 256);
}

#[test]
fn round_trip_keeps_username_and_credential() {
    for (name, cred) in [("bob", vec![1u8, 2, 3]), ("", vec![]), ("\u{e9}l\u{e8}ve", vec![0, 255])] {
        let m = encode(name, &cred).unwrap();
        let req = decode(&m).ok().unwrap();
        assert_eq!(req.username, name);
        assert_eq!(req.credential, cred);
    }
}

#[test]
fn error_kind_messages() {
    assert_eq!(ErrorKind::MissingInitialLength.to_string(), "Missing initial length specifier");
    assert_eq!(ErrorKind::UnexpectedElement.to_string(), "Unexpected element found");
    assert_eq!(ErrorKind::InvalidUsername.to_string(), "Username is not valid UTF-8");
}

#[test]
fn error_from_kind_keeps_message_and_category() {
    let e = Error::from(ErrorKind::UnexpectedElement);
    assert_eq!(e.category, Category::Protocol);
    assert_eq!(e.to_string(), "Unexpected element found");
    let e = Error::from(ErrorKind::InvalidUsername);
    assert_eq!(e.category, Category::Decode);
    let e = Error::new(Category::Transport, "connection reset".to_string());
    assert_eq!(e.category, Category::Transport);
    assert_eq!(e.to_string(), "connection reset");
}
