use securecart::email::{is_valid_email, EmailAddress};
use securecart::token::{generate_token, hex_encode, token_from_bytes};

#[test]
fn hex_encoding_pads_each_byte_to_two_digits() {
    assert_eq!(hex_encode(&[0x00, 0x0f, 0xa0, 0xff]), "000fa0ff");
    assert_eq!(hex_encode(&[]), "");
}

#[test]
fn token_from_bytes_is_48_hex_digits() {
    let bytes: [u8; 24] = [
        0, 1, 2, 3, 4, 5, 6, 7, 8, 9, 10, 11, 12, 13, 14, 15, 16, 17, 18, 19, 20, 21, 22, 255,
    ];
    let token = token_from_bytes(&bytes);
    assert_eq!(token, "000102030405060708090a0b0c0d0e0f10111213141516ff");
    assert_eq!(token.len(), 48);
}

#[test]
fn generated_tokens_are_well_formed_and_differ() {
    let first = generate_token().expect("the operating system gave random bytes");
    let second = generate_token().expect("the operating system gave random bytes");
    assert_eq!(first.len(), 48);
    assert!(first.chars().all(|c| c.is_ascii_digit() || ('a'..='f').contains(&c)));
    assert_eq!(second.len(), 48);
    assert_ne!(first, second);
}

#[test]
fn email_shapes() {
    assert!(is_valid_email("a@b.c"));
    assert!(is_valid_email("first.last+tag@shop-1.example.co.uk"));
    assert!(is_valid_email("_-.+@x.y"));
    assert!(!is_valid_email(""));
    assert!(!is_valid_email("a@b"));
    assert!(!is_valid_email("@b.c"));
    assert!(!is_valid_email("a@.c"));
    assert!(!is_valid_email("a@b."));
    assert!(!is_valid_email("a@b..c"));
    assert!(!is_valid_email("a@b_c.d"));
    assert!(!is_valid_email("a b@c.d"));
    assert!(!is_valid_email("a@b@c.d"));
    assert!(!is_valid_email("a@b.c\n"));
    assert!(!is_valid_email("é@b.c"));
    assert!(!is_valid_email("a@bé.c"));
}

#[test]
fn email_address_keeps_its_text() {
    let address = EmailAddress::try_from("ada@example.org".to_owned()).expect("valid");
    assert_eq!(address.as_str(), "ada@example.org");
    assert_eq!(address.to_text(), "ada@example.org");
    assert!(EmailAddress::try_from("nobody".to_owned()).is_err());
}
