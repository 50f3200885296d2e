//! The values of the library and the checks on them.

use securecart::admission::{check_csrf, Rejection};
use securecart::catalog::{
    total_cost, AppOrderStatus, Category, CostTooLarge, OrderFulfilmentError, Product,
    ProductInsert, ProductSearchParameters, ProductUpdate, MAX_AMOUNT,
};
use securecart::checkout::{CheckoutToken, CheckoutTokenCreateError, OrderId};
use securecart::credentials::{
    generate_salt, generate_2fa, has_lanes_in_range, set_2fa, set_2fa_at, validate_code_at, Password, PasswordInsert, SetTotpError,
    Totp, TotpInsert,
};
use securecart::directory::{
    list_mfa_methods, list_supported_authentication_methods, MfaAuthenticationMethod,
    PrimaryAuthenticationMethod,
};
use securecart::email::EmailAddress;
use securecart::guard::{AUTH_PENALTY_PERIOD, AUTH_TIMEOUT_ATTEMPTS, AUTH_TIMEOUT_PERIOD};
use securecart::http::{
    client_address_header_name, csrf_cookie, csrf_cookie_name, csrf_header_name, session_cookie,
    session_cookie_name, HeaderValue, SameSite,
};
use securecart::media::{
    image_object, image_uri, normalise_image_path, path_for, ImageFileType, StoreImageError,
};
use securecart::registration::{
    check_credential, check_user_data, AddCredentialError, SignupInitError, PASSWORD_MAX_LENGTH,
    PASSWORD_MIN_LENGTH,
};
use securecart::schema::{decode_record, field_list};
use securecart::search::{escape_like, pattern_beginning_with, pattern_containing};
use securecart::sessions::{
    timeout_for, ADMIN_SESSION_TIMEOUT, PREAUTH_SESSION_TIMEOUT, REGISTRATION_SESSION_TIMEOUT,
    SESSION_TIMEOUT,
};
use securecart::store::{
    AuthenticatedSessionData, Field, PreAuthenticationSessionData, RegistrationSessionData,
    SessionInfo, SessionType, Value,
};
use securecart::users::{
    AppUser, AppUserInsert, AppUserRole, AppUserSearchParameters, AppUserUpdate, UserId,
    UserPromotionError,
};

fn email(text: &str) -> EmailAddress {
    EmailAddress::try_from(text.to_owned()).expect("a valid address")
}

#[test]
fn the_policy_constants() {
    assert_eq!(SESSION_TIMEOUT, 7 * 24 * 60 * 60);
    assert_eq!(PREAUTH_SESSION_TIMEOUT, 5 * 60);
    assert_eq!(REGISTRATION_SESSION_TIMEOUT, 10 * 60);
    assert_eq!(ADMIN_SESSION_TIMEOUT, 2 * 60 * 60);
    assert_eq!(AUTH_TIMEOUT_ATTEMPTS, 5);
    assert_eq!(AUTH_TIMEOUT_PERIOD, 10);
    assert_eq!(AUTH_PENALTY_PERIOD, 60);
    assert_eq!(PASSWORD_MIN_LENGTH, 8);
    assert_eq!(PASSWORD_MAX_LENGTH, 128);
}

#[test]
fn each_kind_has_its_time_to_live() {
    let user_id = UserId { value: 1 };
    let pre = SessionInfo::PreAuthentication {
        csrf: String::new(),
        data: PreAuthenticationSessionData { user_id },
    };
    assert_eq!(timeout_for(&pre), 300);
    let customer = SessionInfo::Authenticated {
        csrf: String::new(),
        data: AuthenticatedSessionData { user_id, admin: false },
    };
    assert_eq!(timeout_for(&customer), 604800);
    let admin = SessionInfo::Authenticated {
        csrf: String::new(),
        data: AuthenticatedSessionData { user_id, admin: true },
    };
    assert_eq!(timeout_for(&admin), 7200);
    let registration = SessionInfo::Registration {
        csrf: String::new(),
        data: RegistrationSessionData {
            user_data: AppUserInsert::new(email("a@b.c"), "A", "B", "C"),
        },
    };
    assert_eq!(timeout_for(&registration), 600);
}

#[test]
fn the_fields_of_each_kind() {
    assert_eq!(field_list(SessionType::PreAuthentication), vec![Field::UserId, Field::Csrf]);
    assert_eq!(
        field_list(SessionType::Authenticated),
        vec![Field::UserId, Field::Admin, Field::Csrf]
    );
    assert_eq!(
        field_list(SessionType::Registration),
        vec![Field::Email, Field::Forename, Field::Surname, Field::Address, Field::Csrf]
    );
    assert_eq!(Field::UserId.name(), "user_id");
    assert_eq!(Field::Admin.name(), "admin");
    assert_eq!(Field::Csrf.name(), "csrf");
    assert_eq!(Field::Email.name(), "email");
    assert_eq!(Field::Forename.name(), "forename");
    assert_eq!(Field::Surname.name(), "surname");
    assert_eq!(Field::Address.name(), "address");
}

#[test]
fn a_payload_is_written_as_its_fields() {
    let info = SessionInfo::Authenticated {
        csrf: "tok".to_owned(),
        data: AuthenticatedSessionData { user_id: UserId { value: 5 }, admin: true },
    };
    assert_eq!(info.discriminator(), (Field::UserId, Value::Id(UserId { value: 5 })));
    assert_eq!(
        info.remainder(),
        vec![(Field::Admin, Value::Flag(true)), (Field::Csrf, Value::Text("tok".to_owned()))]
    );
    let info = SessionInfo::Registration {
        csrf: "tok".to_owned(),
        data: RegistrationSessionData {
            user_data: AppUserInsert::new(email("a@b.c"), "F", "S", "A"),
        },
    };
    assert_eq!(info.discriminator(), (Field::Email, Value::Text("a@b.c".to_owned())));
    assert_eq!(
        info.remainder(),
        vec![
            (Field::Forename, Value::Text("F".to_owned())),
            (Field::Surname, Value::Text("S".to_owned())),
            (Field::Address, Value::Text("A".to_owned())),
            (Field::Csrf, Value::Text("tok".to_owned())),
        ]
    );
}

#[test]
fn values_of_the_wrong_type_or_number_decode_to_nothing() {
    let id = || Some(Value::Id(UserId { value: 5 }));
    let text = || Some(Value::Text("t".to_owned()));
    let flag = || Some(Value::Flag(false));
    assert!(decode_record(SessionType::PreAuthentication, &vec![id(), text()]).is_some());
    assert!(decode_record(SessionType::PreAuthentication, &vec![text(), text()]).is_none());
    assert!(decode_record(SessionType::PreAuthentication, &vec![id(), None]).is_none());
    assert!(decode_record(SessionType::PreAuthentication, &vec![id()]).is_none());
    assert!(decode_record(SessionType::PreAuthentication, &vec![id(), text(), text()]).is_none());
    assert!(decode_record(SessionType::Authenticated, &vec![id(), flag(), text()]).is_some());
    assert!(decode_record(SessionType::Authenticated, &vec![id(), text(), text()]).is_none());
    assert!(decode_record(SessionType::Authenticated, &vec![id(), text()]).is_none());
    assert!(decode_record(SessionType::Registration, &vec![None, None, None, None, None]).is_none());
    let decoded = decode_record(SessionType::Authenticated, &vec![id(), Some(Value::Flag(true)), text()])
        .expect("three good values");
    let data = decoded.as_auth().expect("of the kind");
    assert_eq!(data.user_id, UserId { value: 5 });
    assert!(data.admin);
    assert_eq!(decoded.csrf_token(), "t");
}

#[test]
fn values_compare_by_content() {
    assert!(Value::Text("a".to_owned()).same(&Value::Text("a".to_owned())));
    assert!(!Value::Text("a".to_owned()).same(&Value::Text("b".to_owned())));
    assert!(!Value::Flag(true).same(&Value::Flag(false)));
    assert!(Value::Id(UserId { value: 3 }).same(&Value::Id(UserId { value: 3 })));
    assert!(!Value::Id(UserId { value: 3 }).same(&Value::Flag(true)));
    assert_eq!(Value::Text("a".to_owned()).duplicate(), Value::Text("a".to_owned()));
}

#[test]
fn the_csrf_check_accepts_the_very_token_only() {
    let expected = "abc".to_owned();
    assert!(check_csrf(&expected, &HeaderValue::Text("abc".to_owned())).is_ok());
    assert!(matches!(
        check_csrf(&expected, &HeaderValue::Text("abd".to_owned())),
        Err(Rejection::CsrfMismatch)
    ));
    assert!(matches!(
        check_csrf(&expected, &HeaderValue::Text(String::new())),
        Err(Rejection::CsrfMismatch)
    ));
    assert!(matches!(check_csrf(&expected, &HeaderValue::Missing), Err(Rejection::CsrfMismatch)));
    assert!(matches!(
        check_csrf(&expected, &HeaderValue::Unreadable),
        Err(Rejection::CsrfMismatch)
    ));
}

#[test]
fn the_cookies_and_headers_of_a_session() {
    assert_eq!(session_cookie_name(), "session");
    assert_eq!(csrf_cookie_name(), "session_csrf");
    assert_eq!(csrf_header_name(), "X-CSRF-Token");
    assert_eq!(client_address_header_name(), "X-Real-IP");
    let cookie = session_cookie("tok".to_owned());
    assert_eq!(cookie.name, "session");
    assert_eq!(cookie.value, "tok");
    assert!(cookie.http_only && cookie.secure);
    assert_eq!(cookie.path, "/");
    assert_eq!(cookie.same_site, SameSite::Strict);
    let cookie = csrf_cookie("csrf".to_owned());
    assert_eq!(cookie.name, "session_csrf");
    assert_eq!(cookie.value, "csrf");
    assert!(!cookie.http_only);
    assert_eq!(cookie.path, "/");
    assert_eq!(cookie.same_site, SameSite::Strict);
}

#[test]
fn the_methods_on_offer() {
    let methods = list_supported_authentication_methods();
    assert_eq!(methods.len(), 1);
    let PrimaryAuthenticationMethod::Password { password } = &methods[0];
    assert_eq!(password, "string");
    assert!(list_mfa_methods(false).is_empty());
    let methods = list_mfa_methods(true);
    assert_eq!(methods.len(), 1);
    let MfaAuthenticationMethod::Totp { code } = &methods[0];
    assert_eq!(code, "string");
}

#[test]
fn sign_up_data_is_checked_address_first() {
    let user = AppUserInsert::new(email("a@b.c"), "", "", "");
    assert!(matches!(check_user_data(&user), Err(SignupInitError::EmptyAddress)));
    let user = AppUserInsert::new(email("a@b.c"), "", "", "x");
    assert!(matches!(check_user_data(&user), Err(SignupInitError::EmptySurname)));
    let user = AppUserInsert::new(email("a@b.c"), "", "x", "x");
    assert!(matches!(check_user_data(&user), Err(SignupInitError::EmptyForename)));
    let user = AppUserInsert::new(email("a@b.c"), "x", "x", "x");
    assert!(check_user_data(&user).is_ok());
    let copy = user.duplicate();
    assert_eq!(copy.email.as_str(), "a@b.c");
    assert_eq!(copy.forename, "x");
}

#[test]
fn passwords_have_8_to_128_bytes() {
    let of = |text: &str| PrimaryAuthenticationMethod::Password { password: text.to_owned() };
    assert!(matches!(check_credential(&of("")), Err(AddCredentialError::PasswordTooShort)));
    assert!(matches!(check_credential(&of("1234567")), Err(AddCredentialError::PasswordTooShort)));
    assert!(check_credential(&of("12345678")).is_ok());
    assert!(check_credential(&of(&"x".repeat(128))).is_ok());
    assert!(matches!(
        check_credential(&of(&"x".repeat(129))),
        Err(AddCredentialError::PasswordTooLong)
    ));
    assert!(check_credential(&of("éééé")).is_ok());
}

#[test]
fn a_password_verifies_against_its_hash_only() {
    let user_id = UserId { value: 11 };
    let made = PasswordInsert::new(user_id, "correct horse").expect("hashing works");
    assert_eq!(made.user_id(), user_id);
    assert_ne!(made.hash(), "correct horse");
    assert!(made.hash().starts_with("$argon2id$v=19$m=12288,t=3,p=1$"));
    let stored = Password::from_row(user_id, made.hash().to_owned());
    assert_eq!(stored.user_id(), user_id);
    assert!(stored.verify("correct horse"));
    assert!(!stored.verify("correct horsf"));
    assert!(!stored.verify(""));
    let again = PasswordInsert::new(user_id, "correct horse").expect("hashing works");
    assert_ne!(again.hash(), made.hash());
}

#[test]
fn a_hash_accepts_no_other_password() {
    let stored = Password::from_row(
        UserId { value: 1 },
        "$argon2id$v=19$m=16,t=2,p=1$c29tZXNhbHQ$zaPeFuUCYLtwp63duuZuiA".to_owned(),
    );
    assert!(!stored.verify("not the password"));
    let garbage = Password::from_row(UserId { value: 1 }, "not a hash".to_owned());
    assert!(!garbage.verify("not a hash"));
    assert!(!garbage.verify(""));
}

#[test]
fn a_hash_is_a_function_of_password_salt_and_cost() {
    let user_id = UserId { value: 11 };
    let salt = "c29tZXNhbHRzb21lc2FsdA";
    let first = PasswordInsert::new_with_salt(user_id, "correct horse", salt).expect("hashing works");
    let second = PasswordInsert::new_with_salt(user_id, "correct horse", salt).expect("hashing works");
    assert_eq!(first.hash(), second.hash());
    assert!(first.hash().starts_with("$argon2id$v=19$m=12288,t=3,p=1$c29tZXNhbHRzb21lc2FsdA$"));
    assert_eq!(first.hash().len(), "$argon2id$v=19$m=12288,t=3,p=1$c29tZXNhbHRzb21lc2FsdA$".len() + 43);
    let other = PasswordInsert::new_with_salt(user_id, "correct horsf", salt).expect("hashing works");
    assert_ne!(first.hash(), other.hash());
    let salted = PasswordInsert::new_with_salt(user_id, "correct horse", "b3RoZXJzYWx0b3RoZXJzYQ")
        .expect("hashing works");
    assert_ne!(first.hash(), salted.hash());
    assert!(Password::from_row(user_id, first.hash().to_owned()).verify("correct horse"));
    assert!(PasswordInsert::new_with_salt(user_id, "correct horse", "!").is_none());
    assert!(PasswordInsert::new_with_salt(user_id, "correct horse", "").is_none());
    let mut stored = Password::from_row(user_id, first.hash().to_owned());
    assert!(!stored.set_password_with_salt("new password", "!"));
    assert_eq!(stored.hash(), first.hash());
    assert!(stored.set_password_with_salt("new password", salt));
    assert!(stored.verify("new password"));
}

#[test]
fn a_password_can_be_replaced() {
    let made = PasswordInsert::new(UserId { value: 1 }, "first password").expect("hashing works");
    let mut stored = Password::from_row(UserId { value: 1 }, made.hash().to_owned());
    assert!(stored.set_password("second password"));
    assert!(stored.verify("second password"));
    assert!(!stored.verify("first password"));
    assert_eq!(stored.user_id(), UserId { value: 1 });
}

#[test]
fn one_time_passwords_follow_the_rfc() {
    let secret = b"12345678901234567890".to_vec();
    assert!(validate_code_at(&secret, "287082", 59));
    assert!(!validate_code_at(&secret, "287083", 59));
    assert!(validate_code_at(&secret, "081804", 1111111109));
    assert!(validate_code_at(&secret, "050471", 1111111111));
    assert!(validate_code_at(&secret, "005924", 1234567890));
    assert!(validate_code_at(&secret, "279037", 2000000000));
    assert!(validate_code_at(&secret, "287082", 89));
    assert!(!validate_code_at(&secret, "287082", 120));
    assert!(!validate_code_at(&secret, "287082", 29));
    assert!(!validate_code_at(&secret, "287082", u64::MAX));
    assert!(!validate_code_at(&b"short".to_vec(), "287082", 59));
}

#[test]
fn a_second_factor_is_taken_with_a_right_code_only() {
    let secret = b"12345678901234567890".to_vec();
    let user_id = UserId { value: 3 };
    let taken = set_2fa_at(user_id, secret.clone(), "287082", 59).expect("the right code");
    assert_eq!(taken.user_id, user_id);
    assert_eq!(taken.secret, secret);
    assert!(taken.validate_at("287082", 59));
    assert_eq!(
        set_2fa_at(user_id, secret.clone(), "000000", 59).expect_err("the wrong code"),
        SetTotpError::IncorrectCode(user_id)
    );
    assert_eq!(
        set_2fa(user_id, secret.clone(), "not a code").expect_err("no code at all"),
        SetTotpError::IncorrectCode(user_id)
    );
    let stored = Totp::from_row(user_id, secret.clone());
    assert_eq!(stored.user_id(), user_id);
    assert!(stored.validate_at("287082", 59));
    assert!(!stored.validate("not a code"));
    let candidate = TotpInsert { user_id, secret };
    assert!(!candidate.validate("not a code"));
}

#[test]
fn a_new_secret_has_32_random_bytes() {
    let first = generate_2fa().expect("the operating system gave random bytes");
    let second = generate_2fa().expect("the operating system gave random bytes");
    assert_eq!(first.len(), 32);
    assert_eq!(second.len(), 32);
    assert_ne!(first, second);
    assert_ne!(first, vec![0u8; 32]);
}

#[test]
fn image_types_are_told_by_their_first_bytes() {
    let png = [0x89, 0x50, 0x4e, 0x47, 0x0d, 0x0a, 0x1a, 0x0a, 0, 0];
    assert_eq!(ImageFileType::from_bytes(&png), Some(ImageFileType::Png));
    assert_eq!(ImageFileType::from_bytes(&png[..8]), Some(ImageFileType::Png));
    assert_eq!(ImageFileType::from_bytes(&png[..7]), None);
    assert_eq!(ImageFileType::from_bytes(&[0xff, 0xd8, 0xff, 0xe0]), Some(ImageFileType::Jpg));
    assert_eq!(ImageFileType::from_bytes(&[0xff, 0xd8, 0xff, 0xee, 1]), Some(ImageFileType::Jpg));
    assert_eq!(ImageFileType::from_bytes(&[0xff, 0xd8, 0xff, 0xe2]), None);
    let exif = [0xff, 0xd8, 0xff, 0xe1, 9, 9, 0x45, 0x78, 0x69, 0x66, 0, 0];
    assert_eq!(ImageFileType::from_bytes(&exif), Some(ImageFileType::Jpg));
    assert_eq!(ImageFileType::from_bytes(&exif[..11]), None);
    let not_exif = [0xff, 0xd8, 0xff, 0xe1, 9, 9, 0x45, 0x78, 0x69, 0x66, 0, 1];
    assert_eq!(ImageFileType::from_bytes(&not_exif), None);
    assert_eq!(ImageFileType::from_bytes(b"GIF87a"), Some(ImageFileType::Gif));
    assert_eq!(ImageFileType::from_bytes(b"GIF89a..."), Some(ImageFileType::Gif));
    assert_eq!(ImageFileType::from_bytes(b"GIF88a"), None);
    assert_eq!(ImageFileType::from_bytes(b""), None);
    assert_eq!(ImageFileType::Png.extension(), "png");
    assert_eq!(ImageFileType::Jpg.extension(), "jpg");
    assert_eq!(ImageFileType::Gif.extension(), "gif");
    assert_eq!(ImageFileType::Png.mimetype(), "image/png");
    assert_eq!(ImageFileType::Jpg.mimetype(), "image/jpeg");
    assert_eq!(ImageFileType::Gif.mimetype(), "image/gif");
}

#[test]
fn an_image_is_kept_under_its_digest() {
    let (path, mimetype) = image_object(b"GIF89a").expect("a GIF");
    assert_eq!(mimetype, "image/gif");
    assert!(path.starts_with("/images/"));
    assert!(path.ends_with(".gif"));
    assert_eq!(path.len(), "/images/".len() + 64 + ".gif".len());
    assert_eq!(image_object(b"plain text"), Err(StoreImageError::InvalidFileType));
    assert_eq!(path_for(ImageFileType::Png, &[0x00, 0xab]), "/images/00ab.png");
    let empty_png_like = [0x89, 0x50, 0x4e, 0x47, 0x0d, 0x0a, 0x1a, 0x0a];
    let (first, _) = image_object(&empty_png_like).expect("a PNG");
    let (second, _) = image_object(&empty_png_like).expect("a PNG");
    assert_eq!(first, second);
    assert_ne!(first.replace(".png", ""), path.replace(".gif", ""));
}

#[test]
fn the_digest_is_sha_256() {
    let (path, _) = image_object(b"GIF89a").expect("a GIF");
    let other = image_object(b"GIF89b..").map(|(path, _)| path);
    assert!(other.is_err());
    let (longer, _) = image_object(b"GIF89a!").expect("a GIF");
    assert_ne!(path, longer);
    let digest = &path["/images/".len()..path.len() - ".gif".len()];
    assert!(digest.chars().all(|c| c.is_ascii_digit() || ('a'..='f').contains(&c)));
}

#[test]
fn search_terms_are_escaped() {
    assert_eq!(escape_like("plain"), "plain");
    assert_eq!(escape_like("100%_sure\\"), "100\\%\\_sure\\\\");
    assert_eq!(escape_like(""), "");
    assert_eq!(escape_like("né_é"), "né\\_é");
    assert_eq!(pattern_beginning_with("a_b"), "a\\_b%");
    assert_eq!(pattern_containing("a@b.c"), "%a@b.c%");
    assert_eq!(pattern_containing("%"), "%\\%%");
}

#[test]
fn a_product_is_changed_field_by_field() {
    let insert = ProductInsert::new("Kettle", "Boils water", true, 1999);
    assert!(insert.is_listed());
    assert_eq!(insert.price(), 1999);
    assert_eq!(insert.name, "Kettle");
    assert_eq!(insert.description, "Boils water");
    let mut product = Product::from_row(
        7,
        "Kettle".to_owned(),
        "Boils water".to_owned(),
        true,
        1999,
        vec!["/images/a.png".to_owned()],
    )
    .expect("a good row");
    assert_eq!(product.id(), 7);
    assert_eq!(product.price(), 1999);
    assert!(product.is_listed());
    product.unlist();
    assert!(!product.is_listed());
    product.list();
    assert!(product.is_listed());
    product.set_price(2499);
    assert_eq!(product.price(), 2499);
    product.set_name("Big kettle");
    product.set_description("Boils more water");
    assert_eq!(product.name, "Big kettle");
    assert_eq!(product.description, "Boils more water");
    assert_eq!(product.id(), 7);
    assert_eq!(product.images, vec!["/images/a.png".to_owned()]);
}

#[test]
fn a_row_out_of_range_is_no_product() {
    let row = |id: i64, price: i64| {
        Product::from_row(id, String::new(), String::new(), false, price, Vec::new())
    };
    assert!(row(0, 0).is_some());
    assert!(row(4294967295, 4294967295).is_some());
    assert!(row(-1, 0).is_none());
    assert!(row(0, -1).is_none());
    assert!(row(4294967296, 0).is_none());
    assert!(row(0, 4294967296).is_none());
}

#[test]
fn a_product_update_changes_what_it_names() {
    let mut product = Product::from_row(1, "a".to_owned(), "b".to_owned(), false, 5, Vec::new())
        .expect("a good row");
    ProductUpdate { name: None, price: Some(9), listed: Some(true), description: None }
        .apply(&mut product);
    assert_eq!(product.name, "a");
    assert_eq!(product.description, "b");
    assert_eq!(product.price(), 9);
    assert!(product.is_listed());
    ProductUpdate {
        name: Some("c".to_owned()),
        price: None,
        listed: Some(false),
        description: Some("d".to_owned()),
    }
    .apply(&mut product);
    assert_eq!(product.name, "c");
    assert_eq!(product.description, "d");
    assert_eq!(product.price(), 9);
    assert!(!product.is_listed());
}

#[test]
fn a_search_is_scoped_to_the_listed_products() {
    let any = ProductSearchParameters::any();
    assert!(any.name.is_none() && any.price_min.is_none() && any.price_max.is_none());
    assert!(any.listed.is_none());
    let narrowed = ProductSearchParameters {
        name: Some("Ket".to_owned()),
        price_min: Some(1),
        price_max: Some(2),
        listed: Some(false),
    };
    let scoped = narrowed.scoped(true);
    assert_eq!(scoped.name.as_deref(), Some("Ket"));
    assert_eq!(scoped.price_min, Some(1));
    assert_eq!(scoped.price_max, Some(2));
    assert_eq!(scoped.listed, Some(true));
    assert_eq!(scoped.scoped(false).listed, None);
}

#[test]
fn a_category_keeps_its_key() {
    let category = Category::from_row(-3, "Kitchen".to_owned(), "Pots and pans".to_owned());
    assert_eq!(category.id(), -3);
    assert_eq!(category.name, "Kitchen");
    assert_eq!(category.description, "Pots and pans");
}

#[test]
fn an_order_is_fulfilled_once_confirmed() {
    assert_eq!(AppOrderStatus::Unconfirmed.confirmed(), AppOrderStatus::Confirmed);
    assert_eq!(AppOrderStatus::Confirmed.fulfilled(), Ok(AppOrderStatus::Fulfilled));
    assert_eq!(
        AppOrderStatus::Unconfirmed.fulfilled(),
        Err(OrderFulfilmentError::OrderNotConfirmed)
    );
    assert_eq!(
        AppOrderStatus::Fulfilled.fulfilled(),
        Err(OrderFulfilmentError::OrderNotConfirmed)
    );
}

#[test]
fn the_cost_of_an_order_is_the_sum_of_its_lines() {
    assert_eq!(total_cost(&Vec::new()), Ok(0));
    assert_eq!(total_cost(&vec![(1999, 2), (250, 3), (0, 7), (5, 0)]), Ok(4748));
    assert_eq!(MAX_AMOUNT, i64::MAX as u64);
    let big = (u32::MAX, u32::MAX);
    assert_eq!(total_cost(&vec![big]), Err(CostTooLarge));
    assert_eq!(total_cost(&vec![(u32::MAX, 2147483649)]), Err(CostTooLarge));
    assert_eq!(total_cost(&vec![(u32::MAX, 2147483648)]), Ok(9223372034707292160));
    assert_eq!(total_cost(&vec![(2147483648, 2147483648), (2147483648, 2147483647), (1, 2147483647)]), Ok(9223372036854775807));
    assert_eq!(total_cost(&vec![(2147483648, 2147483648), (2147483648, 2147483648)]), Err(CostTooLarge));
}

#[test]
fn a_user_is_changed_field_by_field() {
    let mut user = AppUser::from_row(
        UserId { value: 8 },
        email("old@example.org"),
        "Old".to_owned(),
        "Name".to_owned(),
        "Somewhere".to_owned(),
        AppUserRole::Customer,
    );
    let update = AppUserUpdate {
        email: Some(email("new@example.org")),
        forename: None,
        surname: Some("Surname".to_owned()),
        address: None,
    };
    assert_eq!(update.describe(), "email=new@example.org surname=[REDACTED] ");
    update.apply(&mut user);
    assert_eq!(user.email.as_str(), "new@example.org");
    assert_eq!(user.forename, "Old");
    assert_eq!(user.surname, "Surname");
    assert_eq!(user.address, "Somewhere");
    assert_eq!(user.id(), UserId { value: 8 });
    let nothing = AppUserUpdate { email: None, forename: None, surname: None, address: None };
    assert_eq!(nothing.describe(), "");
    let all = AppUserUpdate {
        email: None,
        forename: Some("x".to_owned()),
        surname: Some("y".to_owned()),
        address: Some("z".to_owned()),
    };
    assert_eq!(all.describe(), "forename=[REDACTED] surname=[REDACTED] address=[REDACTED] ");
}

#[test]
fn a_customer_can_be_made_administrator_once() {
    let mut user = AppUser::from_row(
        UserId { value: 8 },
        email("a@example.org"),
        String::new(),
        String::new(),
        String::new(),
        AppUserRole::Customer,
    );
    assert_eq!(user.profile().role, AppUserRole::Customer);
    assert_eq!(user.promote(), Ok(()));
    assert_eq!(user.role, AppUserRole::Administrator);
    assert_eq!(
        user.promote(),
        Err(UserPromotionError::AlreadyAdministrator(UserId { value: 8 }))
    );
    assert_eq!(user.profile().role, AppUserRole::Administrator);
    assert_eq!(user.profile().id, UserId { value: 8 });
    assert_eq!(AppUserRole::from_name("Administrator"), Some(AppUserRole::Administrator));
    assert_eq!(AppUserRole::from_name("Customer"), Some(AppUserRole::Customer));
    assert_eq!(AppUserRole::from_name("customer"), None);
    assert_eq!(AppUserRole::from_name(""), None);
    assert_eq!(AppUserRole::Administrator.name(), "Administrator");
    assert_eq!(AppUserRole::Customer.name(), "Customer");
    assert!(AppUserRole::Administrator.is_admin());
    assert!(!AppUserRole::Customer.is_admin());
    let search = AppUserSearchParameters::by_email(email("a@example.org"));
    assert_eq!(search.email.expect("the address").as_str(), "a@example.org");
    assert!(search.role.is_none());
}

#[test]
fn only_the_owner_gets_a_checkout_token() {
    let user_id = UserId { value: 1 };
    let other = UserId { value: 2 };
    let order_id = OrderId { value: 77 };
    let token = CheckoutToken::create(user_id, order_id, Some(user_id)).expect("the owner");
    assert_eq!(token.order_id(), order_id);
    assert_eq!(token.client_secret(), None);
    assert!(!token.payment_required());
    let missing = CheckoutToken::create(user_id, order_id, None).expect_err("no such order");
    assert_eq!(missing, CheckoutTokenCreateError::OrderNonExistent { user_id, order_id });
    assert_eq!(missing.status(), 403);
    let foreign = CheckoutToken::create(user_id, order_id, Some(other)).expect_err("another's");
    assert_eq!(foreign, CheckoutTokenCreateError::Unauthorized { user_id, order_id });
    assert_eq!(foreign.status(), 403);
}

#[test]
fn a_salt_is_16_random_bytes_in_base64() {
    let first = generate_salt().expect("the operating system gave random bytes");
    let second = generate_salt().expect("the operating system gave random bytes");
    assert_eq!(first.len(), 22);
    assert_eq!(second.len(), 22);
    assert_ne!(first, second);
    assert!(first.chars().all(|c| c.is_ascii_alphanumeric() || c == '+' || c == '/'));
    let made = PasswordInsert::new_with_salt(UserId { value: 1 }, "correct horse", &first)
        .expect("a drawn salt is accepted");
    assert!(made.hash().contains(&first));
}

#[test]
fn an_image_is_reached_under_store_bucket_and_path() {
    assert_eq!(image_uri("https://cdn.example", "media", "/images/ab.png"), "https://cdn.example/media/images/ab.png");
    assert_eq!(image_uri("", "media", "///images/ab.png"), "/media/images/ab.png");
    assert_eq!(image_uri("x", "b", "images/ab.png"), "x/b/images/ab.png");
    assert_eq!(image_uri("x", "b", ""), "x/b/");
    assert_eq!(
        normalise_image_path("https://cdn.example/media/images/ab.png", "https://cdn.example", "media"),
        "/images/ab.png"
    );
    assert_eq!(normalise_image_path("/images/ab.png", "", "media"), "/images/ab.png");
    assert_eq!(normalise_image_path("images/ab.png", "", "media"), "/images/ab.png");
    assert_eq!(normalise_image_path("//media//images/ab.png", "", "media"), "/images/ab.png");
    assert_eq!(normalise_image_path("mediamedia/x", "", "media"), "/x");
    assert_eq!(normalise_image_path("", "", ""), "/");
    assert_eq!(normalise_image_path("ababc", "ab", ""), "/c");
}

#[test]
fn statuses_go_by_their_names() {
    for status in [AppOrderStatus::Unconfirmed, AppOrderStatus::Confirmed, AppOrderStatus::Fulfilled] {
        assert_eq!(AppOrderStatus::from_name(status.name()), Some(status));
    }
    assert_eq!(AppOrderStatus::Unconfirmed.name(), "Unconfirmed");
    assert_eq!(AppOrderStatus::Confirmed.name(), "Confirmed");
    assert_eq!(AppOrderStatus::Fulfilled.name(), "Fulfilled");
    assert_eq!(AppOrderStatus::from_name("confirmed"), None);
    assert_eq!(AppOrderStatus::from_name(""), None);
}

#[test]
fn values_are_read_through_their_accessors() {
    let insert = ProductInsert::new("Kettle", "Boils water", false, 5);
    assert_eq!(insert.name(), "Kettle");
    assert_eq!(insert.description(), "Boils water");
    let product = Product::from_row(
        3,
        "Kettle".to_owned(),
        "Boils water".to_owned(),
        false,
        5,
        vec!["/images/a.png".to_owned()],
    )
    .expect("a good row");
    assert_eq!(product.name(), "Kettle");
    assert_eq!(product.description(), "Boils water");
    assert_eq!(product.images(), &vec!["/images/a.png".to_owned()]);
    assert!(!product.visible(false));
    assert!(product.visible(true));
    let listed = Product::from_row(3, String::new(), String::new(), true, 5, Vec::new())
        .expect("a good row");
    assert!(listed.visible(false));
    assert!(listed.visible(true));
    let category = Category::from_row(1, "Kitchen".to_owned(), "Pots".to_owned());
    assert_eq!(category.name(), "Kitchen");
    assert_eq!(category.description(), "Pots");
    let user = AppUser::from_row(
        UserId { value: 8 },
        email("a@example.org"),
        "F".to_owned(),
        "S".to_owned(),
        "A".to_owned(),
        AppUserRole::Administrator,
    );
    assert_eq!(user.email(), "a@example.org");
    assert_eq!(user.forename(), "F");
    assert_eq!(user.surname(), "S");
    assert_eq!(user.address(), "A");
    assert_eq!(user.role(), AppUserRole::Administrator);
}

#[test]
fn a_hash_that_names_too_many_lanes_accepts_nothing() {
    let hostile = "$argon2id$v=19$m=4294967295,t=1,p=536870912$c29tZXNhbHQ$zaPeFuUCYLtwp63duuZuiA";
    assert!(!has_lanes_in_range(hostile));
    let stored = Password::from_row(UserId { value: 1 }, hostile.to_owned());
    assert!(!stored.verify("anything"));
    assert!(!stored.verify(""));
    let larger = "$argon2id$v=19$m=8,t=1,p=99999999999999999999999$c29tZXNhbHQ$zaPeFuUCYLtwp63duuZuiA";
    assert!(!has_lanes_in_range(larger));
    assert!(!Password::from_row(UserId { value: 1 }, larger.to_owned()).verify("x"));
}

#[test]
fn lanes_are_read_wherever_a_text_names_them() {
    assert!(has_lanes_in_range(""));
    assert!(has_lanes_in_range("p"));
    assert!(has_lanes_in_range("p="));
    assert!(has_lanes_in_range("p=1"));
    assert!(has_lanes_in_range("p=536870911"));
    assert!(!has_lanes_in_range("p=536870912"));
    assert!(!has_lanes_in_range("p=0536870912"));
    assert!(has_lanes_in_range("p=53687091x2"));
    assert!(!has_lanes_in_range("m=1,p=1,p=4294967296"));
    assert!(has_lanes_in_range("q=536870912"));
    assert!(has_lanes_in_range("p 536870912"));
    assert!(has_lanes_in_range("$argon2id$v=19$m=12288,t=3,p=1$c29tZXNhbHQ$zaPeFuUCYLtwp63duuZuiA"));
    assert!(has_lanes_in_range("é=p=16777215é"));
    let made = PasswordInsert::new_with_salt(UserId { value: 1 }, "correct horse", "c29tZXNhbHRzb21lc2FsdA")
        .expect("hashing works");
    assert!(has_lanes_in_range(made.hash()));
}
