//! Credentials as values: password hashes and one-time-password secrets, and
//! the checks on them. The hashing is Argon2id's and the one-time passwords
//! are RFC 6238's; neither is written here.

use crate::token::random_bytes;
use crate::users::UserId;
use vstd::prelude::*;
use vstd::std_specs::iter::IteratorSpec;
use vstd::string::*;

verus! {

/// Memory that one hash takes, in KiB.
pub const ARGON2_MEMORY_KIB: u32 = 12288;

/// Passes over the memory that one hash takes.
pub const ARGON2_PASSES: u32 = 3;

/// Lanes that one hash is computed in.
pub const ARGON2_LANES: u32 = 1;

/// The most lanes that Argon2 allows.
pub const ARGON2_MAX_LANES: u32 = 0xFF_FFFF;

/// The number of lanes from which eight times the number is no `u32`.
pub const LANES_OVERFLOW: u32 = 0x2000_0000;

/// Number of random bytes of a one-time-password secret.
pub const TOTP_SECRET_BYTES: usize = 32;

/// Whether `hash` reads as a password hash in PHC format and Argon2, with
/// the parameters and the salt that the hash names, accepts `password` for
/// it.
pub uninterp spec fn argon2_verifies(hash: Seq<char>, password: Seq<char>) -> bool;

/// What RFC 6238 says of a code at a time: whether the code is the one-time
/// password of `secret` for the 30-second step of `time`, in seconds since
/// the epoch, or for the step before or after it, with six digits and
/// SHA-1. `None` where the secret is shorter than the RFC allows.
pub uninterp spec fn totp_accepts(secret: Seq<u8>, code: Seq<char>, time: u64) -> Option<bool>;

/// The hash of `password` in PHC format that Argon2id, version 0x13, gives
/// with the salt, itself in the PHC format's Base64, and the cost parameters.
/// `None` where the salt or the parameters are refused.
pub uninterp spec fn argon2id_phc(
    password: Seq<char>,
    salt: Seq<char>,
    memory_kib: u32,
    passes: u32,
    lanes: u32,
) -> Option<Seq<char>>;

/// The value of a decimal digit; `None` for any other character.
pub open spec fn digit_value(c: char) -> Option<nat> {
    if c == '0' {
        Some(0)
    } else if c == '1' {
        Some(1)
    } else if c == '2' {
        Some(2)
    } else if c == '3' {
        Some(3)
    } else if c == '4' {
        Some(4)
    } else if c == '5' {
        Some(5)
    } else if c == '6' {
        Some(6)
    } else if c == '7' {
        Some(7)
    } else if c == '8' {
        Some(8)
    } else if c == '9' {
        Some(9)
    } else {
        None
    }
}

/// The number that the characters of `text` from `from` up to `to` write in
/// decimal, where they are digits.
pub open spec fn number_in(text: Seq<char>, from: int, to: int) -> nat
    decreases to - from,
{
    if to <= from {
        0
    } else {
        number_in(text, from, to - 1) * 10 + (match digit_value(text[to - 1]) {
            Some(digit) => digit,
            None => 0,
        })
    }
}

/// Where the digits that begin at `from` end.
pub open spec fn digits_end(text: Seq<char>, from: int) -> int
    decreases text.len() - from,
{
    if 0 <= from < text.len() && digit_value(text[from]) is Some {
        digits_end(text, from + 1)
    } else {
        from
    }
}

/// Whether the text names a number of lanes at `at`: a `p` and an equals
/// sign.
pub open spec fn names_lanes(text: Seq<char>, at: int) -> bool {
    0 <= at && at + 1 < text.len() && text[at] == 'p' && text[at + 1] == '='
}

/// The number of lanes that the text names at `at`.
pub open spec fn lanes_at(text: Seq<char>, at: int) -> nat {
    number_in(text, at + 2, digits_end(text, at + 2))
}

/// Whether eight times every number of lanes that the text names is a
/// `u32`.
pub open spec fn lanes_in_range(text: Seq<char>) -> bool {
    forall|at: int| names_lanes(text, at) ==> #[trigger] lanes_at(text, at) < LANES_OVERFLOW
}

fn digit(c: char) -> (value: Option<u32>)
    ensures
        match value {
            Some(digit) => digit_value(c) == Some(digit as nat) && digit <= 9,
            None => digit_value(c) is None,
        },
{
    if c == '0' {
        Some(0)
    } else if c == '1' {
        Some(1)
    } else if c == '2' {
        Some(2)
    } else if c == '3' {
        Some(3)
    } else if c == '4' {
        Some(4)
    } else if c == '5' {
        Some(5)
    } else if c == '6' {
        Some(6)
    } else if c == '7' {
        Some(7)
    } else if c == '8' {
        Some(8)
    } else if c == '9' {
        Some(9)
    } else {
        None
    }
}

fn chars_of(text: &str) -> (chars: Vec<char>)
    ensures
        chars@ == text@,
{
    let mut chars: Vec<char> = Vec::new();
    let iterator = text.chars();
    for c in it: iterator
        invariant
            it.seq() == text@,
            chars@ == text@.take(it.index() as int),
    {
        chars.push(c);
        assert(chars@ =~= text@.take(it.index() + 1));
    }
    assert(text@.take(text@.len() as int) =~= text@);
    chars
}

/// Digits do not end before the last of them.
proof fn lemma_digits_go_on(text: Seq<char>, from: int, to: int)
    requires
        0 <= from <= to <= text.len(),
        forall|j: int| from <= j < to ==> digit_value(#[trigger] text[j]) is Some,
    ensures
        digits_end(text, from) == digits_end(text, to),
    decreases to - from,
{
    if from < to {
        lemma_digits_go_on(text, from + 1, to);
    }
}

/// Whether the number that the digits from `from` on write is below the
/// number of lanes that overflows.
fn number_below_overflow(chars: &Vec<char>, from: usize) -> (below: bool)
    requires
        from <= chars.len(),
    ensures
        below == (number_in(chars@, from as int, digits_end(chars@, from as int)) < LANES_OVERFLOW),
{
    let mut i: usize = from;
    let mut value: u32 = 0;
    while i < chars.len()
        invariant
            from <= i <= chars.len(),
            forall|j: int| from <= j < i ==> digit_value(#[trigger] chars@[j]) is Some,
            value == number_in(chars@, from as int, i as int),
            value < LANES_OVERFLOW,
        decreases chars.len() - i,
    {
        match digit(chars[i]) {
            Some(d) => {
                let next: u64 = (value as u64) * 10 + (d as u64);
                assert(next == number_in(chars@, from as int, i + 1));
                if next >= LANES_OVERFLOW as u64 {
                    proof {
                        lemma_digits_go_on(chars@, from as int, i + 1);
                        lemma_digits_end_bounds(chars@, i + 1);
                        lemma_number_grows(chars@, from as int, i + 1, digits_end(chars@, i + 1));
                    }
                    return false;
                }
                value = next as u32;
                i = i + 1;
            },
            None => {
                proof {
                    lemma_digits_go_on(chars@, from as int, i as int);
                }
                return true;
            },
        }
    }
    proof {
        lemma_digits_go_on(chars@, from as int, i as int);
    }
    true
}

/// The digits that begin at `from` end at or after `from`, within the text.
proof fn lemma_digits_end_bounds(text: Seq<char>, from: int)
    requires
        0 <= from <= text.len(),
    ensures
        from <= digits_end(text, from) <= text.len(),
    decreases text.len() - from,
{
    if from < text.len() && digit_value(text[from]) is Some {
        lemma_digits_end_bounds(text, from + 1);
    }
}

/// More digits write no smaller a number.
proof fn lemma_number_grows(text: Seq<char>, from: int, to: int, further: int)
    requires
        from <= to <= further,
    ensures
        number_in(text, from, to) <= number_in(text, from, further),
    decreases further - to,
{
    if to < further {
        lemma_number_grows(text, from, to, further - 1);
    }
}

/// Decides whether eight times every number of lanes that a text names is
/// a `u32`.
pub fn has_lanes_in_range(text: &str) -> (safe: bool)
    ensures
        safe == lanes_in_range(text@),
{
    let chars = chars_of(text);
    let length = chars.len();
    if length < 2 {
        return true;
    }
    let mut at: usize = 0;
    while at < length - 1
        invariant
            chars@ == text@,
            length == chars.len(),
            length >= 2,
            at <= length - 1,
            forall|j: int| 0 <= j < at && names_lanes(chars@, j) ==> #[trigger] lanes_at(chars@, j)
                < LANES_OVERFLOW,
        decreases length - at,
    {
        if chars[at] == 'p' && chars[at + 1] == '=' {
            if !number_below_overflow(&chars, at + 2) {
                assert(names_lanes(chars@, at as int) && !(lanes_at(chars@, at as int)
                    < LANES_OVERFLOW));
                return false;
            }
        }
        at = at + 1;
    }
    true
}

/// Number of random bytes behind a salt.
pub const SALT_BYTES: usize = 16;

/// The writing of salt bytes in the PHC format's Base64. `None` where the
/// bytes are too many to be a salt.
pub uninterp spec fn salt_text(bytes: Seq<u8>) -> Option<Seq<char>>;

/// Writes salt bytes in the PHC format's Base64 with
/// `password_hash::SaltString::encode_b64`. `None` where the bytes are
/// refused.
#[verifier::external_body]
fn encode_salt(bytes: &[u8]) -> (salt: Option<String>)
    ensures
        match salt {
            Some(text) => salt_text(bytes@) == Some(text@),
            None => salt_text(bytes@) is None,
        },
{
    match argon2::password_hash::SaltString::encode_b64(bytes) {
        Ok(salt) => Some(salt.as_str().to_owned()),
        Err(_) => None,
    }
}

/// Draws a salt: 16 bytes from the operating system's random source, in the
/// PHC format's Base64. `None` where the source fails.
pub fn generate_salt() -> (salt: Option<String>)
    ensures
        salt matches Some(text) ==> exists|bytes: Seq<u8>|
            bytes.len() == SALT_BYTES && #[trigger] salt_text(bytes) == Some(text@),
{
    match random_bytes(SALT_BYTES) {
        Some(bytes) => {
            let salt = encode_salt(bytes.as_slice());
            proof {
                if salt is Some {
                    assert(salt_text(bytes@) == Some(salt->0@));
                }
            }
            salt
        },
        None => None,
    }
}

/// Hashes a password with `argon2::Argon2::hash_password`, as Argon2id
/// version 0x13 with the given salt and cost parameters. The result is the
/// hash in PHC format, and the same library verifies the password against
/// it. `None` where the salt, the parameters or the hashing are refused.
/// More lanes than Argon2 allows are left out: `argon2::Params::new`
/// multiplies the lanes by eight before it looks at their number.
#[verifier::external_body]
fn argon2id_hash(password: &str, salt: &str, memory_kib: u32, passes: u32, lanes: u32) -> (hash:
    Option<String>)
    requires
        lanes <= ARGON2_MAX_LANES,
    ensures
        match hash {
            Some(text) => argon2id_phc(password@, salt@, memory_kib, passes, lanes) == Some(text@)
                && argon2_verifies(text@, password@),
            None => argon2id_phc(password@, salt@, memory_kib, passes, lanes) is None,
        },
{
    let salt = argon2::password_hash::SaltString::from_b64(salt).ok()?;
    let params = argon2::Params::new(memory_kib, passes, lanes, None).ok()?;
    let hasher = argon2::Argon2::new(argon2::Algorithm::Argon2id, argon2::Version::V0x13, params);
    let hash = argon2::PasswordHasher::hash_password(&hasher, password.as_bytes(), &salt).ok()?;
    Some(hash.to_string())
}

/// Verifies a password against a stored hash with
/// `argon2::PasswordHash::new` and `argon2::Argon2::verify_password`. A
/// stored text that does not read as a hash verifies nothing. A text that
/// names so many lanes that eight times their number is no `u32` is left
/// out: `argon2::Params::new`, which the verification reaches with the
/// lanes that the text names, multiplies them by eight before it looks at
/// their number.
#[verifier::external_body]
fn argon2_verify(hash: &str, password: &str) -> (accepted: bool)
    requires
        lanes_in_range(hash@),
    ensures
        accepted == argon2_verifies(hash@, password@),
{
    match argon2::PasswordHash::new(hash) {
        Ok(parsed) => argon2::PasswordVerifier::verify_password(
            &argon2::Argon2::default(),
            password.as_bytes(),
            &parsed,
        ).is_ok(),
        Err(_) => false,
    }
}

/// Checks a code against a secret at a given time with
/// `totp_rs::TOTP::check`, the verifier being made by
/// `totp_rs::Rfc6238::with_defaults` and `totp_rs::TOTP::from_rfc6238`.
/// `None` where the secret is refused.
#[verifier::external_body]
fn totp_check(secret: &Vec<u8>, code: &str, time: u64) -> (verdict: Option<bool>)
    requires
        30 <= time <= u64::MAX - 30,
    ensures
        verdict == totp_accepts(secret@, code@, time),
{
    let options = totp_rs::Rfc6238::with_defaults(secret.clone()).ok()?;
    let verifier = totp_rs::TOTP::from_rfc6238(options).ok()?;
    Some(verifier.check(code, time))
}

/// The seconds since the epoch by the system's clock, read with
/// `std::time::SystemTime::now`. `None` where the clock is set before the
/// epoch.
#[verifier::external_body]
fn unix_time() -> (seconds: Option<u64>) {
    match std::time::SystemTime::now().duration_since(std::time::UNIX_EPOCH) {
        Ok(elapsed) => Some(elapsed.as_secs()),
        Err(_) => None,
    }
}

/// A password credential that is about to be stored: the user and the hash
/// of the password.
#[derive(Debug)]
pub struct PasswordInsert {
    user_id: UserId,
    password: String,
}

/// A stored password credential.
#[derive(Debug)]
pub struct Password {
    user_id: UserId,
    password: String,
}

/// The mathematical content of a password credential.
pub struct PasswordView {
    pub user_id: UserId,
    /// The hash of the password, in PHC format.
    pub hash: Seq<char>,
}

impl View for PasswordInsert {
    type V = PasswordView;

    closed spec fn view(&self) -> PasswordView {
        PasswordView { user_id: self.user_id, hash: self.password@ }
    }
}

impl View for Password {
    type V = PasswordView;

    closed spec fn view(&self) -> PasswordView {
        PasswordView { user_id: self.user_id, hash: self.password@ }
    }
}

/// The hash that a password gets with a salt under the library's cost
/// parameters.
pub open spec fn password_hash(password: Seq<char>, salt: Seq<char>) -> Option<Seq<char>> {
    argon2id_phc(password, salt, ARGON2_MEMORY_KIB, ARGON2_PASSES, ARGON2_LANES)
}

impl PasswordInsert {
    /// The credential of a user with the given password, hashed with the
    /// given salt. `None` where the salt is refused or the password cannot
    /// be hashed.
    pub fn new_with_salt(user_id: UserId, password: &str, salt: &str) -> (credential: Option<
        PasswordInsert,
    >)
        ensures
            match credential {
                Some(made) => password_hash(password@, salt@) == Some(made@.hash) && made@.user_id
                    == user_id && argon2_verifies(made@.hash, password@),
                None => password_hash(password@, salt@) is None,
            },
    {
        match argon2id_hash(password, salt, ARGON2_MEMORY_KIB, ARGON2_PASSES, ARGON2_LANES) {
            Some(hash) => Some(PasswordInsert { user_id, password: hash }),
            None => None,
        }
    }

    /// The credential of a user with the given password: the password is
    /// hashed with a fresh salt and not kept. `None` where no salt can be
    /// drawn or the password cannot be hashed.
    pub fn new(user_id: UserId, password: &str) -> (credential: Option<PasswordInsert>)
        ensures
            credential matches Some(made) ==> made@.user_id == user_id && argon2_verifies(
                made@.hash,
                password@,
            ) && exists|salt: Seq<char>| #[trigger] password_hash(password@, salt) == Some(
                made@.hash,
            ),
    {
        match generate_salt() {
            Some(salt) => {
                let credential = Self::new_with_salt(user_id, password, salt.as_str());
                proof {
                    if credential is Some {
                        assert(password_hash(password@, salt@) == Some(credential->0@.hash));
                    }
                }
                credential
            },
            None => None,
        }
    }

    /// The user of the credential.
    pub fn user_id(&self) -> (user_id: UserId)
        ensures
            user_id == self@.user_id,
    {
        self.user_id
    }

    /// The hash of the password, in PHC format.
    pub fn hash(&self) -> (hash: &str)
        ensures
            hash@ == self@.hash,
    {
        self.password.as_str()
    }
}

impl Password {
    /// The credential of a stored row.
    pub fn from_row(user_id: UserId, hash: String) -> (credential: Password)
        ensures
            credential@ == (PasswordView { user_id, hash: hash@ }),
    {
        Password { user_id, password: hash }
    }

    /// The user of the credential.
    pub fn user_id(&self) -> (user_id: UserId)
        ensures
            user_id == self@.user_id,
    {
        self.user_id
    }

    /// The hash of the password, in PHC format.
    pub fn hash(&self) -> (hash: &str)
        ensures
            hash@ == self@.hash,
    {
        self.password.as_str()
    }

    /// Whether the password is the one that the credential was made with. A
    /// credential whose stored text is no hash accepts no password, nor does
    /// one whose stored text names more lanes than can be counted.
    pub fn verify(&self, password: &str) -> (accepted: bool)
        ensures
            accepted == (lanes_in_range(self@.hash) && argon2_verifies(self@.hash, password@)),
    {
        if has_lanes_in_range(self.password.as_str()) {
            argon2_verify(self.password.as_str(), password)
        } else {
            false
        }
    }

    /// Replaces the password of the credential, hashing the new one with the
    /// given salt. Says whether it did: where the new password cannot be
    /// hashed, the credential stays as it is.
    pub fn set_password_with_salt(&mut self, password: &str, salt: &str) -> (changed: bool)
        ensures
            changed == password_hash(password@, salt@) is Some,
            changed ==> final(self)@ == (PasswordView {
                user_id: old(self)@.user_id,
                hash: password_hash(password@, salt@)->0,
            }) && argon2_verifies(final(self)@.hash, password@),
            !changed ==> final(self)@ == old(self)@,
    {
        match argon2id_hash(password, salt, ARGON2_MEMORY_KIB, ARGON2_PASSES, ARGON2_LANES) {
            Some(hash) => {
                self.password = hash;
                true
            },
            None => false,
        }
    }

    /// Replaces the password of the credential, hashing the new one with a
    /// fresh salt. Says whether it did: where no salt can be drawn or the
    /// new password cannot be hashed, the credential stays as it is.
    pub fn set_password(&mut self, password: &str) -> (changed: bool)
        ensures
            final(self)@.user_id == old(self)@.user_id,
            changed ==> argon2_verifies(final(self)@.hash, password@) && exists|salt: Seq<char>|
                #[trigger] password_hash(password@, salt) == Some(final(self)@.hash),
            !changed ==> final(self)@ == old(self)@,
    {
        match generate_salt() {
            Some(salt) => {
                let changed = self.set_password_with_salt(password, salt.as_str());
                proof {
                    if changed {
                        assert(password_hash(password@, salt@) == Some(self@.hash));
                    }
                }
                changed
            },
            None => false,
        }
    }
}

/// What a code is worth against a secret at a given time. Before the first
/// full step after the epoch, and at the very end of time, no code is
/// accepted; nor is any against a secret that the RFC refuses.
pub open spec fn code_accepted(secret: Seq<u8>, code: Seq<char>, time: u64) -> bool {
    30 <= time <= u64::MAX - 30 && totp_accepts(secret, code, time) == Some(true)
}

/// Checks a code against a secret at a given time.
pub fn validate_code_at(secret: &Vec<u8>, code: &str, time: u64) -> (accepted: bool)
    ensures
        accepted == code_accepted(secret@, code@, time),
{
    if time < 30 || time > u64::MAX - 30 {
        false
    } else {
        match totp_check(secret, code, time) {
            Some(verdict) => verdict,
            None => false,
        }
    }
}

/// Checks a code against a secret by the system's clock. Where the clock
/// cannot be read, no code is accepted.
pub fn validate_code(secret: &Vec<u8>, code: &str) -> (accepted: bool)
    ensures
        accepted ==> exists|time: u64| code_accepted(secret@, code@, time),
{
    match unix_time() {
        Some(time) => {
            let accepted = validate_code_at(secret, code, time);
            assert(accepted ==> code_accepted(secret@, code@, time));
            accepted
        },
        None => false,
    }
}

/// A one-time-password secret that is about to be stored for a user.
#[derive(Debug)]
pub struct TotpInsert {
    /// The user who will use the secret.
    pub user_id: UserId,
    /// The secret bytes.
    pub secret: Vec<u8>,
}

impl TotpInsert {
    /// Whether the code is the one-time password of the secret at the given
    /// time.
    pub fn validate_at(&self, code: &str, time: u64) -> (accepted: bool)
        ensures
            accepted == code_accepted(self.secret@, code@, time),
    {
        validate_code_at(&self.secret, code, time)
    }

    /// Whether the code is the one-time password of the secret now, by the
    /// system's clock.
    pub fn validate(&self, code: &str) -> (accepted: bool)
        ensures
            accepted ==> exists|time: u64| code_accepted(self.secret@, code@, time),
    {
        validate_code(&self.secret, code)
    }
}

/// A stored one-time-password secret.
#[derive(Debug)]
pub struct Totp {
    user_id: UserId,
    secret: Vec<u8>,
}

/// The mathematical content of a [`Totp`].
pub struct TotpView {
    pub user_id: UserId,
    pub secret: Seq<u8>,
}

impl View for Totp {
    type V = TotpView;

    closed spec fn view(&self) -> TotpView {
        TotpView { user_id: self.user_id, secret: self.secret@ }
    }
}

impl Totp {
    /// The secret of a stored row.
    pub fn from_row(user_id: UserId, secret: Vec<u8>) -> (stored: Totp)
        ensures
            stored@ == (TotpView { user_id, secret: secret@ }),
    {
        Totp { user_id, secret }
    }

    /// The user of the secret.
    pub fn user_id(&self) -> (user_id: UserId)
        ensures
            user_id == self@.user_id,
    {
        self.user_id
    }

    /// Whether the code is the one-time password of the secret at the given
    /// time.
    pub fn validate_at(&self, code: &str, time: u64) -> (accepted: bool)
        ensures
            accepted == code_accepted(self@.secret, code@, time),
    {
        validate_code_at(&self.secret, code, time)
    }

    /// Whether the code is the one-time password of the secret now, by the
    /// system's clock.
    pub fn validate(&self, code: &str) -> (accepted: bool)
        ensures
            accepted ==> exists|time: u64| code_accepted(self@.secret, code@, time),
    {
        let accepted = validate_code(&self.secret, code);
        proof {
            if accepted {
                let time = choose|time: u64| code_accepted(self.secret@, code@, time);
                assert(code_accepted(self@.secret, code@, time));
            }
        }
        accepted
    }
}

/// Why a second factor could not be set.
#[derive(Clone, Copy, Debug, PartialEq, Eq, Structural)]
pub enum SetTotpError {
    /// The code that came with the secret is not the secret's.
    IncorrectCode(UserId),
}

/// Takes a new secret for a user if the code that comes with it shows that
/// the user's authenticator holds the secret, at the given time.
pub fn set_2fa_at(user_id: UserId, secret: Vec<u8>, code: &str, time: u64) -> (outcome: Result<
    TotpInsert,
    SetTotpError,
>)
    ensures
        outcome is Ok == code_accepted(secret@, code@, time),
        outcome matches Ok(taken) ==> taken.user_id == user_id && taken.secret@ == secret@,
        outcome matches Err(error) ==> error == SetTotpError::IncorrectCode(user_id),
{
    let candidate = TotpInsert { user_id, secret };
    if candidate.validate_at(code, time) {
        Ok(candidate)
    } else {
        Err(SetTotpError::IncorrectCode(user_id))
    }
}

/// Takes a new secret for a user if the code that comes with it shows, by
/// the system's clock, that the user's authenticator holds the secret.
pub fn set_2fa(user_id: UserId, secret: Vec<u8>, code: &str) -> (outcome: Result<
    TotpInsert,
    SetTotpError,
>)
    ensures
        outcome matches Ok(taken) ==> taken.user_id == user_id && taken.secret@ == secret@
            && exists|time: u64| code_accepted(secret@, code@, time),
        outcome matches Err(error) ==> error == SetTotpError::IncorrectCode(user_id),
{
    let candidate = TotpInsert { user_id, secret };
    if candidate.validate(code) {
        Ok(candidate)
    } else {
        Err(SetTotpError::IncorrectCode(user_id))
    }
}

/// Draws a new one-time-password secret from the operating system's random
/// source: 32 bytes. `None` where the source fails.
pub fn generate_2fa() -> (secret: Option<Vec<u8>>)
    ensures
        secret matches Some(bytes) ==> bytes.len() == TOTP_SECRET_BYTES,
{
    random_bytes(TOTP_SECRET_BYTES)
}

} // verus!
