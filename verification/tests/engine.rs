//! The machines of the engine, run against a store and a directory that live
//! in memory and behave as Redis and the user database would.

use std::collections::HashMap;

use securecart::access::{
    may_checkout, may_delete_order, may_delete_self, may_delete_user, may_update_user,
    may_view_order, order_search_scope, AccessDenied,
};
use securecart::admission::{session_middleware, session_middleware_no_csrf, Admission, Rejection};
use securecart::auth::{authenticate as authenticate_with, AuthenticationOutcome, AuthenticationStep};
use securecart::creation::{CreationStep, MAX_ATTEMPTS};
use securecart::directory::{
    Answer, DirectoryFault, MfaAuthenticationMethod, PrimaryAuthenticationMethod, Query, Request,
    Response, StorageError,
};
use securecart::email::EmailAddress;
use securecart::guard::{bruteforce_timeout, GuardStep};
use securecart::http::{HeaderValue, SameSite};
use securecart::login::{login, second_factor_grant, LoginGrant, LoginRejection, LoginStep};
use securecart::lookup::{Lookup, LookupStep, RemovalStep};
use securecart::promotion::PromotionStep;
use securecart::protocol::{Command, Reply, Step};
use securecart::registration::{
    add_credential_and_commit, signup_init, AddCredentialError, CommitStep, SignupInitError,
    SignupStep,
};
use securecart::second_factor::{authenticate_2fa, AuthenticationOutcome2fa, SecondFactorStep};
use securecart::sessions::{
    AdministratorSession, BaseSession, CustomerSession, GenericAuthenticatedSession,
    PreAuthenticationSession, RegistrationSession, SessionTrait,
};
use securecart::store::{
    Field, SessionInfo, SessionStorageError, SessionType, StorageFault, Value,
};
use securecart::users::{AppUserInsert, AppUserRole, UserId, UserProfile};

struct Record {
    fields: HashMap<Field, Value>,
    count: u32,
    ttl: Option<u64>,
}

/// A session store in memory. `fail_at` makes the command with that number
/// fail; `rival` is written under a key the moment a field of it is claimed,
/// as a concurrent writer would.
struct Store {
    records: HashMap<String, Record>,
    commands: Vec<Command>,
    fail_at: Option<usize>,
    rival: Option<(String, Field, Value)>,
}

fn copy_command(command: &Command) -> Command {
    match command {
        Command::Exists { key } => Command::Exists { key: key.clone() },
        Command::SetIfAbsent { key, field, value } => Command::SetIfAbsent {
            key: key.clone(),
            field: *field,
            value: value.duplicate(),
        },
        Command::ReadFields { key, fields } => Command::ReadFields {
            key: key.clone(),
            fields: fields.clone(),
        },
        Command::WriteFields { key, entries } => Command::WriteFields {
            key: key.clone(),
            entries: entries.iter().map(|(field, value)| (*field, value.duplicate())).collect(),
        },
        Command::Expire { key, seconds } => Command::Expire { key: key.clone(), seconds: *seconds },
        Command::Delete { key } => Command::Delete { key: key.clone() },
        Command::Increment { key } => Command::Increment { key: key.clone() },
    }
}

impl Store {
    fn new() -> Store {
        Store { records: HashMap::new(), commands: Vec::new(), fail_at: None, rival: None }
    }

    fn record(&mut self, key: &str) -> &mut Record {
        self.records
            .entry(key.to_owned())
            .or_insert_with(|| Record { fields: HashMap::new(), count: 0, ttl: None })
    }

    fn perform(&mut self, command: Command) -> Reply {
        self.commands.push(copy_command(&command));
        if self.fail_at == Some(self.commands.len()) {
            return Reply::Failed("connection reset".to_owned());
        }
        match command {
            Command::Exists { key } => Reply::Exists(self.records.contains_key(&key)),
            Command::SetIfAbsent { key, field, value } => {
                if let Some((rival_key, rival_field, rival_value)) = self.rival.take() {
                    if rival_key == key {
                        self.record(&key).fields.insert(rival_field, rival_value);
                    } else {
                        self.rival = Some((rival_key, rival_field, rival_value));
                    }
                }
                self.record(&key).fields.entry(field).or_insert(value);
                Reply::Done
            }
            Command::ReadFields { key, fields } => Reply::Values(
                fields
                    .iter()
                    .map(|field| {
                        self.records
                            .get(&key)
                            .and_then(|record| record.fields.get(field))
                            .map(|value| value.duplicate())
                    })
                    .collect(),
            ),
            Command::WriteFields { key, entries } => {
                for (field, value) in entries {
                    self.record(&key).fields.insert(field, value);
                }
                Reply::Done
            }
            Command::Expire { key, seconds } => {
                if let Some(record) = self.records.get_mut(&key) {
                    record.ttl = Some(u64::from(seconds));
                }
                Reply::Done
            }
            Command::Delete { key } => {
                self.records.remove(&key);
                Reply::Done
            }
            Command::Increment { key } => {
                let record = self.record(&key);
                record.count += 1;
                Reply::Count(record.count)
            }
        }
    }

    fn elapse(&mut self, seconds: u64) {
        self.records.retain(|_, record| match record.ttl {
            Some(left) => left > seconds,
            None => true,
        });
        for record in self.records.values_mut() {
            if let Some(left) = record.ttl.as_mut() {
                *left -= seconds;
            }
        }
    }

    fn ttl(&self, key: &str) -> Option<u64> {
        self.records.get(key).and_then(|record| record.ttl)
    }
}

struct Person {
    profile: UserProfile,
    email: String,
    password: Option<String>,
    code: Option<String>,
}

/// A user directory in memory. `fail_attach` makes the attaching of a
/// credential fail.
struct Directory {
    people: Vec<Person>,
    next_id: u128,
    fail_attach: bool,
    fail_remove: bool,
    queries: usize,
}

impl Directory {
    fn new() -> Directory {
        Directory { people: Vec::new(), next_id: 1000, fail_attach: false, fail_remove: false, queries: 0 }
    }

    fn with(mut self, id: u128, email: &str, password: &str, role: AppUserRole, code: Option<&str>) -> Directory {
        self.people.push(Person {
            profile: UserProfile { id: UserId { value: id }, role },
            email: email.to_owned(),
            password: Some(password.to_owned()),
            code: code.map(str::to_owned),
        });
        self
    }

    fn knows(&self, email: &str) -> bool {
        self.people.iter().any(|person| person.email == email)
    }

    fn perform(&mut self, query: Query) -> Answer {
        self.queries += 1;
        match query {
            Query::FindUser { email } => Answer::User(
                self.people
                    .iter()
                    .find(|person| person.email == email.as_str())
                    .map(|person| person.profile),
            ),
            Query::SelectUser { user_id } => Answer::User(
                self.people
                    .iter()
                    .find(|person| person.profile.id == user_id)
                    .map(|person| person.profile),
            ),
            Query::VerifyPrimary { user_id, credential } => {
                let PrimaryAuthenticationMethod::Password { password } = credential;
                Answer::Verdict(self.people.iter().any(|person| {
                    person.profile.id == user_id && person.password.as_deref() == Some(password.as_str())
                }))
            }
            Query::HasSecondFactor { user_id } => Answer::Verdict(
                self.people
                    .iter()
                    .any(|person| person.profile.id == user_id && person.code.is_some()),
            ),
            Query::VerifySecondFactor { user_id, credential } => {
                let MfaAuthenticationMethod::Totp { code } = credential;
                Answer::Verdict(self.people.iter().any(|person| {
                    person.profile.id == user_id && person.code.as_deref() == Some(code.as_str())
                }))
            }
            Query::CreateUser { user_data } => {
                let id = UserId { value: self.next_id };
                self.next_id += 1;
                self.people.push(Person {
                    profile: UserProfile { id, role: AppUserRole::Customer },
                    email: user_data.email.to_text(),
                    password: None,
                    code: None,
                });
                Answer::Created(id)
            }
            Query::AttachCredential { user_id, credential } => {
                if self.fail_attach {
                    return Answer::Failed("disk full".to_owned());
                }
                let PrimaryAuthenticationMethod::Password { password } = credential;
                for person in self.people.iter_mut() {
                    if person.profile.id == user_id {
                        person.password = Some(password.clone());
                    }
                }
                Answer::Done
            }
            Query::RemoveUser { user_id } => {
                if self.fail_remove {
                    return Answer::Failed("lock timeout".to_owned());
                }
                self.people.retain(|person| person.profile.id != user_id);
                Answer::Done
            }
        }
    }
}

fn token(fill: char) -> String {
    std::iter::repeat(fill).take(48).collect()
}

fn email(text: &str) -> EmailAddress {
    EmailAddress::try_from(text.to_owned()).expect("a valid address")
}

fn password(text: &str) -> PrimaryAuthenticationMethod {
    PrimaryAuthenticationMethod::Password { password: text.to_owned() }
}

fn totp(text: &str) -> MfaAuthenticationMethod {
    MfaAuthenticationMethod::Totp { code: text.to_owned() }
}

fn ada() -> AppUserInsert {
    AppUserInsert::new(email("ada@example.org"), "Ada", "Lovelace", "12 St James's Square")
}

fn respond(store: &mut Store, directory: &mut Directory, request: Request) -> Response {
    match request {
        Request::Store(command) => Response::Store(store.perform(command)),
        Request::Directory(query) => Response::Directory(directory.perform(query)),
    }
}

/// Tokens for the machines: the given ones first, then ever new ones.
struct Supply {
    given: Vec<String>,
    made: u64,
}

fn tokens(given: Vec<String>) -> Supply {
    Supply { given, made: 0 }
}

fn next(supply: &mut Supply) -> String {
    if supply.given.is_empty() {
        supply.made += 1;
        format!("{:048x}", supply.made)
    } else {
        supply.given.remove(0)
    }
}

fn run_creation(store: &mut Store, mut step: CreationStep, supply: &mut Supply) -> Result<BaseSession, SessionStorageError> {
    loop {
        match step {
            Step::Finish(outcome) => return outcome,
            Step::Send(machine, command) => {
                let reply = store.perform(command);
                let fresh = if machine.needs_token(&reply) { next(supply) } else { String::new() };
                step = machine.resume_with(reply, fresh);
            }
        }
    }
}

fn run_lookup(store: &mut Store, mut step: LookupStep) -> Result<Option<BaseSession>, SessionStorageError> {
    loop {
        match step {
            Step::Finish(outcome) => return outcome,
            Step::Send(machine, command) => step = machine.resume(store.perform(command)),
        }
    }
}

fn run_removal(store: &mut Store, mut step: RemovalStep) -> Result<(), SessionStorageError> {
    loop {
        match step {
            Step::Finish(outcome) => return outcome,
            Step::Send(machine, command) => step = machine.resume(store.perform(command)),
        }
    }
}

fn run_promotion(store: &mut Store, mut step: PromotionStep, supply: &mut Supply) -> Result<GenericAuthenticatedSession, SessionStorageError> {
    loop {
        match step {
            Step::Finish(outcome) => return outcome,
            Step::Send(machine, command) => {
                let reply = store.perform(command);
                let fresh = if machine.needs_token(&reply) { next(supply) } else { String::new() };
                step = machine.resume_with(reply, fresh);
            }
        }
    }
}

fn run_guard(store: &mut Store, mut step: GuardStep) -> Result<bool, SessionStorageError> {
    loop {
        match step {
            Step::Finish(outcome) => return outcome,
            Step::Send(machine, command) => step = machine.resume(store.perform(command)),
        }
    }
}

fn run_admission<T: SessionTrait>(store: &mut Store, mut step: Step<Admission, Command, Result<T, Rejection>>) -> Result<T, Rejection> {
    loop {
        match step {
            Step::Finish(outcome) => return outcome,
            Step::Send(machine, command) => step = machine.resume::<T>(store.perform(command)),
        }
    }
}

fn run_authentication(store: &mut Store, directory: &mut Directory, mut step: AuthenticationStep, supply: &mut Supply) -> Result<AuthenticationOutcome, StorageError> {
    loop {
        match step {
            Step::Finish(outcome) => return outcome,
            Step::Send(machine, request) => {
                let response = respond(store, directory, request);
                let (csrf, fresh) = if machine.needs_tokens(&response) { (next(supply), next(supply)) } else { (String::new(), String::new()) };
                step = machine.resume_with(response, csrf, fresh);
            }
        }
    }
}

fn run_second_factor(store: &mut Store, directory: &mut Directory, mut step: SecondFactorStep, supply: &mut Supply) -> Result<AuthenticationOutcome2fa, StorageError> {
    loop {
        match step {
            Step::Finish(outcome) => return outcome,
            Step::Send(machine, request) => {
                let response = respond(store, directory, request);
                let (csrf, fresh) = if machine.needs_tokens(&response) { (next(supply), next(supply)) } else { (String::new(), String::new()) };
                step = machine.resume_with(response, csrf, fresh);
            }
        }
    }
}

fn run_login(store: &mut Store, directory: &mut Directory, mut step: LoginStep, supply: &mut Supply) -> Result<LoginGrant, LoginRejection> {
    loop {
        match step {
            Step::Finish(outcome) => return outcome,
            Step::Send(machine, request) => {
                let response = respond(store, directory, request);
                let (csrf, fresh) = if machine.needs_tokens(&response) { (next(supply), next(supply)) } else { (String::new(), String::new()) };
                step = machine.resume_with(response, csrf, fresh);
            }
        }
    }
}

fn run_signup(store: &mut Store, directory: &mut Directory, mut step: SignupStep, supply: &mut Supply) -> Result<RegistrationSession, SignupInitError> {
    loop {
        match step {
            Step::Finish(outcome) => return outcome,
            Step::Send(machine, request) => {
                let response = respond(store, directory, request);
                let (csrf, fresh) = if machine.needs_tokens(&response) { (next(supply), next(supply)) } else { (String::new(), String::new()) };
                step = machine.resume_with(response, csrf, fresh);
            }
        }
    }
}

fn run_commit(store: &mut Store, directory: &mut Directory, mut step: CommitStep) -> Result<UserId, AddCredentialError> {
    loop {
        match step {
            Step::Finish(outcome) => return outcome,
            Step::Send(machine, request) => {
                let response = respond(store, directory, request);
                step = machine.resume(response);
            }
        }
    }
}

fn pre_authenticated(store: &mut Store, user: u128, csrf: char, name: char) -> PreAuthenticationSession {
    let session = run_creation(
        store,
        PreAuthenticationSession::create_with(UserId { value: user }, token(csrf), token(name)),
        &mut tokens(Vec::new()),
    )
    .expect("the store works");
    PreAuthenticationSession::from_base(session).expect("a pre-authentication record")
}

fn fetch(store: &mut Store, kind: SessionType, name: &str) -> Option<BaseSession> {
    run_lookup(store, Lookup::begin(kind, name)).expect("the store works")
}

#[test]
fn creation_asks_the_five_commands_in_order() {
    let mut store = Store::new();
    let session = run_creation(
        &mut store,
        PreAuthenticationSession::create_with(UserId { value: 7 }, token('c'), token('a')),
        &mut tokens(Vec::new()),
    )
    .expect("the store works");
    let key = format!("sessions:preauthentication:{}", token('a'));
    assert_eq!(
        store.commands,
        vec![
            Command::Exists { key: key.clone() },
            Command::SetIfAbsent {
                key: key.clone(),
                field: Field::UserId,
                value: Value::Id(UserId { value: 7 }),
            },
            Command::ReadFields { key: key.clone(), fields: vec![Field::UserId] },
            Command::WriteFields {
                key: key.clone(),
                entries: vec![(Field::Csrf, Value::Text(token('c')))],
            },
            Command::Expire { key: key.clone(), seconds: 300 },
        ]
    );
    assert_eq!(session.token(), token('a'));
    assert_eq!(session.info().csrf_token(), token('c'));
    assert_eq!(session.session_type(), SessionType::PreAuthentication);
}

#[test]
fn round_trip_of_a_pre_authentication_session() {
    let mut store = Store::new();
    let created = pre_authenticated(&mut store, 7, 'c', 'a');
    let found = fetch(&mut store, SessionType::PreAuthentication, &created.token())
        .expect("the record is there");
    assert_eq!(found.token(), token('a'));
    let info = found.info();
    assert_eq!(info.as_pre_auth().expect("of the kind").user_id, UserId { value: 7 });
    assert_eq!(info.csrf_token(), token('c'));
}

#[test]
fn round_trip_of_a_registration_session() {
    let mut store = Store::new();
    let created = run_creation(
        &mut store,
        RegistrationSession::create_with(ada(), token('c'), token('r')),
        &mut tokens(Vec::new()),
    )
    .expect("the store works");
    let key = format!("sessions:registration:{}", token('r'));
    assert_eq!(store.ttl(&key), Some(600));
    let found = fetch(&mut store, SessionType::Registration, &created.token())
        .expect("the record is there");
    let session = RegistrationSession::from_base(found).expect("a registration record");
    let data = session.user_data();
    assert_eq!(data.email.as_str(), "ada@example.org");
    assert_eq!(data.forename, "Ada");
    assert_eq!(data.surname, "Lovelace");
    assert_eq!(data.address, "12 St James's Square");
    assert_eq!(session.csrf_token(), token('c'));
    assert_eq!(session.token(), token('r'));
}

#[test]
fn round_trip_of_an_authenticated_session() {
    let mut store = Store::new();
    let old = pre_authenticated(&mut store, 9, 'c', 'a');
    let promoted = run_promotion(&mut store, old.promote_with(false, token('d'), token('b')), &mut tokens(Vec::new()))
        .expect("the store works");
    let found = fetch(&mut store, SessionType::Authenticated, &promoted.token())
        .expect("the record is there");
    let info = found.info();
    let data = info.as_auth().expect("of the kind");
    assert_eq!(data.user_id, UserId { value: 9 });
    assert!(!data.admin);
    assert_eq!(info.csrf_token(), token('d'));
}

#[test]
fn a_token_of_one_kind_resolves_under_no_other() {
    let mut store = Store::new();
    run_creation(
        &mut store,
        RegistrationSession::create_with(ada(), token('c'), token('r')),
        &mut tokens(Vec::new()),
    )
    .expect("the store works");
    assert!(fetch(&mut store, SessionType::Registration, &token('r')).is_some());
    assert!(fetch(&mut store, SessionType::PreAuthentication, &token('r')).is_none());
    assert!(fetch(&mut store, SessionType::Authenticated, &token('r')).is_none());
}

#[test]
fn keys_are_namespace_colon_token() {
    assert_eq!(SessionType::PreAuthentication.key_for("abc"), "sessions:preauthentication:abc");
    assert_eq!(SessionType::Authenticated.key_for("abc"), "sessions:authenticated:abc");
    assert_eq!(SessionType::Registration.key_for("abc"), "sessions:registration:abc");
    assert_eq!(SessionType::Registration.to_parent_key_name(), "sessions:registration");
    assert_eq!(securecart::store::attempts_key_for("10.0.0.1"), "bruteforce:10.0.0.1");
}

#[test]
fn a_taken_candidate_is_dropped_for_the_next() {
    let mut store = Store::new();
    pre_authenticated(&mut store, 1, 'c', 'a');
    let second = run_creation(
        &mut store,
        PreAuthenticationSession::create_with(UserId { value: 2 }, token('d'), token('a')),
        &mut tokens(vec![token('b')]),
    )
    .expect("the store works");
    assert_eq!(second.token(), token('b'));
    let first = fetch(&mut store, SessionType::PreAuthentication, &token('a')).expect("untouched");
    assert_eq!(first.info().as_pre_auth().expect("of the kind").user_id, UserId { value: 1 });
    assert_eq!(first.info().csrf_token(), token('c'));
    let other = fetch(&mut store, SessionType::PreAuthentication, &token('b')).expect("created");
    assert_eq!(other.info().as_pre_auth().expect("of the kind").user_id, UserId { value: 2 });
}

#[test]
fn a_claim_that_another_writer_won_is_dropped_for_the_next() {
    let mut store = Store::new();
    let key = format!("sessions:preauthentication:{}", token('a'));
    store.rival = Some((key.clone(), Field::UserId, Value::Id(UserId { value: 99 })));
    let session = run_creation(
        &mut store,
        PreAuthenticationSession::create_with(UserId { value: 2 }, token('d'), token('a')),
        &mut tokens(vec![token('b')]),
    )
    .expect("the store works");
    assert_eq!(session.token(), token('b'));
    assert_eq!(store.records[&key].fields[&Field::UserId], Value::Id(UserId { value: 99 }));
    assert!(!store.records[&key].fields.contains_key(&Field::Csrf));
}

#[test]
fn a_store_that_calls_every_key_taken_is_given_up_on() {
    let mut step = PreAuthenticationSession::create_with(UserId { value: 2 }, token('d'), token('a'));
    let mut probes: u32 = 0;
    let outcome = loop {
        match step {
            Step::Finish(outcome) => break outcome,
            Step::Send(machine, command) => {
                assert!(matches!(command, Command::Exists { .. }));
                probes += 1;
                step = machine.resume_with(Reply::Exists(true), token('b'));
            }
        }
    };
    assert_eq!(probes, MAX_ATTEMPTS);
    assert_eq!(probes, 1000);
    let error = outcome.expect_err("no token was free");
    assert_eq!(error.fault, StorageFault::TokensExhausted);
}

#[test]
fn a_failure_of_the_store_ends_a_creation_at_any_command() {
    for failing in 1..=5 {
        let mut store = Store::new();
        store.fail_at = Some(failing);
        let error = run_creation(
            &mut store,
            PreAuthenticationSession::create_with(UserId { value: 2 }, token('d'), token('a')),
            &mut tokens(vec![token('b')]),
        )
        .expect_err("the store failed");
        assert_eq!(error.fault, StorageFault::Backend);
        assert_eq!(error.detail, "connection reset");
        assert_eq!(error.message(), "connection reset");
        assert_eq!(store.commands.len(), failing);
    }
}

#[test]
fn a_reply_of_the_wrong_shape_ends_a_machine() {
    let step = PreAuthenticationSession::create_with(UserId { value: 2 }, token('d'), token('a'));
    let Step::Send(machine, _) = step else { panic!("a creation begins with a command") };
    let Step::Finish(Err(error)) = machine.resume_with(Reply::Count(3), token('b')) else {
        panic!("the creation ends")
    };
    assert_eq!(error.fault, StorageFault::UnexpectedReply);
    let Step::Send(machine, _) = Lookup::begin(SessionType::Authenticated, "abc") else {
        panic!("a fetch begins with a command")
    };
    let Step::Finish(Err(error)) = machine.resume(Reply::Done) else { panic!("the fetch ends") };
    assert_eq!(error.fault, StorageFault::UnexpectedReply);
}

#[test]
fn a_record_that_vanished_before_the_read_back_is_an_error() {
    let step = PreAuthenticationSession::create_with(UserId { value: 2 }, token('d'), token('a'));
    let Step::Send(machine, _) = step else { panic!("a creation begins with a command") };
    let Step::Send(machine, _) = machine.resume_with(Reply::Exists(false), String::new()) else {
        panic!("the claim follows")
    };
    let Step::Send(machine, _) = machine.resume_with(Reply::Done, String::new()) else {
        panic!("the read-back follows")
    };
    let Step::Finish(Err(error)) = machine.resume_with(Reply::Values(vec![None]), token('b')) else {
        panic!("the creation ends")
    };
    assert_eq!(error.fault, StorageFault::UnexpectedReply);
}

#[test]
fn a_record_with_a_missing_field_is_not_found() {
    let mut store = Store::new();
    let key = format!("sessions:authenticated:{}", token('a'));
    store.perform(Command::WriteFields {
        key: key.clone(),
        entries: vec![
            (Field::UserId, Value::Id(UserId { value: 5 })),
            (Field::Csrf, Value::Text(token('c'))),
        ],
    });
    assert!(fetch(&mut store, SessionType::Authenticated, &token('a')).is_none());
    store.perform(Command::WriteFields { key, entries: vec![(Field::Admin, Value::Flag(true))] });
    assert!(fetch(&mut store, SessionType::Authenticated, &token('a')).is_some());
}

#[test]
fn a_record_with_a_malformed_email_is_not_found() {
    let mut store = Store::new();
    let key = format!("sessions:registration:{}", token('a'));
    store.perform(Command::WriteFields {
        key,
        entries: vec![
            (Field::Email, Value::Text("not an address".to_owned())),
            (Field::Forename, Value::Text("Ada".to_owned())),
            (Field::Surname, Value::Text("Lovelace".to_owned())),
            (Field::Address, Value::Text("London".to_owned())),
            (Field::Csrf, Value::Text(token('c'))),
        ],
    });
    assert!(fetch(&mut store, SessionType::Registration, &token('a')).is_none());
}

#[test]
fn removal_is_idempotent() {
    let mut store = Store::new();
    let session = pre_authenticated(&mut store, 7, 'c', 'a');
    run_removal(&mut store, session.delete()).expect("the store works");
    assert!(fetch(&mut store, SessionType::PreAuthentication, &token('a')).is_none());
    let again = securecart::lookup::Removal::begin(SessionType::PreAuthentication, &token('a'));
    run_removal(&mut store, again).expect("deleting nothing is no error");
    assert!(store.records.is_empty());
}

#[test]
fn promotion_invalidates_the_source_and_keeps_the_user() {
    let mut store = Store::new();
    let old = pre_authenticated(&mut store, 42, 'c', 'a');
    let promoted = run_promotion(&mut store, old.promote_with(false, token('d'), token('b')), &mut tokens(Vec::new()))
        .expect("the store works");
    assert!(fetch(&mut store, SessionType::PreAuthentication, &token('a')).is_none());
    assert_ne!(promoted.token(), token('a'));
    assert_eq!(promoted.token(), token('b'));
    assert_eq!(promoted.csrf_token(), token('d'));
    assert_eq!(promoted.user_id(), UserId { value: 42 });
    let found = fetch(&mut store, SessionType::Authenticated, &promoted.token()).expect("the new record");
    assert_eq!(found.info().as_auth().expect("of the kind").user_id, UserId { value: 42 });
    assert_eq!(store.ttl(&format!("sessions:authenticated:{}", token('b'))), Some(604800));
}

#[test]
fn promotion_deletes_before_it_creates() {
    let mut store = Store::new();
    let old = pre_authenticated(&mut store, 42, 'c', 'a');
    store.commands.clear();
    store.fail_at = Some(2);
    let error = run_promotion(&mut store, old.promote_with(true, token('d'), token('b')), &mut tokens(Vec::new()))
        .expect_err("the store failed after the deletion");
    assert_eq!(error.fault, StorageFault::Backend);
    assert_eq!(
        store.commands[0],
        Command::Delete { key: format!("sessions:preauthentication:{}", token('a')) }
    );
    assert!(fetch(&mut store, SessionType::PreAuthentication, &token('a')).is_none());
    assert!(fetch(&mut store, SessionType::Authenticated, &token('b')).is_none());
}

#[test]
fn roles_are_kept_apart() {
    let mut store = Store::new();
    let old = pre_authenticated(&mut store, 1, 'c', 'a');
    let admin = run_promotion(&mut store, old.promote_with(true, token('d'), token('b')), &mut tokens(Vec::new()))
        .expect("the store works");
    assert!(matches!(admin, GenericAuthenticatedSession::Administrator(_)));
    assert!(admin.is_admin());
    assert_eq!(store.ttl(&format!("sessions:authenticated:{}", token('b'))), Some(7200));
    let found = fetch(&mut store, SessionType::Authenticated, &token('b')).expect("there");
    assert!(matches!(
        GenericAuthenticatedSession::from_base(found),
        Some(GenericAuthenticatedSession::Administrator(_))
    ));
    let found = fetch(&mut store, SessionType::Authenticated, &token('b')).expect("there");
    assert!(CustomerSession::from_base(found).is_none());
    let found = fetch(&mut store, SessionType::Authenticated, &token('b')).expect("there");
    assert_eq!(AdministratorSession::from_base(found).expect("an admin").user_id(), UserId { value: 1 });

    let old = pre_authenticated(&mut store, 2, 'c', 'e');
    let customer = run_promotion(&mut store, old.promote_with(false, token('d'), token('f')), &mut tokens(Vec::new()))
        .expect("the store works");
    assert!(matches!(customer, GenericAuthenticatedSession::Customer(_)));
    assert!(!customer.is_admin());
    let found = fetch(&mut store, SessionType::Authenticated, &token('f')).expect("there");
    assert!(AdministratorSession::from_base(found).is_none());
    let found = fetch(&mut store, SessionType::Authenticated, &token('f')).expect("there");
    assert_eq!(CustomerSession::from_base(found).expect("a customer").user_id(), UserId { value: 2 });
}

#[test]
fn a_typed_session_refuses_a_record_of_another_kind() {
    let mut store = Store::new();
    pre_authenticated(&mut store, 1, 'c', 'a');
    let record = fetch(&mut store, SessionType::PreAuthentication, &token('a')).expect("there");
    assert!(CustomerSession::from_base(record).is_none());
    let record = fetch(&mut store, SessionType::PreAuthentication, &token('a')).expect("there");
    assert!(RegistrationSession::from_base(record).is_none());
    let record = fetch(&mut store, SessionType::PreAuthentication, &token('a')).expect("there");
    assert!(GenericAuthenticatedSession::from_base(record).is_none());
    assert_eq!(PreAuthenticationSession::session_type(), SessionType::PreAuthentication);
    assert_eq!(CustomerSession::session_type(), SessionType::Authenticated);
    assert_eq!(AdministratorSession::session_type(), SessionType::Authenticated);
    assert_eq!(GenericAuthenticatedSession::session_type(), SessionType::Authenticated);
    assert_eq!(RegistrationSession::session_type(), SessionType::Registration);
}

#[test]
fn a_pre_authentication_record_lapses_after_300_seconds() {
    let mut store = Store::new();
    pre_authenticated(&mut store, 7, 'c', 'a');
    assert_eq!(store.ttl(&format!("sessions:preauthentication:{}", token('a'))), Some(300));
    store.elapse(299);
    assert!(fetch(&mut store, SessionType::PreAuthentication, &token('a')).is_some());
    store.elapse(1);
    assert!(fetch(&mut store, SessionType::PreAuthentication, &token('a')).is_none());
}

#[test]
fn the_fifth_attempt_and_every_later_one_is_denied() {
    let mut store = Store::new();
    let mut verdicts = Vec::new();
    for _ in 0..7 {
        store.elapse(3);
        verdicts.push(run_guard(&mut store, bruteforce_timeout("203.0.113.9")).expect("the store works"));
    }
    assert_eq!(verdicts, vec![false, false, false, false, true, true, true]);
    assert_eq!(store.ttl("bruteforce:203.0.113.9"), Some(60));
    store.elapse(59);
    assert!(run_guard(&mut store, bruteforce_timeout("203.0.113.9")).expect("the store works"));
    store.elapse(60);
    assert!(!run_guard(&mut store, bruteforce_timeout("203.0.113.9")).expect("the store works"));
    assert_eq!(store.ttl("bruteforce:203.0.113.9"), Some(10));
}

#[test]
fn the_window_is_ten_seconds_and_clients_are_counted_apart() {
    let mut store = Store::new();
    for _ in 0..4 {
        assert!(!run_guard(&mut store, bruteforce_timeout("a")).expect("the store works"));
    }
    assert_eq!(store.ttl("bruteforce:a"), Some(10));
    assert!(!run_guard(&mut store, bruteforce_timeout("b")).expect("the store works"));
    store.elapse(10);
    for _ in 0..4 {
        assert!(!run_guard(&mut store, bruteforce_timeout("a")).expect("the store works"));
    }
    assert!(run_guard(&mut store, bruteforce_timeout("a")).expect("the store works"));
}

#[test]
fn the_guard_reports_a_failing_store() {
    let mut store = Store::new();
    store.fail_at = Some(2);
    let error = run_guard(&mut store, bruteforce_timeout("a")).expect_err("the store failed");
    assert_eq!(error.fault, StorageFault::Backend);
}

fn header(text: &str) -> HeaderValue {
    HeaderValue::Text(text.to_owned())
}

fn customer(store: &mut Store) -> GenericAuthenticatedSession {
    let old = pre_authenticated(store, 42, 'c', 'a');
    run_promotion(store, old.promote_with(false, token('d'), token('b')), &mut tokens(Vec::new()))
        .expect("the store works")
}

#[test]
fn a_request_must_echo_the_csrf_token() {
    let mut store = Store::new();
    customer(&mut store);
    let name = token('b');
    let missing = run_admission::<CustomerSession>(
        &mut store,
        session_middleware::<CustomerSession>(Some(&name), HeaderValue::Missing),
    )
    .expect_err("no header");
    assert!(matches!(missing, Rejection::CsrfMismatch));
    assert_eq!(missing.status(), 419);
    let wrong = run_admission::<CustomerSession>(
        &mut store,
        session_middleware::<CustomerSession>(Some(&name), header(&token('c'))),
    )
    .expect_err("the wrong token");
    assert!(matches!(wrong, Rejection::CsrfMismatch));
    let garbled = run_admission::<CustomerSession>(
        &mut store,
        session_middleware::<CustomerSession>(Some(&name), HeaderValue::Unreadable),
    )
    .expect_err("no text");
    assert!(matches!(garbled, Rejection::CsrfMismatch));
    assert_eq!(garbled.status(), 419);
    let admitted = run_admission::<CustomerSession>(
        &mut store,
        session_middleware::<CustomerSession>(Some(&name), header(&token('d'))),
    )
    .expect("the right token");
    assert_eq!(admitted.user_id(), UserId { value: 42 });
    assert_eq!(admitted.token(), name);
}

#[test]
fn a_route_that_opts_out_asks_for_no_csrf_token() {
    let mut store = Store::new();
    customer(&mut store);
    let name = token('b');
    let admitted = run_admission::<GenericAuthenticatedSession>(
        &mut store,
        session_middleware_no_csrf::<GenericAuthenticatedSession>(Some(&name)),
    )
    .expect("no check");
    assert_eq!(admitted.user_id(), UserId { value: 42 });
}

#[test]
fn a_request_without_a_session_of_the_right_type_is_unauthorized() {
    let mut store = Store::new();
    customer(&mut store);
    let name = token('b');
    let no_cookie = run_admission::<CustomerSession>(
        &mut store,
        session_middleware::<CustomerSession>(None, header(&token('d'))),
    )
    .expect_err("no cookie");
    assert!(matches!(no_cookie, Rejection::SessionNotFound));
    assert_eq!(no_cookie.status(), 401);
    assert!(store.commands.iter().all(|command| !matches!(command, Command::ReadFields { fields, .. } if fields.len() == 3)));
    let unknown = run_admission::<CustomerSession>(
        &mut store,
        session_middleware::<CustomerSession>(Some("nothing"), header(&token('d'))),
    )
    .expect_err("no record");
    assert!(matches!(unknown, Rejection::SessionNotFound));
    let wrong_role = run_admission::<AdministratorSession>(
        &mut store,
        session_middleware::<AdministratorSession>(Some(&name), header(&token('d'))),
    )
    .expect_err("a customer's session");
    assert!(matches!(wrong_role, Rejection::SessionNotFound));
    let wrong_kind = run_admission::<PreAuthenticationSession>(
        &mut store,
        session_middleware::<PreAuthenticationSession>(Some(&name), header(&token('d'))),
    )
    .expect_err("an authenticated session");
    assert!(matches!(wrong_kind, Rejection::SessionNotFound));
    store.fail_at = Some(store.commands.len() + 1);
    let failed = run_admission::<CustomerSession>(
        &mut store,
        session_middleware::<CustomerSession>(Some(&name), header(&token('d'))),
    )
    .expect_err("the store failed");
    assert!(matches!(failed, Rejection::Storage(_)));
    assert_eq!(failed.status(), 500);
}

fn people() -> Directory {
    Directory::new()
        .with(1, "ada@example.org", "correct horse", AppUserRole::Customer, None)
        .with(2, "root@example.org", "battery staple", AppUserRole::Administrator, None)
        .with(3, "grace@example.org", "nanosecond", AppUserRole::Customer, Some("123456"))
        .with(4, "linus@example.org", "penguin", AppUserRole::Administrator, Some("654321"))
}

fn authenticate(store: &mut Store, directory: &mut Directory, address: &str, secret: &str, supply: &mut Supply) -> Result<AuthenticationOutcome, StorageError> {
    run_authentication(store, directory, authenticate_with(email(address), password(secret)), supply)
}

#[test]
fn an_unknown_user_and_a_wrong_password_fail_alike() {
    let mut store = Store::new();
    let mut directory = people();
    let unknown = authenticate(&mut store, &mut directory, "nobody@example.org", "correct horse", &mut tokens(Vec::new()));
    assert!(matches!(unknown, Ok(AuthenticationOutcome::Failure)));
    let wrong = authenticate(&mut store, &mut directory, "ada@example.org", "wrong", &mut tokens(Vec::new()));
    assert!(matches!(wrong, Ok(AuthenticationOutcome::Failure)));
    assert!(store.commands.is_empty());
    assert!(store.records.is_empty());
}

#[test]
fn a_customer_without_second_factor_is_promoted_at_once() {
    let mut store = Store::new();
    let mut directory = people();
    let mut supply = tokens(vec![token('1'), token('2')]);
    let outcome = authenticate(&mut store, &mut directory, "ada@example.org", "correct horse", &mut supply)
        .expect("nothing fails");
    let AuthenticationOutcome::Success(session) = outcome else { panic!("a customer's success") };
    assert_eq!(session.user_id(), UserId { value: 1 });
    assert_ne!(session.token(), token('2'));
    assert_ne!(session.csrf_token(), token('1'));
    assert!(fetch(&mut store, SessionType::PreAuthentication, &token('2')).is_none());
    let found = fetch(&mut store, SessionType::Authenticated, &session.token()).expect("there");
    assert_eq!(found.info().csrf_token(), session.csrf_token());
    assert_eq!(store.records.len(), 1);
    assert_eq!(store.ttl(&format!("sessions:authenticated:{}", session.token())), Some(604800));
}

#[test]
fn an_administrator_without_second_factor_is_promoted_to_administrator() {
    let mut store = Store::new();
    let mut directory = people();
    let mut supply = tokens(vec![token('1'), token('2')]);
    let outcome = authenticate(&mut store, &mut directory, "root@example.org", "battery staple", &mut supply)
        .expect("nothing fails");
    let AuthenticationOutcome::SuccessAdministrative(session) = outcome else {
        panic!("an administrator's success")
    };
    assert_eq!(session.user_id(), UserId { value: 2 });
    assert_eq!(store.ttl(&format!("sessions:authenticated:{}", session.token())), Some(7200));
}

#[test]
fn a_user_with_second_factor_gets_a_pre_authentication_session() {
    let mut store = Store::new();
    let mut directory = people();
    let mut supply = tokens(vec![token('1'), token('2')]);
    let outcome = authenticate(&mut store, &mut directory, "grace@example.org", "nanosecond", &mut supply)
        .expect("nothing fails");
    let AuthenticationOutcome::Partial(session) = outcome else { panic!("a partial success") };
    assert_eq!(session.user_id(), UserId { value: 3 });
    assert_eq!(session.csrf_token(), token('1'));
    assert_eq!(session.token(), token('2'));
    assert!(fetch(&mut store, SessionType::PreAuthentication, &token('2')).is_some());
    assert!(store.records.keys().all(|key| key.starts_with("sessions:preauthentication:")));
}

#[test]
fn a_wrong_code_leaves_the_pre_authentication_session() {
    let mut store = Store::new();
    let mut directory = people();
    let mut supply = tokens(vec![token('1'), token('2')]);
    let AuthenticationOutcome::Partial(session) =
        authenticate(&mut store, &mut directory, "grace@example.org", "nanosecond", &mut supply)
            .expect("nothing fails")
    else {
        panic!("a partial success")
    };
    let asked = store.commands.len();
    let outcome = run_second_factor(&mut store, &mut directory, authenticate_2fa(session, totp("000000")), &mut tokens(Vec::new()))
        .expect("nothing fails");
    assert!(matches!(outcome, AuthenticationOutcome2fa::Failure));
    assert_eq!(store.commands.len(), asked);
    let again = fetch(&mut store, SessionType::PreAuthentication, &token('2')).expect("still there");
    let session = PreAuthenticationSession::from_base(again).expect("of the kind");
    let mut supply = tokens(vec![token('3'), token('4')]);
    let outcome = run_second_factor(&mut store, &mut directory, authenticate_2fa(session, totp("123456")), &mut supply)
        .expect("nothing fails");
    let AuthenticationOutcome2fa::Success(customer) = outcome else { panic!("a customer's success") };
    assert_eq!(customer.user_id(), UserId { value: 3 });
    assert_eq!(customer.csrf_token(), token('3'));
    assert_eq!(customer.token(), token('4'));
    assert!(fetch(&mut store, SessionType::PreAuthentication, &token('2')).is_none());
}

#[test]
fn the_second_factor_promotes_an_administrator_to_administrator() {
    let mut store = Store::new();
    let mut directory = people();
    let session = pre_authenticated(&mut store, 4, 'c', 'a');
    let mut supply = tokens(vec![token('3'), token('4')]);
    let outcome = run_second_factor(&mut store, &mut directory, authenticate_2fa(session, totp("654321")), &mut supply)
        .expect("nothing fails");
    let AuthenticationOutcome2fa::SuccessAdministrative(admin) = outcome else {
        panic!("an administrator's success")
    };
    assert_eq!(admin.user_id(), UserId { value: 4 });
}

#[test]
fn the_second_factor_of_a_user_who_is_gone_fails() {
    let mut store = Store::new();
    let mut directory = people();
    let session = pre_authenticated(&mut store, 77, 'c', 'a');
    let outcome = run_second_factor(&mut store, &mut directory, authenticate_2fa(session, totp("654321")), &mut tokens(Vec::new()))
        .expect("nothing fails");
    assert!(matches!(outcome, AuthenticationOutcome2fa::Failure));
}

#[test]
fn a_failing_directory_ends_an_authentication() {
    let mut store = Store::new();
    let mut directory = people();
    let Step::Send(machine, _) = authenticate_with(email("ada@example.org"), password("x")) else {
        panic!("an authentication begins with a question")
    };
    let Step::Finish(Err(StorageError::DatabaseError(error))) =
        machine.resume(Response::Directory(Answer::Failed("gone away".to_owned())))
    else {
        panic!("the authentication ends")
    };
    assert_eq!(error.fault, DirectoryFault::Backend);
    assert_eq!(error.detail, "gone away");
    store.fail_at = Some(3);
    let error = authenticate(&mut store, &mut directory, "ada@example.org", "correct horse", &mut tokens(vec![token('1'), token('2')]))
        .expect_err("the store failed");
    assert!(matches!(error, StorageError::SessionStorageError(_)));
    assert_eq!(error.message(), "connection reset");
}

#[test]
fn authentication_generates_its_own_tokens() {
    let mut store = Store::new();
    let mut directory = people();
    let mut step = authenticate_with(email("ada@example.org"), password("correct horse"));
    let outcome = loop {
        match step {
            Step::Finish(outcome) => break outcome,
            Step::Send(machine, request) => {
                let response = respond(&mut store, &mut directory, request);
                step = machine.resume(response);
            }
        }
    };
    let AuthenticationOutcome::Success(session) = outcome.expect("nothing fails") else {
        panic!("a customer's success")
    };
    assert_eq!(session.token().len(), 48);
    assert_eq!(session.csrf_token().len(), 48);
    assert_ne!(session.token(), session.csrf_token());
    assert!(fetch(&mut store, SessionType::Authenticated, &session.token()).is_some());
}

fn log_in(store: &mut Store, directory: &mut Directory, address: HeaderValue, user: &str, secret: &str, supply: &mut Supply) -> Result<LoginGrant, LoginRejection> {
    run_login(store, directory, login(address, email(user), password(secret)), supply)
}

#[test]
fn a_login_sets_the_two_cookies() {
    let mut store = Store::new();
    let mut directory = people();
    let mut supply = tokens(vec![token('1'), token('2')]);
    let grant = log_in(&mut store, &mut directory, header("198.51.100.7"), "ada@example.org", "correct horse", &mut supply)
        .expect("the login succeeds");
    assert!(!grant.mfa_required);
    assert_eq!(grant.is_admin, Some(false));
    assert_eq!(grant.session_cookie.name, "session");
    let found = fetch(&mut store, SessionType::Authenticated, &grant.session_cookie.value)
        .expect("the cookie names the session");
    assert_eq!(found.info().csrf_token(), grant.csrf_cookie.value);
    assert_eq!(found.info().as_auth().expect("of the kind").user_id, UserId { value: 1 });
    assert!(grant.session_cookie.http_only);
    assert!(grant.session_cookie.secure);
    assert_eq!(grant.session_cookie.path, "/");
    assert_eq!(grant.session_cookie.same_site, SameSite::Strict);
    assert_eq!(grant.csrf_cookie.name, "session_csrf");
    assert!(!grant.csrf_cookie.secure);
    assert!(!grant.csrf_cookie.http_only);
    assert_eq!(grant.csrf_cookie.path, "/");
    assert_eq!(grant.csrf_cookie.same_site, SameSite::Strict);
    assert_eq!(store.records["bruteforce:198.51.100.7"].count, 1);
}

#[test]
fn a_login_tells_whether_a_second_factor_is_owed() {
    let mut store = Store::new();
    let mut directory = people();
    let grant = log_in(&mut store, &mut directory, header("a"), "grace@example.org", "nanosecond", &mut tokens(vec![token('1'), token('2')]))
        .expect("the login succeeds");
    assert!(grant.mfa_required);
    assert_eq!(grant.is_admin, None);
    assert_eq!(grant.session_cookie.value, token('2'));
    let grant = log_in(&mut store, &mut directory, header("a"), "root@example.org", "battery staple", &mut tokens(vec![token('1'), token('3'), token('4'), token('5')]))
        .expect("the login succeeds");
    assert!(!grant.mfa_required);
    assert_eq!(grant.is_admin, Some(true));
}

#[test]
fn a_login_without_client_address_is_refused() {
    let mut store = Store::new();
    let mut directory = people();
    let missing = log_in(&mut store, &mut directory, HeaderValue::Missing, "ada@example.org", "correct horse", &mut tokens(Vec::new()))
        .expect_err("no client address");
    assert!(matches!(missing, LoginRejection::ClientAddressMissing));
    assert_eq!(missing.status(), 400);
    assert_eq!(missing.message(), "X-Real-IP not set");
    let garbled = log_in(&mut store, &mut directory, HeaderValue::Unreadable, "ada@example.org", "correct horse", &mut tokens(Vec::new()))
        .expect_err("no client address");
    assert!(matches!(garbled, LoginRejection::ClientAddressUnreadable));
    assert_eq!(garbled.status(), 400);
    assert_eq!(garbled.message(), "X-Real-IP value unparseable");
    assert!(store.commands.is_empty());
    assert_eq!(directory.queries, 0);
}

#[test]
fn the_sixth_login_is_denied_even_with_the_right_password() {
    let mut store = Store::new();
    let mut directory = people();
    for _ in 0..4 {
        let wrong = log_in(&mut store, &mut directory, header("a"), "ada@example.org", "guess", &mut tokens(Vec::new()))
            .expect_err("a wrong password");
        assert!(matches!(wrong, LoginRejection::AuthenticationFailed));
        assert_eq!(wrong.status(), 401);
        assert_eq!(wrong.message(), "Authentication failed");
    }
    let asked = directory.queries;
    let fifth = log_in(&mut store, &mut directory, header("a"), "ada@example.org", "guess", &mut tokens(Vec::new()))
        .expect_err("too many");
    assert!(matches!(fifth, LoginRejection::TooManyAttempts));
    let sixth = log_in(&mut store, &mut directory, header("a"), "ada@example.org", "correct horse", &mut tokens(vec![token('1'), token('2'), token('3'), token('4')]))
        .expect_err("too many");
    assert!(matches!(sixth, LoginRejection::TooManyAttempts));
    assert_eq!(sixth.status(), 429);
    assert_eq!(sixth.message(), "Too many authentication attempts.");
    assert_eq!(directory.queries, asked);
    let other = log_in(&mut store, &mut directory, header("b"), "ada@example.org", "correct horse", &mut tokens(vec![token('1'), token('2'), token('3'), token('4')]));
    assert!(other.is_ok());
}

#[test]
fn a_sign_up_keeps_the_data_in_a_registration_session() {
    let mut store = Store::new();
    let mut directory = people();
    let user = AppUserInsert::new(email("new@example.org"), "Alan", "Turing", "Bletchley");
    let session = run_signup(&mut store, &mut directory, signup_init(user), &mut tokens(vec![token('1'), token('2')]))
        .expect("the sign-up begins");
    assert_eq!(session.token(), token('2'));
    assert_eq!(session.csrf_token(), token('1'));
    assert_eq!(session.user_data().forename, "Alan");
    assert!(!directory.knows("new@example.org"));
    assert_eq!(store.ttl(&format!("sessions:registration:{}", token('2'))), Some(600));
}

#[test]
fn a_sign_up_is_refused_for_a_taken_address_or_an_empty_field() {
    let mut store = Store::new();
    let mut directory = people();
    let taken = run_signup(&mut store, &mut directory, signup_init(ada()), &mut tokens(vec![token('1'), token('2')]))
        .expect_err("the address is taken");
    assert!(matches!(&taken, SignupInitError::DuplicateEmail(address) if address == "ada@example.org"));
    assert_eq!(taken.status(), 409);
    let cases = [
        ("", "", "", 0),
        ("Alan", "", "", 0),
        ("Alan", "Turing", "", 0),
        ("", "", "Bletchley", 1),
        ("Alan", "", "Bletchley", 1),
        ("", "Turing", "Bletchley", 2),
    ];
    for (forename, surname, address, expected) in cases {
        let user = AppUserInsert::new(email("new@example.org"), forename, surname, address);
        let error = run_signup(&mut store, &mut directory, signup_init(user), &mut tokens(vec![token('1'), token('2')]))
            .expect_err("a field is empty");
        let found = match error {
            SignupInitError::EmptyAddress => 0,
            SignupInitError::EmptySurname => 1,
            SignupInitError::EmptyForename => 2,
            _ => 3,
        };
        assert_eq!(found, expected);
        assert_eq!(error.status(), 422);
    }
    assert!(store.records.is_empty());
}

fn registered(store: &mut Store) -> RegistrationSession {
    let user = AppUserInsert::new(email("new@example.org"), "Alan", "Turing", "Bletchley");
    let session = run_creation(store, RegistrationSession::create_with(user, token('c'), token('r')), &mut tokens(Vec::new()))
        .expect("the store works");
    RegistrationSession::from_base(session).expect("a registration record")
}

#[test]
fn a_sign_up_is_completed_with_a_credential() {
    let mut store = Store::new();
    let mut directory = people();
    let session = registered(&mut store);
    let user_id = run_commit(&mut store, &mut directory, add_credential_and_commit(session, password("long enough")))
        .expect("nothing fails");
    assert_eq!(user_id, UserId { value: 1000 });
    assert!(directory.knows("new@example.org"));
    assert!(fetch(&mut store, SessionType::Registration, &token('r')).is_none());
    let outcome = authenticate(&mut store, &mut directory, "new@example.org", "long enough", &mut tokens(vec![token('1'), token('2'), token('3'), token('4')]))
        .expect("nothing fails");
    assert!(matches!(outcome, AuthenticationOutcome::Success(_)));
}

#[test]
fn a_user_without_credential_is_removed_again() {
    let mut store = Store::new();
    let mut directory = people();
    directory.fail_attach = true;
    let session = registered(&mut store);
    let error = run_commit(&mut store, &mut directory, add_credential_and_commit(session, password("long enough")))
        .expect_err("the credential cannot be attached");
    let AddCredentialError::StorageError(StorageError::DatabaseError(error)) = error else {
        panic!("the directory's failure")
    };
    assert_eq!(error.detail, "disk full");
    assert!(!directory.knows("new@example.org"));
    assert_eq!(directory.people.len(), 4);
    assert!(fetch(&mut store, SessionType::Registration, &token('r')).is_some());
}

#[test]
fn a_failing_removal_is_reported_as_itself() {
    let mut store = Store::new();
    let mut directory = people();
    directory.fail_attach = true;
    directory.fail_remove = true;
    let session = registered(&mut store);
    let error = run_commit(&mut store, &mut directory, add_credential_and_commit(session, password("long enough")))
        .expect_err("nothing works");
    let AddCredentialError::StorageError(StorageError::DatabaseError(error)) = error else {
        panic!("the directory's failure")
    };
    assert_eq!(error.detail, "lock timeout");
}

#[test]
fn a_password_outside_the_policy_stores_nothing() {
    let mut store = Store::new();
    let mut directory = people();
    let session = registered(&mut store);
    let short = run_commit(&mut store, &mut directory, add_credential_and_commit(session, password("1234567")))
        .expect_err("seven bytes");
    assert!(matches!(short, AddCredentialError::PasswordTooShort));
    assert_eq!(short.status(), 422);
    let session = registered_again(&mut store);
    let long = run_commit(&mut store, &mut directory, add_credential_and_commit(session, password(&"x".repeat(129))))
        .expect_err("129 bytes");
    assert!(matches!(long, AddCredentialError::PasswordTooLong));
    assert_eq!(directory.queries, 0);
    let session = registered_again(&mut store);
    assert!(run_commit(&mut store, &mut directory, add_credential_and_commit(session, password("12345678"))).is_ok());
    let mut store = Store::new();
    let session = registered(&mut store);
    assert!(run_commit(&mut store, &mut directory, add_credential_and_commit(session, password(&"x".repeat(128)))).is_ok());
    let mut store = Store::new();
    let session = registered(&mut store);
    let multibyte = run_commit(&mut store, &mut directory, add_credential_and_commit(session, password("ééé")))
        .expect_err("six bytes");
    assert!(matches!(multibyte, AddCredentialError::PasswordTooShort));
}

fn registered_again(store: &mut Store) -> RegistrationSession {
    let found = fetch(store, SessionType::Registration, &token('r')).expect("still there");
    RegistrationSession::from_base(found).expect("a registration record")
}

#[test]
fn session_info_tells_its_kind() {
    let mut store = Store::new();
    let session = pre_authenticated(&mut store, 7, 'c', 'a');
    assert_eq!(session.user_id(), UserId { value: 7 });
    let record = fetch(&mut store, SessionType::PreAuthentication, &token('a')).expect("there");
    let info: SessionInfo = record.info();
    assert_eq!(info.session_type(), SessionType::PreAuthentication);
    assert!(info.as_pre_auth().is_some());
    assert!(info.as_auth().is_none());
    assert!(info.as_registration().is_none());
    let copy = info.duplicate();
    assert_eq!(copy.csrf_token(), info.csrf_token());
}

#[test]
fn orders_are_their_owners_and_the_administrators() {
    let mut store = Store::new();
    let old = pre_authenticated(&mut store, 1, 'c', 'a');
    let admin = run_promotion(&mut store, old.promote_with(true, token('d'), token('b')), &mut tokens(Vec::new()))
        .expect("the store works");
    let old = pre_authenticated(&mut store, 2, 'c', 'e');
    let customer = run_promotion(&mut store, old.promote_with(false, token('d'), token('f')), &mut tokens(Vec::new()))
        .expect("the store works");
    let two = UserId { value: 2 };
    let three = UserId { value: 3 };
    assert_eq!(may_view_order(&admin, Some(three)), Ok(()));
    assert_eq!(may_view_order(&admin, None), Err(AccessDenied::NotFound));
    assert_eq!(may_view_order(&customer, Some(two)), Ok(()));
    assert_eq!(may_view_order(&customer, Some(three)), Err(AccessDenied::Forbidden));
    assert_eq!(may_view_order(&customer, None), Err(AccessDenied::Forbidden));
    assert_eq!(may_delete_order(&customer, Some(three)), Err(AccessDenied::Forbidden));
    assert_eq!(may_delete_order(&customer, Some(two)), Ok(()));
    assert_eq!(may_delete_order(&admin, Some(two)), Ok(()));
    assert_eq!(order_search_scope(&admin, Some(three)), Some(three));
    assert_eq!(order_search_scope(&admin, None), None);
    assert_eq!(order_search_scope(&customer, Some(three)), Some(two));
    assert_eq!(order_search_scope(&customer, None), Some(two));
    assert_eq!(may_checkout(two, Some(two)), Ok(()));
    assert_eq!(may_checkout(two, Some(three)), Err(AccessDenied::Forbidden));
    assert_eq!(may_checkout(two, None), Err(AccessDenied::Forbidden));
    assert_eq!(may_delete_self(&admin, 1), Err(AccessDenied::SoleAdministrator));
    assert_eq!(may_delete_self(&admin, 2), Ok(()));
    assert_eq!(may_delete_self(&customer, 1), Ok(()));
    assert_eq!(AccessDenied::NotFound.status(), 404);
    assert_eq!(AccessDenied::Forbidden.status(), 403);
    assert_eq!(AccessDenied::SoleAdministrator.status(), 403);
    assert_eq!(AccessDenied::AnotherAdministrator.status(), 403);
}

#[test]
fn accounts_of_administrators_are_out_of_each_others_reach() {
    let one = UserId { value: 1 };
    let two = UserId { value: 2 };
    let admin = Some(AppUserRole::Administrator);
    let customer = Some(AppUserRole::Customer);
    assert_eq!(may_delete_user(one, one, 1, admin), Err(AccessDenied::SoleAdministrator));
    assert_eq!(may_delete_user(one, one, 2, admin), Err(AccessDenied::AnotherAdministrator));
    assert_eq!(may_delete_user(one, two, 2, admin), Err(AccessDenied::AnotherAdministrator));
    assert_eq!(may_delete_user(one, two, 1, customer), Ok(false));
    assert_eq!(may_delete_user(one, one, 2, customer), Ok(true));
    assert_eq!(may_delete_user(one, two, 1, None), Err(AccessDenied::NotFound));
    assert_eq!(may_update_user(one, two, admin), Err(AccessDenied::AnotherAdministrator));
    assert_eq!(may_update_user(one, one, admin), Ok(()));
    assert_eq!(may_update_user(one, two, customer), Ok(()));
    assert_eq!(may_update_user(one, two, None), Err(AccessDenied::NotFound));
}

#[test]
fn the_machines_generate_their_own_tokens() {
    let mut store = Store::new();
    let mut step = PreAuthenticationSession::create(UserId { value: 5 });
    let session = loop {
        match step {
            Step::Finish(outcome) => break outcome.expect("the store works"),
            Step::Send(machine, command) => step = machine.resume(store.perform(command)),
        }
    };
    assert_eq!(session.token().len(), 48);
    let session = PreAuthenticationSession::from_base(session).expect("of the kind");
    let csrf = session.csrf_token();
    assert_eq!(csrf.len(), 48);
    let mut step = session.promote_to_admin();
    let admin = loop {
        match step {
            Step::Finish(outcome) => break outcome.expect("the store works"),
            Step::Send(machine, command) => step = machine.resume(store.perform(command)),
        }
    };
    assert!(admin.is_admin());
    assert_ne!(admin.csrf_token(), csrf);
    assert_eq!(admin.user_id(), UserId { value: 5 });
    let old = pre_authenticated(&mut store, 6, 'c', 'a');
    let mut step = old.promote();
    let customer = loop {
        match step {
            Step::Finish(outcome) => break outcome.expect("the store works"),
            Step::Send(machine, command) => step = machine.resume(store.perform(command)),
        }
    };
    assert!(!customer.is_admin());
    let mut step = RegistrationSession::create(ada());
    let registration = loop {
        match step {
            Step::Finish(outcome) => break outcome.expect("the store works"),
            Step::Send(machine, command) => step = machine.resume(store.perform(command)),
        }
    };
    assert_eq!(registration.session_type(), SessionType::Registration);
    assert_eq!(store.records.len(), 3);
}

#[test]
fn an_answer_of_the_wrong_shape_ends_a_machine() {
    let Step::Send(machine, _) = authenticate_with(email("ada@example.org"), password("x")) else {
        panic!("an authentication begins with a question")
    };
    let Step::Finish(Err(StorageError::DatabaseError(error))) =
        machine.resume(Response::Directory(Answer::Done))
    else {
        panic!("the authentication ends")
    };
    assert_eq!(error.fault, DirectoryFault::UnexpectedAnswer);
    let Step::Send(machine, _) = authenticate_with(email("ada@example.org"), password("x")) else {
        panic!("an authentication begins with a question")
    };
    let Step::Finish(Err(StorageError::DatabaseError(error))) =
        machine.resume(Response::Store(Reply::Done))
    else {
        panic!("the authentication ends")
    };
    assert_eq!(error.fault, DirectoryFault::UnexpectedAnswer);
}

#[test]
fn a_login_reports_a_failing_store() {
    let mut store = Store::new();
    let mut directory = people();
    store.fail_at = Some(1);
    let failed = log_in(&mut store, &mut directory, header("a"), "ada@example.org", "correct horse", &mut tokens(Vec::new()))
        .expect_err("the store failed");
    assert!(matches!(failed, LoginRejection::Storage(StorageError::SessionStorageError(_))));
    assert_eq!(failed.status(), 500);
    assert_eq!(failed.message(), "connection reset");
    assert_eq!(directory.queries, 0);
}

#[test]
fn a_directory_response_where_the_store_is_awaited_ends_a_machine() {
    let mut store = Store::new();
    let mut directory = people();
    let mut step = authenticate_with(email("ada@example.org"), password("correct horse"));
    let mut answered = 0;
    let error = loop {
        match step {
            Step::Finish(outcome) => break outcome.expect_err("the driver went wrong"),
            Step::Send(machine, request) => {
                let response = match request {
                    Request::Store(_) => Response::Directory(Answer::Done),
                    Request::Directory(query) => {
                        answered += 1;
                        Response::Directory(directory.perform(query))
                    }
                };
                step = machine.resume_with(response, token('1'), token('2'));
            }
        }
    };
    assert_eq!(answered, 2);
    let StorageError::SessionStorageError(error) = error else { panic!("a session store error") };
    assert_eq!(error.fault, StorageFault::UnexpectedReply);
    assert!(store.records.is_empty());
}

#[test]
fn tokens_are_drawn_only_where_a_session_begins_or_a_candidate_is_taken() {
    let Step::Send(machine, _) = authenticate_with(email("ada@example.org"), password("x")) else {
        panic!("an authentication begins with a question")
    };
    let found = Response::Directory(Answer::User(Some(UserProfile {
        id: UserId { value: 1 },
        role: AppUserRole::Customer,
    })));
    assert!(!machine.needs_tokens(&found));
    let Step::Send(machine, _) = machine.resume(found) else { panic!("the credential is asked for") };
    assert!(!machine.needs_tokens(&Response::Directory(Answer::Verdict(false))));
    assert!(!machine.needs_tokens(&Response::Directory(Answer::Failed("gone".to_owned()))));
    assert!(machine.needs_tokens(&Response::Directory(Answer::Verdict(true))));
    let refused = machine.resume_with(Response::Directory(Answer::Verdict(false)), String::new(), String::new());
    assert!(matches!(refused, Step::Finish(Ok(AuthenticationOutcome::Failure))));

    let Step::Send(machine, _) = signup_init(ada()) else { panic!("a sign-up begins with a question") };
    let taken = Response::Directory(Answer::User(Some(UserProfile {
        id: UserId { value: 1 },
        role: AppUserRole::Customer,
    })));
    assert!(!machine.needs_tokens(&taken));
    assert!(machine.needs_tokens(&Response::Directory(Answer::User(None))));
    let Step::Send(machine, _) =
        signup_init(AppUserInsert::new(email("new@example.org"), "", "x", "x"))
    else {
        panic!("a sign-up begins with a question")
    };
    assert!(!machine.needs_tokens(&Response::Directory(Answer::User(None))));

    let step = PreAuthenticationSession::create_with(UserId { value: 2 }, token('d'), token('a'));
    let Step::Send(machine, _) = step else { panic!("a creation begins with a command") };
    assert!(machine.needs_token(&Reply::Exists(true)));
    assert!(!machine.needs_token(&Reply::Exists(false)));
    assert!(!machine.needs_token(&Reply::Failed("down".to_owned())));
    let Step::Send(machine, _) = machine.resume(Reply::Exists(false)) else { panic!("the claim") };
    assert!(!machine.needs_token(&Reply::Done));
    let Step::Send(machine, _) = machine.resume(Reply::Done) else { panic!("the read-back") };
    assert!(!machine.needs_token(&Reply::Values(vec![Some(Value::Id(UserId { value: 2 }))])));
    assert!(machine.needs_token(&Reply::Values(vec![Some(Value::Id(UserId { value: 3 }))])));
    assert!(!machine.needs_token(&Reply::Values(vec![None])));
}

#[test]
fn a_failed_second_factor_is_answered_with_401() {
    let refused = second_factor_grant(AuthenticationOutcome2fa::Failure).expect_err("no grant");
    assert!(matches!(refused, LoginRejection::SecondFactorFailed));
    assert_eq!(refused.status(), 401);
    assert_eq!(refused.message(), "Two-factor authentication failed");
    let mut store = Store::new();
    let mut directory = people();
    let session = pre_authenticated(&mut store, 4, 'c', 'a');
    let outcome = run_second_factor(&mut store, &mut directory, authenticate_2fa(session, totp("654321")), &mut tokens(vec![token('3'), token('4')]))
        .expect("nothing fails");
    let grant = second_factor_grant(outcome).expect("a grant");
    assert_eq!(grant.is_admin, Some(true));
    assert!(!grant.mfa_required);
    assert_eq!(grant.session_cookie.value, token('4'));
    assert_eq!(grant.csrf_cookie.value, token('3'));
}
