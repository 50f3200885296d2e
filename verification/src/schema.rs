//! How a session's payload is laid out in the fields of its record, and how
//! it is read back.

use crate::email::{is_email, EmailAddress};
use crate::protocol::option_view;
use crate::store::{
    AuthenticatedSessionData, Field, PreAuthenticationSessionData, RegistrationSessionData,
    SessionInfo, SessionInfoView, SessionType, Value, ValueView,
};
use crate::users::{AppUserInsert, AppUserInsertView};
use vstd::prelude::*;

verus! {

/// The fields of a record of the given kind, in the order in which they are
/// read. The first is the one that tells records apart.
pub open spec fn fields_of(kind: SessionType) -> Seq<Field> {
    match kind {
        SessionType::PreAuthentication => seq![Field::UserId, Field::Csrf],
        SessionType::Authenticated => seq![Field::UserId, Field::Admin, Field::Csrf],
        SessionType::Registration => seq![
            Field::Email,
            Field::Forename,
            Field::Surname,
            Field::Address,
            Field::Csrf,
        ],
    }
}

impl SessionInfoView {
    /// A payload that a record can hold: its email address, if it has one,
    /// has the accepted shape.
    pub open spec fn well_formed(self) -> bool {
        self matches SessionInfoView::Registration { user, .. } ==> is_email(user.email)
    }

    /// The field that is written first and read back to see whose record it
    /// is: the user for a login, the email address for a sign-up.
    pub open spec fn discriminator(self) -> (Field, ValueView) {
        match self {
            SessionInfoView::PreAuthentication { user_id, .. } => (
                Field::UserId,
                ValueView::Id(user_id),
            ),
            SessionInfoView::Authenticated { user_id, .. } => (
                Field::UserId,
                ValueView::Id(user_id),
            ),
            SessionInfoView::Registration { user, .. } => (
                Field::Email,
                ValueView::Text(user.email),
            ),
        }
    }

    /// The fields written once the record is claimed.
    pub open spec fn remainder(self) -> Seq<(Field, ValueView)> {
        match self {
            SessionInfoView::PreAuthentication { csrf, .. } => seq![
                (Field::Csrf, ValueView::Text(csrf)),
            ],
            SessionInfoView::Authenticated { csrf, admin, .. } => seq![
                (Field::Admin, ValueView::Flag(admin)),
                (Field::Csrf, ValueView::Text(csrf)),
            ],
            SessionInfoView::Registration { csrf, user } => seq![
                (Field::Forename, ValueView::Text(user.forename)),
                (Field::Surname, ValueView::Text(user.surname)),
                (Field::Address, ValueView::Text(user.address)),
                (Field::Csrf, ValueView::Text(csrf)),
            ],
        }
    }

    /// The values of the record's fields, in the order of [`fields_of`].
    pub open spec fn values(self) -> Seq<Option<ValueView>> {
        match self {
            SessionInfoView::PreAuthentication { csrf, user_id } => seq![
                Some(ValueView::Id(user_id)),
                Some(ValueView::Text(csrf)),
            ],
            SessionInfoView::Authenticated { csrf, user_id, admin } => seq![
                Some(ValueView::Id(user_id)),
                Some(ValueView::Flag(admin)),
                Some(ValueView::Text(csrf)),
            ],
            SessionInfoView::Registration { csrf, user } => seq![
                Some(ValueView::Text(user.email)),
                Some(ValueView::Text(user.forename)),
                Some(ValueView::Text(user.surname)),
                Some(ValueView::Text(user.address)),
                Some(ValueView::Text(csrf)),
            ],
        }
    }
}

/// The payload that the values of a record's fields stand for, the values
/// taken in the order of [`fields_of`]. There is none where a field is
/// missing, holds a value of another type, or holds no email address where
/// one belongs.
pub open spec fn decode(kind: SessionType, values: Seq<Option<ValueView>>) -> Option<
    SessionInfoView,
> {
    match kind {
        SessionType::PreAuthentication => if values.len() == 2 {
            match (values[0], values[1]) {
                (Some(ValueView::Id(user_id)), Some(ValueView::Text(csrf))) => Some(
                    SessionInfoView::PreAuthentication { csrf, user_id },
                ),
                _ => None,
            }
        } else {
            None
        },
        SessionType::Authenticated => if values.len() == 3 {
            match (values[0], values[1], values[2]) {
                (
                    Some(ValueView::Id(user_id)),
                    Some(ValueView::Flag(admin)),
                    Some(ValueView::Text(csrf)),
                ) => Some(SessionInfoView::Authenticated { csrf, user_id, admin }),
                _ => None,
            }
        } else {
            None
        },
        SessionType::Registration => if values.len() == 5 {
            match (values[0], values[1], values[2], values[3], values[4]) {
                (
                    Some(ValueView::Text(email)),
                    Some(ValueView::Text(forename)),
                    Some(ValueView::Text(surname)),
                    Some(ValueView::Text(address)),
                    Some(ValueView::Text(csrf)),
                ) => if is_email(email) {
                    Some(
                        SessionInfoView::Registration {
                            csrf,
                            user: AppUserInsertView { email, forename, surname, address },
                        },
                    )
                } else {
                    None
                },
                _ => None,
            }
        } else {
            None
        },
    }
}

/// Reading back what was written gives the payload that was written.
pub proof fn lemma_decode_values(info: SessionInfoView)
    requires
        info.well_formed(),
    ensures
        decode(info.kind(), info.values()) == Some(info),
        info.values().len() == fields_of(info.kind()).len(),
{
}

/// Every field of a payload is written with a value of the field's kind.
pub proof fn lemma_values_are_of_their_kind(info: SessionInfoView, i: int)
    requires
        0 <= i < fields_of(info.kind()).len(),
    ensures
        info.values()[i] matches Some(value) && value.kind() == fields_of(info.kind())[i].spec_kind(),
        info.discriminator().1.kind() == info.discriminator().0.spec_kind(),
        info.discriminator().0 == fields_of(info.kind())[0],
{
}

/// Whatever is read back as a payload is of the kind that was asked for, and
/// well formed.
pub proof fn lemma_decode_kind(kind: SessionType, values: Seq<Option<ValueView>>)
    ensures
        decode(kind, values) matches Some(info) ==> info.kind() == kind && info.well_formed()
            && info.values() == values,
{
    if let Some(info) = decode(kind, values) {
        assert(info.values() =~= values);
    }
}

/// The fields of a record of the given kind, in reading order.
pub fn field_list(kind: SessionType) -> (fields: Vec<Field>)
    ensures
        fields@ == fields_of(kind),
{
    let fields = match kind {
        SessionType::PreAuthentication => vec![Field::UserId, Field::Csrf],
        SessionType::Authenticated => vec![Field::UserId, Field::Admin, Field::Csrf],
        SessionType::Registration => vec![
            Field::Email,
            Field::Forename,
            Field::Surname,
            Field::Address,
            Field::Csrf,
        ],
    };
    assert(fields@ =~= fields_of(kind));
    fields
}

fn text_at(values: &Vec<Option<Value>>, index: usize) -> (text: Option<String>)
    requires
        index < values.len(),
    ensures
        match values[index as int] {
            Some(Value::Text(stored)) => text matches Some(t) && t@ == stored@,
            _ => text is None,
        },
{
    match &values[index] {
        Some(Value::Text(stored)) => Some(stored.clone()),
        _ => None,
    }
}

fn id_at(values: &Vec<Option<Value>>, index: usize) -> (id: Option<crate::users::UserId>)
    requires
        index < values.len(),
    ensures
        match values[index as int] {
            Some(Value::Id(stored)) => id == Some(stored),
            _ => id is None,
        },
{
    match &values[index] {
        Some(Value::Id(stored)) => Some(*stored),
        _ => None,
    }
}

fn flag_at(values: &Vec<Option<Value>>, index: usize) -> (flag: Option<bool>)
    requires
        index < values.len(),
    ensures
        match values[index as int] {
            Some(Value::Flag(stored)) => flag == Some(stored),
            _ => flag is None,
        },
{
    match &values[index] {
        Some(Value::Flag(stored)) => Some(*stored),
        _ => None,
    }
}

/// Reads a payload of the given kind from the values of a record's fields.
pub fn decode_record(kind: SessionType, values: &Vec<Option<Value>>) -> (info: Option<
    SessionInfo,
>)
    ensures
        option_view(info) == decode(kind, values.deep_view()),
{
    let ghost model = values.deep_view();
    assert(model.len() == values.len());
    assert(forall|i: int| 0 <= i < values.len() ==> model[i] == (#[trigger] values[i]).deep_view());
    match kind {
        SessionType::PreAuthentication => {
            if values.len() != 2 {
                return None;
            }
            let user_id = id_at(values, 0);
            let csrf = text_at(values, 1);
            match (user_id, csrf) {
                (Some(user_id), Some(csrf)) => Some(
                    SessionInfo::PreAuthentication {
                        csrf,
                        data: PreAuthenticationSessionData { user_id },
                    },
                ),
                _ => None,
            }
        },
        SessionType::Authenticated => {
            if values.len() != 3 {
                return None;
            }
            let user_id = id_at(values, 0);
            let admin = flag_at(values, 1);
            let csrf = text_at(values, 2);
            match (user_id, admin, csrf) {
                (Some(user_id), Some(admin), Some(csrf)) => Some(
                    SessionInfo::Authenticated {
                        csrf,
                        data: AuthenticatedSessionData { user_id, admin },
                    },
                ),
                _ => None,
            }
        },
        SessionType::Registration => {
            if values.len() != 5 {
                return None;
            }
            let email = text_at(values, 0);
            let forename = text_at(values, 1);
            let surname = text_at(values, 2);
            let address = text_at(values, 3);
            let csrf = text_at(values, 4);
            match (email, forename, surname, address, csrf) {
                (Some(email), Some(forename), Some(surname), Some(address), Some(csrf)) => {
                    match EmailAddress::try_from(email) {
                        Ok(email) => Some(
                            SessionInfo::Registration {
                                csrf,
                                data: RegistrationSessionData {
                                    user_data: AppUserInsert { email, forename, surname, address },
                                },
                            },
                        ),
                        Err(_) => None,
                    }
                },
                _ => None,
            }
        },
    }
}

impl SessionInfo {
    /// The field that is written first, with its value.
    pub fn discriminator(&self) -> (entry: (Field, Value))
        ensures
            entry.0 == self@.discriminator().0,
            entry.1@ == self@.discriminator().1,
    {
        match self {
            SessionInfo::PreAuthentication { data, .. } => (Field::UserId, Value::Id(data.user_id)),
            SessionInfo::Authenticated { data, .. } => (Field::UserId, Value::Id(data.user_id)),
            SessionInfo::Registration { data, .. } => (
                Field::Email,
                Value::Text(data.user_data.email.to_text()),
            ),
        }
    }

    /// The fields that are written once the record is claimed.
    pub fn remainder(&self) -> (entries: Vec<(Field, Value)>)
        ensures
            entries.deep_view() == self@.remainder(),
    {
        let entries = match self {
            SessionInfo::PreAuthentication { csrf, .. } => vec![
                (Field::Csrf, Value::Text(csrf.clone())),
            ],
            SessionInfo::Authenticated { csrf, data } => vec![
                (Field::Admin, Value::Flag(data.admin)),
                (Field::Csrf, Value::Text(csrf.clone())),
            ],
            SessionInfo::Registration { csrf, data } => vec![
                (Field::Forename, Value::Text(data.user_data.forename.clone())),
                (Field::Surname, Value::Text(data.user_data.surname.clone())),
                (Field::Address, Value::Text(data.user_data.address.clone())),
                (Field::Csrf, Value::Text(csrf.clone())),
            ],
        };
        assert(entries.deep_view() =~= self@.remainder());
        entries
    }
}

} // verus!
