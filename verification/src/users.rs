//! The people the shop knows: identifiers, roles and sign-up data.

use crate::email::EmailAddress;
use vstd::prelude::*;
use vstd::string::*;

verus! {

/// The primary key of a stored user: the 128 bits of its UUID.
#[derive(Clone, Copy, Debug, PartialEq, Eq, Structural, Hash)]
pub struct UserId {
    pub value: u128,
}

/// What a user may do.
#[derive(Clone, Copy, Debug, PartialEq, Eq, Structural)]
pub enum AppUserRole {
    /// A regular customer, able to purchase items.
    Customer,
    /// An administrator, able to modify items.
    Administrator,
}

impl AppUserRole {
    /// The name under which the directory keeps the role, as a
    /// specification.
    pub open spec fn spec_name(self) -> Seq<char> {
        match self {
            AppUserRole::Customer => "Customer"@,
            AppUserRole::Administrator => "Administrator"@,
        }
    }

    /// The name under which the directory keeps the role.
    pub fn name(self) -> (name: &'static str)
        ensures
            name@ == self.spec_name(),
    {
        match self {
            AppUserRole::Customer => "Customer",
            AppUserRole::Administrator => "Administrator",
        }
    }

    /// The role that the directory keeps under a name; `None` for a name
    /// that is no role's.
    pub fn from_name(name: &str) -> (role: Option<AppUserRole>)
        ensures
            match role {
                Some(found) => name@ == found.spec_name(),
                None => name@ != AppUserRole::Customer.spec_name() && name@
                    != AppUserRole::Administrator.spec_name(),
            },
    {
        if name.to_owned() == String::from_str("Customer") {
            Some(AppUserRole::Customer)
        } else if name.to_owned() == String::from_str("Administrator") {
            Some(AppUserRole::Administrator)
        } else {
            None
        }
    }

    /// Whether the role is the administrative one.
    pub fn is_admin(self) -> (admin: bool)
        ensures
            admin == (self == AppUserRole::Administrator),
    {
        match self {
            AppUserRole::Customer => false,
            AppUserRole::Administrator => true,
        }
    }
}

/// The data a new user submits; it is not stored as a user until sign-up
/// completes.
#[derive(Debug)]
pub struct AppUserInsert {
    /// The user's email address.
    pub email: EmailAddress,
    /// The user's forename.
    pub forename: String,
    /// The user's surname.
    pub surname: String,
    /// The user's address.
    pub address: String,
}

/// The mathematical content of an [`AppUserInsert`].
pub struct AppUserInsertView {
    pub email: Seq<char>,
    pub forename: Seq<char>,
    pub surname: Seq<char>,
    pub address: Seq<char>,
}

impl View for AppUserInsert {
    type V = AppUserInsertView;

    open spec fn view(&self) -> AppUserInsertView {
        AppUserInsertView {
            email: self.email@,
            forename: self.forename@,
            surname: self.surname@,
            address: self.address@,
        }
    }
}

impl Clone for AppUserInsert {
    fn clone(&self) -> (copy: AppUserInsert)
        ensures
            copy@ == self@,
    {
        self.duplicate()
    }
}

impl AppUserInsert {
    /// Collects the sign-up data of one user.
    pub fn new(email: EmailAddress, forename: &str, surname: &str, address: &str) -> (user:
        AppUserInsert)
        ensures
            user@ == (AppUserInsertView {
                email: email@,
                forename: forename@,
                surname: surname@,
                address: address@,
            }),
    {
        AppUserInsert {
            email,
            forename: forename.to_owned(),
            surname: surname.to_owned(),
            address: address.to_owned(),
        }
    }

    /// A second value with the same content.
    pub fn duplicate(&self) -> (copy: AppUserInsert)
        ensures
            copy@ == self@,
    {
        AppUserInsert {
            email: self.email.duplicate(),
            forename: self.forename.clone(),
            surname: self.surname.clone(),
            address: self.address.clone(),
        }
    }
}

/// What the user directory tells about a stored user: who it is and what it
/// may do.
#[derive(Clone, Copy, Debug, PartialEq, Eq, Structural)]
pub struct UserProfile {
    pub id: UserId,
    pub role: AppUserRole,
}

/// What to look for among the stored users. A field that is `None` does not
/// narrow the search.
#[derive(Debug)]
pub struct AppUserSearchParameters {
    /// A part of the email address.
    pub email: Option<EmailAddress>,
    /// The role.
    pub role: Option<AppUserRole>,
}

impl AppUserSearchParameters {
    /// The search for whoever has the email address.
    pub fn by_email(email: EmailAddress) -> (parameters: AppUserSearchParameters)
        ensures
            parameters.email matches Some(sought) && sought@ == email@,
            parameters.role is None,
    {
        AppUserSearchParameters { email: Some(email), role: None }
    }
}

/// A stored user.
#[derive(Debug)]
pub struct AppUser {
    /// The user's primary key.
    pub id: UserId,
    /// The user's email address.
    pub email: EmailAddress,
    /// The user's forename.
    pub forename: String,
    /// The user's surname.
    pub surname: String,
    /// The user's address.
    pub address: String,
    /// The user's role.
    pub role: AppUserRole,
}

/// The mathematical content of an [`AppUser`].
pub struct AppUserView {
    pub id: UserId,
    pub email: Seq<char>,
    pub forename: Seq<char>,
    pub surname: Seq<char>,
    pub address: Seq<char>,
    pub role: AppUserRole,
}

impl View for AppUser {
    type V = AppUserView;

    open spec fn view(&self) -> AppUserView {
        AppUserView {
            id: self.id,
            email: self.email@,
            forename: self.forename@,
            surname: self.surname@,
            address: self.address@,
            role: self.role,
        }
    }
}

/// Why a user cannot be made an administrator.
#[derive(Clone, Copy, Debug, PartialEq, Eq, Structural)]
pub enum UserPromotionError {
    /// The user is an administrator already.
    AlreadyAdministrator(UserId),
}

impl AppUser {
    /// The user of a stored row.
    pub fn from_row(
        id: UserId,
        email: EmailAddress,
        forename: String,
        surname: String,
        address: String,
        role: AppUserRole,
    ) -> (user: AppUser)
        ensures
            user@ == (AppUserView {
                id,
                email: email@,
                forename: forename@,
                surname: surname@,
                address: address@,
                role,
            }),
    {
        AppUser { id, email, forename, surname, address, role }
    }

    /// The user's primary key.
    pub fn id(&self) -> (id: UserId)
        ensures
            id == self@.id,
    {
        self.id
    }

    /// The user's email address.
    pub fn email(&self) -> (email: &str)
        ensures
            email@ == self@.email,
    {
        self.email.as_str()
    }

    /// The user's forename.
    pub fn forename(&self) -> (forename: &str)
        ensures
            forename@ == self@.forename,
    {
        self.forename.as_str()
    }

    /// The user's surname.
    pub fn surname(&self) -> (surname: &str)
        ensures
            surname@ == self@.surname,
    {
        self.surname.as_str()
    }

    /// The user's address.
    pub fn address(&self) -> (address: &str)
        ensures
            address@ == self@.address,
    {
        self.address.as_str()
    }

    /// The user's role.
    pub fn role(&self) -> (role: AppUserRole)
        ensures
            role == self@.role,
    {
        self.role
    }

    /// What the engine needs to know of the user.
    pub fn profile(&self) -> (profile: UserProfile)
        ensures
            profile == (UserProfile { id: self@.id, role: self@.role }),
    {
        UserProfile { id: self.id, role: self.role }
    }

    /// Makes the user an administrator, unless the user is one already.
    pub fn promote(&mut self) -> (outcome: Result<(), UserPromotionError>)
        ensures
            old(self)@.role == AppUserRole::Administrator ==> outcome == Err::<
                (),
                UserPromotionError,
            >(UserPromotionError::AlreadyAdministrator(old(self)@.id)) && final(self)@ == old(
                self,
            )@,
            old(self)@.role == AppUserRole::Customer ==> outcome is Ok && final(self)@ == (
            AppUserView { role: AppUserRole::Administrator, ..old(self)@ }),
    {
        match self.role {
            AppUserRole::Administrator => Err(UserPromotionError::AlreadyAdministrator(self.id)),
            AppUserRole::Customer => {
                self.role = AppUserRole::Administrator;
                Ok(())
            },
        }
    }
}

/// A change to a stored user. A field that is `None` leaves its part of the
/// user as it is.
#[derive(Debug)]
pub struct AppUserUpdate {
    /// The new email address.
    pub email: Option<EmailAddress>,
    /// The new forename.
    pub forename: Option<String>,
    /// The new surname.
    pub surname: Option<String>,
    /// The new address.
    pub address: Option<String>,
}

impl AppUserUpdate {
    /// The user after the change.
    pub open spec fn applied(self, user: AppUserView) -> AppUserView {
        AppUserView {
            id: user.id,
            email: match self.email {
                Some(email) => email@,
                None => user.email,
            },
            forename: match self.forename {
                Some(forename) => forename@,
                None => user.forename,
            },
            surname: match self.surname {
                Some(surname) => surname@,
                None => user.surname,
            },
            address: match self.address {
                Some(address) => address@,
                None => user.address,
            },
            role: user.role,
        }
    }

    /// Makes the change to a user.
    pub fn apply(self, user: &mut AppUser)
        ensures
            final(user)@ == self.applied(old(user)@),
    {
        if let Some(email) = self.email {
            user.email = email;
        }
        if let Some(forename) = self.forename {
            user.forename = forename;
        }
        if let Some(surname) = self.surname {
            user.surname = surname;
        }
        if let Some(address) = self.address {
            user.address = address;
        }
    }

    /// The change in words, for a log: the new email address in full, and of
    /// the name and the address only that they change.
    pub open spec fn description(self) -> Seq<char> {
        (match self.email {
            Some(email) => "email="@ + email@ + " "@,
            None => Seq::empty(),
        }) + (if self.forename is Some {
            "forename=[REDACTED] "@
        } else {
            Seq::empty()
        }) + (if self.surname is Some {
            "surname=[REDACTED] "@
        } else {
            Seq::empty()
        }) + (if self.address is Some {
            "address=[REDACTED] "@
        } else {
            Seq::empty()
        })
    }

    /// The change in words, for a log.
    pub fn describe(&self) -> (text: String)
        ensures
            text@ == self.description(),
    {
        let mut text = String::new();
        if let Some(email) = &self.email {
            text.append("email=");
            text.append(email.as_str());
            text.append(" ");
        }
        if self.forename.is_some() {
            text.append("forename=[REDACTED] ");
        }
        if self.surname.is_some() {
            text.append("surname=[REDACTED] ");
        }
        if self.address.is_some() {
            text.append("address=[REDACTED] ");
        }
        assert(text@ =~= self.description());
        text
    }
}

} // verus!
