//! Session and authentication engine of the SecureCart back end.
//!
//! The engine never performs I/O itself. Every operation that needs the
//! session store or the user directory is a small state machine: it hands
//! the caller the next request, and is resumed with what came of it. What
//! each machine asks for, and what it concludes from each reply, is stated
//! in its contract; what the machines come to against a store that behaves
//! as it should is proved in [`laws`].
//!
//! The values: [`token`] makes session and CSRF tokens, [`store`] names the
//! kinds of session, their keys and their payloads, [`schema`] lays a
//! payload out in the fields of a record, [`sessions`] holds the typed
//! sessions, [`users`], [`email`] and [`credentials`] the people and what
//! they prove themselves with, [`http`] the cookies, headers and status
//! codes.
//!
//! The conversation: [`protocol`] holds the commands for the session store
//! and the shape of a step, [`directory`] the questions for the user
//! directory.
//!
//! The machines: [`creation`], [`lookup`] and [`promotion`] are the life of a
//! session record; [`guard`] counts attempts; [`admission`] lets a request
//! in by its session cookie and CSRF header; [`auth`], [`second_factor`] and
//! [`login`] authenticate; [`registration`] signs a user up.
//!
//! The shop around it: [`catalog`], [`media`] and [`search`] hold products,
//! orders, images and search terms as values, [`access`] the rules by which
//! the holder of a session is let at them, [`checkout`] the token with which
//! a customer pays.

pub mod access;
pub mod admission;
pub mod auth;
pub mod catalog;
pub mod checkout;
pub mod creation;
pub mod credentials;
pub mod directory;
pub mod email;
pub mod guard;
pub mod http;
pub mod laws;
pub mod login;
pub mod lookup;
pub mod media;
pub mod promotion;
pub mod protocol;
pub mod registration;
pub mod schema;
pub mod search;
pub mod second_factor;
pub mod sessions;
pub mod store;
pub mod token;
pub mod users;
