//! The laws of the engine: what the machines come to when their requests are
//! carried out by a session store and a user directory that behave as the
//! mathematical models here say. Nothing in this module runs; all of it is
//! proved.

pub mod admission;
pub mod authentication;
pub mod guard;
pub mod lifecycle;
pub mod login;
pub mod model;
pub mod promotion;
pub mod registration;
pub mod second_factor;
