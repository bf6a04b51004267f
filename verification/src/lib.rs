//! Verified core of a clinic web portal: accounts, sign-in, consultations,
//! attachments and join forms.

pub mod config;
pub mod text;
pub mod hashing;
pub mod accounts;
pub mod login;
pub mod timestamps;
pub mod identifiers;
pub mod register;
pub mod account_laws;
pub mod consultations;
pub mod join_form;
pub mod attachments;
pub mod pages;
