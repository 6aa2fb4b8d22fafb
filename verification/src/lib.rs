//! A minimal pastebin: the rules by which a paste is created, named, stored
//! with a time to live, found again and shown.
//!
//! The library decides and the host acts. A request is routed by [`router`].
//! For a creation, [`service`] reads the form, names the paste ([`ident`]),
//! works out when it expires ([`expiry`]) and prepares the one write that
//! the store is asked for ([`paste`], in the text of [`record`]). For a
//! fetch, [`paste`] says under which key the store is asked, reads the paste
//! back from what the store holds ([`reading`], by the rules of
//! [`grammar`]; any other JSON object with the fields by [`members`]), and
//! [`response`] shows it ([`html`]). What holds of all of this together is
//! stated and proved in [`laws`].

pub mod config;
pub mod errors;
pub mod expiry;
pub mod form;
pub mod grammar;
pub mod html;
pub mod ident;
pub mod laws;
pub mod members;
pub mod paste;
pub mod reading;
pub mod record;
pub mod response;
pub mod router;
pub mod service;
pub mod text;
