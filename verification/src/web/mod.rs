//! The rules of the HTTP front-end that need no HTTP: header values and the
//! choice of a language.

pub mod compress;
pub mod embed;
pub mod handlebars;
pub mod headers;
pub mod i18n;
pub mod lobby;
pub mod see_other;
