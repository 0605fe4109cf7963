//! A stale-while-revalidate cache of an account's public repositories, with the
//! small pieces of site logic around it: blog catalogue queries, language,
//! theme and colour-mode preferences, translations and contact-form rules.
//!
//! Everything here is pure: reads and writes of the cache act on a value the
//! caller owns, instants are passed in as seconds since the Unix epoch, and the
//! upstream fetch is performed by the caller, which hands its outcome back.
pub mod blog;
pub mod cache;
pub mod contact;
pub mod dates;
pub mod github;
pub mod i18n;
pub mod laws;
pub mod projects;
pub mod service;
pub mod text;
pub mod themes;
pub mod translations;
