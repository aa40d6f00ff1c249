//! Verified core of a local MTProto proxy front-end: proxy links, secrets,
//! start-up configuration and the settings form.

pub mod text;
pub mod hexcode;
pub mod secret;
pub mod links;
pub mod config;
pub mod form;
