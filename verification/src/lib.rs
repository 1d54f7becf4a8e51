//! Account intake for the Cursor editor: reading sign-in snapshots into
//! account payloads, matching them to stored accounts, and the bookkeeping of
//! pending browser sign-ins.

pub mod json;
pub mod text;
pub mod timestamp;
pub mod jwt;
pub mod model;
pub mod snapshot;
pub mod oauth;
pub mod commands;
pub mod payload_laws;
