//! A session layer for a native JPEG-LS codec engine.
//!
//! A [`session::CharLS`] owns at most one encoder and one decoder handle of the
//! native engine, creates each on first use and hands each back exactly once
//! when the session is released. Its transfer operations run as ordered native
//! call protocols: the session names the next call, a driver makes it and
//! reports what it returned, and the first failure ends the operation with a
//! typed [`error::Error`].
pub mod error;
pub mod frame;
pub mod laws;
pub mod protocol;
pub mod session;
