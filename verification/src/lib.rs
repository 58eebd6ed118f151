//! What a paste server decides when visitors log in and look at pastes.
//!
//! Handlers that talk to a session, a database or a store are step functions: a step names what
//! is to be done next, an event says what came of it, and the function gives the next step. The
//! modules whose names end in `laws` state what holds of them whatever happens.

pub mod file_map;
pub mod login;
pub mod login_laws;
pub mod login_outcome_laws;
pub mod markup;
pub mod markup_laws;
pub mod paste_laws;
pub mod paste_outcome_laws;
pub mod pastes;
pub mod preview_laws;
pub mod preview_outcome_laws;
pub mod previews;
pub mod reply;
pub mod text;
pub mod text_laws;
pub mod two_factor;
pub mod two_factor_laws;
pub mod two_factor_outcome_laws;
