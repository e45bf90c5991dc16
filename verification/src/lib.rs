//! Account records and the login automation engine of a small launcher for
//! a game client: launch planning, discovery of the client's login field
//! under a deadline, the keystroke plan that types the credentials, and the
//! state of the form through which accounts are kept.

pub mod app;
pub mod credentials;
pub mod engine;
pub mod engine_laws;
pub mod injector;
pub mod launcher;
pub mod locator;
pub mod locator_laws;
pub mod settings;
pub mod text;
