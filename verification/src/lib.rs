//! Proactive notifications.
//!
//! A request names a delivery method (a messaging channel, Pushover or a
//! webhook) and a message of some type. [`tool::NotifyTool`] takes it from step
//! to step: it checks with the security policy, reads the arguments, lets the
//! backend of the method decide what to send, and tells what became of it. The
//! library itself reads and sends nothing; every step says what its caller has
//! to do next.
//!
//! New delivery methods are added by implementing [`backend::NotifyBackend`] and
//! registering the variant in [`method::NotifyMethod`]; one that sends HTTP
//! requests also needs a [`backend::Service`], which tells the replies apart.

pub mod arguments;
pub mod backend;
pub mod config;
pub mod course;
pub mod env;
pub mod error;
pub mod json;
pub mod method;
pub mod payload;
pub mod reply;
pub mod request;
pub mod schema;
pub mod text;
pub mod tool;
