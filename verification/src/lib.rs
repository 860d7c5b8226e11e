//! Session and delivery logic of a command-line notifier for Matrix rooms.
//!
//! The library decides; its caller performs. Every operation that needs the
//! network is a small state machine: it hands out one [`protocol::Action`] at
//! a time and is resumed with the [`protocol::Event`] that answers it, until
//! it is done.
//!
//! ```text
//! let mut step = session::perform_send_message(loaded, room, message);
//! loop {
//!     match step {
//!         Step::Done(outcome) => break outcome,
//!         Step::Next(session, action) => {
//!             let event = perform(action);
//!             step = session.resume(event).expect("the event answers the action");
//!         }
//!     }
//! }
//! ```
//!
//! What an operation does in the whole is stated over [`protocol::run`], its
//! dialogue with a [`protocol::World`] that answers every action, and proved
//! for every world: see the functions named `law_…` beside each operation.
//!
//! - [`api`]: the single calls, and [`api::ApiError`].
//! - [`token`]: the token resolver.
//! - [`membership`]: the membership guarantor.
//! - [`session`]: a whole run.
//! - [`config`]: the credentials and the addresses built from them.
//! - [`exchange`]: requests and replies.

pub mod api;
pub mod config;
pub mod exchange;
pub mod membership;
pub mod protocol;
pub mod session;
pub mod token;
