//! A builder for plans of cross-contract calls.
//!
//! A call body describes the work that is to follow it: batches of actions on
//! target accounts, dependencies between batches and joins of several of them.
//! Nothing is executed here. Every request is recorded, in the order in which it
//! was made, by a [`Scheduler`]; a [`Promise`] is the handle by which the call
//! body refers to a batch or a join that it has requested, and a
//! [`PromiseOrValue`] is what a call hands back: a finished value or a handle
//! whose outcome is to stand for the call's own.

pub mod action;
pub mod promise;
pub mod scheduler;
pub mod schema;

pub use action::{AccountId, Action, ActionView, Balance, Gas, PublicKey};
pub use scheduler::{PromiseIndex, Request, RequestView, Scheduler};
pub use promise::{Promise, PromiseError, PromiseOrValue, PromiseSubtype, PromiseView};
