//! The rules that the HTTP routes apply: what counts as a valid form, which
//! status answers which failure, and what goes into the emails they enqueue.

pub mod blog;
pub mod subscriptions;
