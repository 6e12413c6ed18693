//! The subscription routes: subscribe, confirm, unsubscribe.

pub mod confirm;
pub mod subscribe;
pub mod unsubscribe;
