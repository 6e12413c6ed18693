//! The delivery worker: the mail client that prepares each message and the
//! decisions of the claim, send and resolve cycle.

pub mod email_client;
pub mod worker;
