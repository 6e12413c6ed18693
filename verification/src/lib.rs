//! A queue of outbound notification emails, the worker that drains it and
//! the retry policy that spaces failed attempts, with the rules of the site
//! that fills the queue.
//!
//! The queue is a table of pending deliveries that transactions enqueue to,
//! claim from, complete and defer. [`email_delivery_queue`] holds it as an
//! in-memory model of that table: the statements and their locking are the
//! library's, the durable table is a database's. The worker
//! claims one task at a time, has it sent and resolves it
//! ([`email_delivery_worker`]); a task that could not be sent waits twice as
//! long after each failure ([`backoff`]). What holds of all of this, whatever
//! its users do, is proved in [`guarantees`].

pub mod backoff;
pub mod blog_post_dispatcher;
pub mod domain;
pub mod email_client;
pub mod email_delivery_queue;
pub mod email_delivery_worker;
pub mod email_template;
pub mod flash_message;
pub mod guarantees;
pub mod routes;
pub mod static_build;
