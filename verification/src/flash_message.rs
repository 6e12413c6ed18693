//! The one-time message that a route leaves for the next page.

use vstd::prelude::*;

verus! {

/// The session key under which the message is kept.
pub const FLASH_KEY: &'static str = "_flash";

} // verus!
