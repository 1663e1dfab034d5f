//! Verified core of a small local-network video playback server.
//!
//! The server shows an entry page with a URL form, and answers form
//! submissions with a playback page in which the submitted URL has been
//! spliced into the video element.  This crate holds the logic of that
//! server — request routing, the template renderer, the discovery of
//! advertisable addresses, and the startup messages — as verified
//! functions over plain values.  The surrounding process (argument
//! parsing, the TCP listener, the HTTP runtime, the interface query)
//! stays outside and hands these functions their inputs.

use vstd::prelude::*;

pub mod discovery;
pub mod guide;
pub mod numfmt;
pub mod render;
pub mod router;
pub mod search;
pub mod startup;

verus! {

/// Port the server binds when the operator names none.
pub const DEFAULT_PORT: u16 = 3000;

} // verus!
