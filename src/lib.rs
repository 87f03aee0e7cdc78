//! A bridge between a host runtime's dynamic values and a browser client
//! speaking JSON: value conversion, response channels, and the decisions of
//! the bridge's lifecycle and HTTP routes.
use vstd::prelude::*;

pub mod bridge;
pub mod channel;
pub mod value;
