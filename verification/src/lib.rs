#![allow(non_camel_case_types)]
use vstd::prelude::*;

pub mod bytes;
pub mod table;
pub mod properties;
pub mod methods;
pub mod connection;

verus! {

/// The reply code that announces a clean shutdown of a channel or connection.
pub const AMQP_REPLY_SUCCESS: i32 = 200;

} // verus!
