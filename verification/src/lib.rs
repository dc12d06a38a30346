//! A checkbox board whose every request is spelled out in a hostname.
//!
//! A client talks to the site through subdomain labels such as
//! `check-2-2-username-alice-password-secret`. This library holds the parts
//! of the site that decide something: cutting the label out of a hostname,
//! reading a label as a command, the bit-grid behind each board, password
//! digests, and the steps that turn a command into a page.
use vstd::prelude::*;

pub mod database;
pub mod grid;
pub mod parse;
pub mod response;
pub mod roundtrip;
pub mod text;

verus! {

/// Number of columns of every board.
pub const WIDTH: u32 = 5;

/// Number of rows of every board.
pub const HEIGHT: u32 = 5;

} // verus!
