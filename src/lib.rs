//! Jail lifecycle library: the jail index, the OS jail listing and the
//! start and stop sequences of a jail.
use vstd::prelude::*;

pub mod jails;
pub mod jdb;
pub mod lifecycle;
pub mod text;

verus! {

} // verus!
