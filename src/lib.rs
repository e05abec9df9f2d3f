use vstd::prelude::*;

pub mod config;
pub mod document;
pub mod firing;
pub mod method;
pub mod model;
pub mod request;
pub mod schedule;
pub mod source;
pub mod timezone;

verus! {

} // verus!
