use vstd::prelude::*;

pub mod conditions;
pub mod prompt;
pub mod report;
pub mod request;
pub mod session;
pub mod style;
pub mod temperature;
pub mod text;

verus! {

} // verus!
