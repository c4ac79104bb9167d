//! Verified core of a dean's-office client: user records and how they are
//! shown, login routing, the SQL text sent for every table operation, the
//! parsing of texts shown in the user interface, and worksheet exports.
use vstd::prelude::*;

pub mod authorization;
pub mod tables;
pub mod text;
pub mod to_excel;

verus! {

} // verus!
