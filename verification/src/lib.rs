//! Licensing core of the HangHoa POS desktop application.
use vstd::prelude::*;

pub mod text;
pub mod backups;
pub mod calendar;
pub mod crypto;
pub mod license;
pub mod machine_id;
pub mod generator;
pub mod laws;

verus! {

} // verus!
