//! The lifecycle state machine.

pub mod connected;
pub mod evidence;
pub mod laws;
pub mod machine;
pub mod machine_laws;
pub mod outcome;
pub mod queries;
pub mod ready;
pub mod startup;
pub mod step_laws;
pub mod turn;
pub mod twofa;
pub mod types;

