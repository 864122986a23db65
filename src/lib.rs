//! Records and handlers of a small question-and-answer program: creating a
//! question under an address derived from its creator and topic, and posting
//! numbered answers to it.
pub mod address;
pub mod ledger;
pub mod state;
pub mod laws;
