//! What holds of the relay as a whole, proved from the definitions that the
//! contracts of its functions are stated in.

pub mod classifier;
pub mod completion;
pub mod flow;
pub mod grammar;
