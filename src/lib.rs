pub mod coordinator;
pub mod energy;
pub mod exchange;
pub mod method;
pub mod worker;
