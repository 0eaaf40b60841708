//! A generator primitive: a depth-first traversal over a nested structure
//! that suspends at each leaf and hands one value at a time to a driving
//! caller, with three interchangeable backends presenting the same
//! pull-one-value-per-resume contract.

pub mod channel;
pub mod driver;
pub mod machine;
pub mod nested;
pub mod squares;
pub mod stackful;
pub mod stackless;
