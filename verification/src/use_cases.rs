//! Use cases: the decision step of each operation, verified. The host runs
//! the surrounding repository reads and writes and hands their outcomes in
//! as plain values.

pub mod articles;
pub mod comments;
pub mod users;
