//! Health probe for the local proxy: the decisions of one HTTP GET exchange,
//! kept apart from the host calls that carry them out.
pub mod exchange;
pub mod laws;
pub mod probe;
pub mod report;
