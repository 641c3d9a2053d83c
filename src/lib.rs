//! Storage security command protocol: marshaling of the two firmware entry
//! points (send, receive) and the mapping of their status codes to results.

pub mod status;
pub mod command;
