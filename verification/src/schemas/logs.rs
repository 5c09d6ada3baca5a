use vstd::prelude::*;
use crate::services::logger::LogLevel;

verus! {

/// A request to write a message to a log.
#[derive(Debug)]
pub struct CreateLog {
    pub level: LogLevel,
    pub message: String,
    pub category: Option<String>,
    pub file: Option<String>,
}

} // verus!
