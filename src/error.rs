use vstd::prelude::*;

verus! {

/// Every way an operation of this library, or the program around it, can fail.
#[derive(Debug, PartialEq, Eq)]
pub enum TodoError {
    /// Reading or writing the terminal or the storage file failed.
    Io(String),
    /// A line that should hold an integer does not.
    Parse,
    /// An index does not address an existing task.
    NotFound,
    /// The stored document does not decode into task records.
    Serialization(String),
    /// A recognised command was given a malformed value.
    InvalidInput,
}

} // verus!
