//! What reading a line from a connection can give.
use vstd::prelude::*;

verus! {

/// The outcome of reading one line.
#[derive(Debug)]
pub enum LineInput {
    /// The other side closed the connection.
    Eof,
    /// A line, with or without its newline.
    Line(String),
    /// Reading failed.
    Failed,
}

} // verus!
