use vstd::prelude::*;

verus! {

/// The error taxonomy of the rewriter.
///
/// Every failure aborts the whole operation and is surfaced to the caller;
/// nothing is retried or recovered internally.
#[derive(Clone, Debug)]
pub enum RewriteError {
    /// A file could not be opened, read, written or closed at the
    /// filesystem level.
    IoError(String),
    /// The bytes read do not form a valid Parquet file, or the writer could
    /// not encode the given schema and batches.
    FormatError(String),
    /// The input parsed correctly but yields zero record batches.
    EmptyInputError,
}

impl RewriteError {
    /// The text that `message` returns for each variant.
    pub open spec fn message_spec(self) -> Seq<char> {
        match self {
            RewriteError::IoError(m) => m@,
            RewriteError::FormatError(m) => m@,
            RewriteError::EmptyInputError => "No data found in the input Parquet file."@,
        }
    }

    /// Renders the error as human-readable text.
    pub fn message(&self) -> (r: String)
        ensures
            r@ == self.message_spec(),
    {
        match self {
            RewriteError::IoError(m) => m.clone(),
            RewriteError::FormatError(m) => m.clone(),
            RewriteError::EmptyInputError => "No data found in the input Parquet file.".to_string(),
        }
    }
}

} // verus!
