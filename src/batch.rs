use vstd::prelude::*;

verus! {

/// The most statements that one batch frame can carry: its count is a 16-bit field.
pub const MAX_BATCH_STATEMENTS: usize = 65535;

/// A request that the caller got wrong, refused before any connection is touched.
#[derive(Debug, Clone, Copy, PartialEq, Eq, Structural)]
pub enum BadQuery {
    /// The batch holds this many statements, more than a batch frame can carry.
    TooManyQueriesInBatchStatement(usize),
}

/// Checks the number of statements in a batch, and gives the count to encode
/// in the batch frame.
pub fn check_batch_size(n_statements: usize) -> (r: Result<u16, BadQuery>)
    ensures
        n_statements <= MAX_BATCH_STATEMENTS ==> r == Ok::<u16, BadQuery>(n_statements as u16),
        n_statements > MAX_BATCH_STATEMENTS ==> r == Err::<u16, BadQuery>(
            BadQuery::TooManyQueriesInBatchStatement(n_statements),
        ),
{
    if n_statements <= MAX_BATCH_STATEMENTS {
        Ok(n_statements as u16)
    } else {
        Err(BadQuery::TooManyQueriesInBatchStatement(n_statements))
    }
}

} // verus!
