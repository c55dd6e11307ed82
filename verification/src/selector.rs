//! Resolution of a positional offset into a freshly fetched cell list.

use vstd::prelude::*;

use crate::SwapError;
use crate::cells::Cell;

verus! {

/// Returns the cell standing at `offset` in the fetched list, exactly as the
/// external indexer returned it.
///
/// Offsets address one query's result only: the indexer's ordering is not
/// guaranteed stable across calls, so an offset is valid only against the
/// list produced by the immediately preceding query.
pub fn select(cells: &Vec<Cell>, offset: usize) -> (r: Result<&Cell, SwapError>)
    ensures
        offset < cells@.len() ==> (r matches Ok(c) && *c == cells@[offset as int]),
        offset >= cells@.len() ==> r == Err::<&Cell, _>(SwapError::OffsetOutOfRange),
{
    if offset < cells.len() {
        Ok(&cells[offset])
    } else {
        Err(SwapError::OffsetOutOfRange)
    }
}

} // verus!
