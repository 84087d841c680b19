//! Locating one characteristic in the table that a peripheral reports.

use crate::error::PipelineError;
use crate::uuid::Uuid;
use vstd::prelude::*;

verus! {

/// The position of the first entry of `table` that is exactly `target`.
pub fn position_of(table: &Vec<Uuid>, target: &Uuid) -> (found: Option<usize>)
    ensures
        match found {
            Some(i) => {
                &&& i < table@.len()
                &&& table@[i as int] == *target
                &&& forall|j: int| 0 <= j < i ==> table@[j] != *target
            },
            None => !table@.contains(*target),
        },
{
    let mut i: usize = 0;
    while i < table.len()
        invariant
            i <= table@.len(),
            forall|j: int| 0 <= j < i ==> table@[j] != *target,
        decreases table@.len() - i,
    {
        if table[i].matches(target) {
            return Some(i);
        }
        i = i + 1;
    }
    None
}

/// What the search of a discovery outcome gives: the position of the first
/// entry that is exactly `target`, or the reason why there is none.
pub open spec fn resolution(discovered: Option<Vec<Uuid>>, target: Uuid) -> Result<
    usize,
    PipelineError,
> {
    match discovered {
        None => Err(PipelineError::DiscoveryFailed),
        Some(table) => match table@.index_of_first(target) {
            Some(i) => Ok(i as usize),
            None => Err(PipelineError::CharacteristicNotFound),
        },
    }
}

/// Searches the characteristic table for `target`. `discovered` holds the
/// identifier of each characteristic in the order in which the peripheral
/// reported them, or `None` if the table could not be read.
///
/// Returns the position of the first characteristic whose identifier is
/// exactly `target`; `DiscoveryFailed` exactly when there is no table, and
/// `CharacteristicNotFound` exactly when the table holds no such identifier.
pub fn resolve(discovered: &Option<Vec<Uuid>>, target: &Uuid) -> (found: Result<
    usize,
    PipelineError,
>)
    ensures
        found == resolution(*discovered, *target),
        match found {
            Ok(i) => {
                &&& discovered matches Some(table)
                &&& i < table@.len()
                &&& table@[i as int] == *target
                &&& forall|j: int| 0 <= j < i ==> table@[j] != *target
            },
            Err(PipelineError::DiscoveryFailed) => discovered is None,
            Err(PipelineError::CharacteristicNotFound) => {
                &&& discovered matches Some(table)
                &&& !table@.contains(*target)
            },
            Err(_) => false,
        },
{
    match discovered {
        None => Err(PipelineError::DiscoveryFailed),
        Some(table) => {
            proof {
                table@.index_of_first_ensures(*target);
            }
            match position_of(table, target) {
                Some(i) => Ok(i),
                None => Err(PipelineError::CharacteristicNotFound),
            }
        },
    }
}

} // verus!
