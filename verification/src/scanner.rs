//! Choosing the target peripheral among the advertisements seen during a scan.

use crate::error::PipelineError;
use vstd::prelude::*;
use vstd::std_specs::iter::IteratorSpec;

verus! {

broadcast use vstd::string::group_string_axioms;

/// How long the scan runs before its results are inspected, in seconds.
pub const SCAN_WINDOW_SECS: u64 = 2;

/// The beginning of the name under which the strap advertises itself.
pub const STRAP_NAME_PREFIX: &'static str = "Polar OH1";

/// Whether an advertisement carries a local name that begins with `prefix`.
/// An advertisement without a name matches no prefix, not even the empty one.
pub open spec fn advertises(name: Option<String>, prefix: Seq<char>) -> bool {
    match name {
        Some(n) => prefix.is_prefix_of(n@),
        None => false,
    }
}

/// Whether `name` begins with `prefix`, character by character.
pub fn name_starts_with(name: &str, prefix: &str) -> (found: bool)
    ensures
        found == prefix@.is_prefix_of(name@),
{
    let mut rest_of_name = name.chars();
    let mut rest_of_prefix = prefix.chars();
    let ghost mut matched: int = 0;
    loop
        invariant
            0 <= matched <= prefix@.len(),
            matched <= name@.len(),
            rest_of_name.obeys_prophetic_iter_laws(),
            rest_of_prefix.obeys_prophetic_iter_laws(),
            rest_of_name.remaining() == name@.skip(matched),
            rest_of_prefix.remaining() == prefix@.skip(matched),
            prefix@.take(matched) == name@.take(matched),
        decreases prefix@.len() - matched,
    {
        match rest_of_prefix.next() {
            None => {
                assert(prefix@ == name@.take(matched));
                return true;
            },
            Some(wanted) => {
                match rest_of_name.next() {
                    None => {
                        return false;
                    },
                    Some(seen) => {
                        if seen != wanted {
                            return false;
                        }
                        proof {
                            assert(prefix@.take(matched + 1) == prefix@.take(matched).push(wanted));
                            assert(name@.take(matched + 1) == name@.take(matched).push(seen));
                            assert(name@.skip(matched).drop_first() == name@.skip(matched + 1));
                            assert(prefix@.skip(matched).drop_first() == prefix@.skip(
                                matched + 1,
                            ));
                            matched = matched + 1;
                        }
                    },
                }
            },
        }
    }
}

/// The position of the first advertisement that carries `prefix`, if there is
/// one.
pub open spec fn first_match(names: Seq<Option<String>>, prefix: Seq<char>) -> Option<int> {
    if exists|i: int| 0 <= i < names.len() && advertises(#[trigger] names[i], prefix) {
        Some(
            choose|i: int|
                0 <= i < names.len() && advertises(#[trigger] names[i], prefix) && forall|j: int|
                    0 <= j < i ==> !advertises(#[trigger] names[j], prefix),
        )
    } else {
        None
    }
}

/// What the inspection of a scan gives: the position of the first peripheral
/// that carries `prefix`, or `DeviceNotFound`.
pub open spec fn scan_choice(names: Seq<Option<String>>, prefix: Seq<char>) -> Result<
    usize,
    PipelineError,
> {
    match first_match(names, prefix) {
        Some(i) => Ok(i as usize),
        None => Err(PipelineError::DeviceNotFound),
    }
}

/// An advertisement that carries `prefix` and has none before it that does
/// is the first match.
pub proof fn lemma_first_match_is_least(names: Seq<Option<String>>, prefix: Seq<char>, i: int)
    requires
        0 <= i < names.len(),
        advertises(names[i], prefix),
        forall|j: int| 0 <= j < i ==> !advertises(#[trigger] names[j], prefix),
    ensures
        first_match(names, prefix) == Some(i),
{
    let k = choose|k: int|
        0 <= k < names.len() && advertises(#[trigger] names[k], prefix) && forall|j: int|
            0 <= j < k ==> !advertises(#[trigger] names[j], prefix);
    assert(k == i);
}

/// There is no first match exactly when no advertisement carries `prefix`.
pub proof fn lemma_first_match_is_none(names: Seq<Option<String>>, prefix: Seq<char>)
    ensures
        first_match(names, prefix) is None <==> forall|j: int|
            0 <= j < names.len() ==> !advertises(#[trigger] names[j], prefix),
{
}

/// Picks the target among the advertisements gathered once the scan window has
/// elapsed. `names` holds the local name of each peripheral seen so far, in
/// the order in which the radio lists them.
///
/// Returns the position of the first peripheral whose name begins with
/// `prefix`, and `DeviceNotFound` exactly when no listed peripheral has such a
/// name.
pub fn scan_for(names: &Vec<Option<String>>, prefix: &str) -> (found: Result<
    usize,
    PipelineError,
>)
    ensures
        found == scan_choice(names@, prefix@),
        match found {
            Ok(i) => {
                &&& i < names@.len()
                &&& advertises(names@[i as int], prefix@)
                &&& forall|j: int| 0 <= j < i ==> !advertises(#[trigger] names@[j], prefix@)
            },
            Err(e) => {
                &&& e == PipelineError::DeviceNotFound
                &&& forall|j: int|
                    0 <= j < names@.len() ==> !advertises(#[trigger] names@[j], prefix@)
            },
        },
{
    let mut i: usize = 0;
    while i < names.len()
        invariant
            i <= names@.len(),
            forall|j: int| 0 <= j < i ==> !advertises(#[trigger] names@[j], prefix@),
        decreases names@.len() - i,
    {
        match &names[i] {
            Some(name) => {
                if name_starts_with(name.as_str(), prefix) {
                    proof {
                        lemma_first_match_is_least(names@, prefix@, i as int);
                    }
                    return Ok(i);
                }
            },
            None => {},
        }
        i = i + 1;
    }
    Err(PipelineError::DeviceNotFound)
}

} // verus!
