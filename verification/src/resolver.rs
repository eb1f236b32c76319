//! Finding the two endpoints of the protocol in a device's service tree.
//!
//! The tree is given as the characteristic UUIDs of each service, in the order
//! in which the platform lists them. For each of the two UUIDs the first
//! characteristic that carries it is taken.

use vstd::prelude::*;
use crate::model::EngineError;

verus! {

/// UUID of the characteristic on which the bridge sends its answers.
pub const NOTIFY_UUID: u128 = 0x0200dec0_01ef_bc9a_5678_1234deadf0be;

/// UUID of the characteristic to which commands are written.
pub const WRITE_UUID: u128 = 0x0300dec0_01ef_bc9a_5678_1234deadf0be;

/// Place of one characteristic in the service tree.
#[derive(Debug, Clone, Copy, PartialEq, Eq, Structural)]
pub struct Endpoint {
    /// Index of the service.
    pub service: usize,
    /// Index of the characteristic within that service.
    pub characteristic: usize,
}

/// The two endpoints one exchange needs.
#[derive(Debug, Clone, Copy, PartialEq, Eq, Structural)]
pub struct CharacteristicPair {
    pub notify: Endpoint,
    pub write: Endpoint,
}

/// Whether a place lies in the tree and carries the UUID.
pub open spec fn carries(tree: Seq<Vec<u128>>, service: int, characteristic: int, uuid: u128) -> bool {
    &&& 0 <= service < tree.len()
    &&& 0 <= characteristic < tree[service]@.len()
    &&& tree[service]@[characteristic] == uuid
}

/// Whether some characteristic of the tree carries the UUID.
pub open spec fn occurs(tree: Seq<Vec<u128>>, uuid: u128) -> bool {
    exists|service: int, characteristic: int| carries(tree, service, characteristic, uuid)
}

/// Whether the first place comes before the second in listing order.
pub open spec fn precedes(service: int, characteristic: int, other_service: int, other_characteristic: int) -> bool {
    service < other_service || (service == other_service && characteristic < other_characteristic)
}

/// Whether the endpoint is the first characteristic, in listing order, that
/// carries the UUID.
pub open spec fn is_first(tree: Seq<Vec<u128>>, uuid: u128, endpoint: Endpoint) -> bool {
    &&& carries(tree, endpoint.service as int, endpoint.characteristic as int, uuid)
    &&& forall|service: int, characteristic: int|
        precedes(service, characteristic, endpoint.service as int, endpoint.characteristic as int)
            ==> !carries(tree, service, characteristic, uuid)
}

/// The first characteristic that carries the UUID, if any does.
pub open spec fn first_match(tree: Seq<Vec<u128>>, uuid: u128) -> Option<Endpoint> {
    if occurs(tree, uuid) {
        Some(choose|endpoint: Endpoint| is_first(tree, uuid, endpoint))
    } else {
        None
    }
}

/// The pair that a tree resolves to: both first matches, or the failure.
pub open spec fn resolved(tree: Seq<Vec<u128>>) -> Result<CharacteristicPair, EngineError> {
    match (first_match(tree, NOTIFY_UUID), first_match(tree, WRITE_UUID)) {
        (Some(notify), Some(write)) => Ok(CharacteristicPair { notify, write }),
        _ => Err(EngineError::CharacteristicsNotFound),
    }
}

/// A UUID has at most one first match.
pub proof fn first_match_is_unique(tree: Seq<Vec<u128>>, uuid: u128, a: Endpoint, b: Endpoint)
    requires
        is_first(tree, uuid, a),
        is_first(tree, uuid, b),
    ensures
        a == b,
{
    if precedes(a.service as int, a.characteristic as int, b.service as int, b.characteristic as int) {
        assert(!carries(tree, a.service as int, a.characteristic as int, uuid));
    }
    if precedes(b.service as int, b.characteristic as int, a.service as int, a.characteristic as int) {
        assert(!carries(tree, b.service as int, b.characteristic as int, uuid));
    }
}

/// Searches the tree in listing order for the first characteristic with the UUID.
pub fn find_first(tree: &Vec<Vec<u128>>, uuid: u128) -> (found: Option<Endpoint>)
    ensures
        found == first_match(tree@, uuid),
        found is Some <==> occurs(tree@, uuid),
        found is Some ==> is_first(tree@, uuid, found->0),
{
    let mut service: usize = 0;
    while service < tree.len()
        invariant
            service <= tree.len(),
            forall|s: int, c: int| s < service ==> !carries(tree@, s, c, uuid),
        decreases tree.len() - service,
    {
        let characteristics = &tree[service];
        let mut characteristic: usize = 0;
        while characteristic < characteristics.len()
            invariant
                service < tree.len(),
                characteristics == &tree@[service as int],
                characteristic <= characteristics.len(),
                forall|s: int, c: int| s < service ==> !carries(tree@, s, c, uuid),
                forall|c: int| c < characteristic ==> !carries(tree@, service as int, c, uuid),
            decreases characteristics.len() - characteristic,
        {
            if characteristics[characteristic] == uuid {
                let endpoint = Endpoint { service, characteristic };
                proof {
                    assert(carries(tree@, service as int, characteristic as int, uuid));
                    assert(is_first(tree@, uuid, endpoint));
                    let chosen = choose|e: Endpoint| is_first(tree@, uuid, e);
                    first_match_is_unique(tree@, uuid, endpoint, chosen);
                }
                return Some(endpoint);
            }
            characteristic += 1;
        }
        service += 1;
    }
    None
}

/// Resolves the notify and the write characteristic.
///
/// Succeeds exactly when both UUIDs occur in the tree, and then with the first
/// match of each; fails with `CharacteristicsNotFound` whichever is missing.
pub fn find_characteristics(tree: &Vec<Vec<u128>>) -> (r: Result<CharacteristicPair, EngineError>)
    ensures
        r == resolved(tree@),
        r is Ok <==> occurs(tree@, NOTIFY_UUID) && occurs(tree@, WRITE_UUID),
        r is Err ==> r == Err::<CharacteristicPair, EngineError>(EngineError::CharacteristicsNotFound),
        r is Ok ==> is_first(tree@, NOTIFY_UUID, r->Ok_0.notify) && is_first(tree@, WRITE_UUID, r->Ok_0.write),
{
    let notify = find_first(tree, NOTIFY_UUID);
    let write = find_first(tree, WRITE_UUID);
    match (notify, write) {
        (Some(notify), Some(write)) => Ok(CharacteristicPair { notify, write }),
        _ => Err(EngineError::CharacteristicsNotFound),
    }
}

} // verus!
