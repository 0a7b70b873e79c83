//! The reconciliation decision: which address families get an update this
//! run. The surrounding binary performs the resulting provider calls in
//! order; nothing here loops or retries.

use vstd::prelude::*;

verus! {

/// What the run does for one address family.
#[derive(Debug)]
pub enum FamilyAction {
    /// Send an update: write `address` to the record with id `record_id`.
    Update { record_id: String, address: String },
    /// Take no provider action: the address or the record id is absent.
    Skip,
}

/// The action for one address family: an update exactly when both a current
/// address and a pre-existing record id are present, a skip otherwise.
pub open spec fn family_decision(address: Option<String>, record_id: Option<String>) -> FamilyAction {
    if address is Some && record_id is Some {
        FamilyAction::Update { record_id: record_id->Some_0, address: address->Some_0 }
    } else {
        FamilyAction::Skip
    }
}

/// A family with a missing current address or a missing record id is always
/// skipped: no update call is made for it.
pub proof fn lemma_skip_when_missing(address: Option<String>, record_id: Option<String>)
    requires
        address is None || record_id is None,
    ensures
        family_decision(address, record_id) == FamilyAction::Skip,
{
}

/// Decides one address family.
pub fn family_action(address: Option<String>, record_id: Option<String>) -> (a: FamilyAction)
    ensures
        a == family_decision(address, record_id),
{
    match (address, record_id) {
        (Some(addr), Some(id)) => FamilyAction::Update { record_id: id, address: addr },
        _ => FamilyAction::Skip,
    }
}

/// The full per-run plan: the IPv4 action, then the IPv6 action.
#[derive(Debug)]
pub struct ReconcilePlan {
    pub ipv4: FamilyAction,
    pub ipv6: FamilyAction,
}

/// Decides both address families from the discovered record ids and the
/// current addresses, each pair ordered (IPv4, IPv6).
pub fn reconcile_plan(addresses: (Option<String>, Option<String>), ids: (
    Option<String>,
    Option<String>,
)) -> (p: ReconcilePlan)
    ensures
        p.ipv4 == family_decision(addresses.0, ids.0),
        p.ipv6 == family_decision(addresses.1, ids.1),
{
    let (ipv4_addr, ipv6_addr) = addresses;
    let (ipv4_id, ipv6_id) = ids;
    ReconcilePlan {
        ipv4: family_action(ipv4_addr, ipv4_id),
        ipv6: family_action(ipv6_addr, ipv6_id),
    }
}

} // verus!
