use vstd::prelude::*;
use crate::identity::Identity;
use crate::ledger::{leases_view, property_index, property_key, BackendError, StateView, StorageState};
use crate::records::{Lease, LeaseId, LeaseStatus, LeaseView, PropertyId};
use crate::search::lemma_first_index_range;

verus! {

/// What registering a lease on property `property_id` gives (the lease id on
/// success), and the state after it. The caller becomes the tenant and the
/// lease starts out active.
pub open spec fn register_lease_spec(
    s: StateView,
    tenant: Seq<u8>,
    property_id: PropertyId,
    tenant_name: Seq<char>,
    tenant_email: Seq<char>,
    tenant_phone: Seq<char>,
    lease_start_date: Seq<char>,
    lease_end_date: Seq<char>,
    monthly_rent: u128,
    security_deposit: u128,
    lease_terms: Seq<char>,
    special_conditions: Seq<char>,
) -> (Result<LeaseId, BackendError>, StateView) {
    if property_index(s, property_id) >= s.properties.len() {
        (Err(BackendError::PropertyNotFound), s)
    } else {
        let id = (s.leases.len() + 1) as u128;
        let l = LeaseView {
            lease_id: id,
            property_id,
            tenant_name,
            tenant,
            tenant_email,
            tenant_phone,
            lease_start_date,
            lease_end_date,
            monthly_rent,
            security_deposit,
            lease_terms,
            special_conditions,
            status: LeaseStatus::Active,
        };
        (Ok(id), StateView { leases: s.leases.push(l), ..s })
    }
}

/// Registers a lease by the caller on an existing property and returns its id.
pub fn register_lease(
    state: &mut StorageState,
    caller: &Identity,
    property_id: PropertyId,
    tenant_name: String,
    tenant_email: String,
    tenant_phone: String,
    lease_start_date: String,
    lease_end_date: String,
    monthly_rent: u128,
    security_deposit: u128,
    lease_terms: String,
    special_conditions: String,
) -> (r: Result<LeaseId, BackendError>)
    ensures
        (r, final(state)@) == register_lease_spec(
            old(state)@, caller@, property_id, tenant_name@, tenant_email@, tenant_phone@,
            lease_start_date@, lease_end_date@, monthly_rent, security_deposit, lease_terms@,
            special_conditions@,
        ),
{
    let ghost s0 = state@;
    let pi = state.find_property(property_id);
    proof {
        lemma_first_index_range(s0.properties, property_key(property_id));
    }
    if pi >= state.all_properties.len() {
        return Err(BackendError::PropertyNotFound);
    }
    let lease_id = state.all_leases.len() as u128 + 1;
    let lease = Lease {
        lease_id,
        property_id,
        tenant_name,
        tenant: caller.duplicate(),
        tenant_email,
        tenant_phone,
        lease_start_date,
        lease_end_date,
        monthly_rent,
        security_deposit,
        lease_terms,
        special_conditions,
        status: LeaseStatus::Active,
    };
    state.all_leases.push(lease);
    assert(state@.leases =~= register_lease_spec(
        s0, caller@, property_id, tenant_name@, tenant_email@, tenant_phone@, lease_start_date@,
        lease_end_date@, monthly_rent, security_deposit, lease_terms@, special_conditions@,
    ).1.leases);
    Ok(lease_id)
}

/// Every lease, in id order.
pub fn get_all_leases(state: &StorageState) -> (r: Vec<Lease>)
    ensures
        leases_view(r@) == state@.leases,
{
    let mut r: Vec<Lease> = Vec::new();
    let mut i: usize = 0;
    while i < state.all_leases.len()
        invariant
            i <= state.all_leases@.len(),
            r@.len() == i,
            forall|k: int| 0 <= k < i ==> r@[k]@ == state.all_leases@[k]@,
        decreases state.all_leases@.len() - i,
    {
        r.push(state.all_leases[i].duplicate());
        i = i + 1;
    }
    assert(leases_view(r@) =~= state@.leases);
    r
}

/// The leases whose tenant is `who`, in their order.
pub open spec fn leases_of(leases: Seq<LeaseView>, who: Seq<u8>) -> Seq<LeaseView>
    decreases leases.len(),
{
    if leases.len() == 0 {
        Seq::empty()
    } else {
        let rest = leases_of(leases.drop_last(), who);
        if leases.last().tenant == who {
            rest.push(leases.last())
        } else {
            rest
        }
    }
}

/// The leases whose tenant is the caller, in id order.
pub fn get_my_leases(state: &StorageState, caller: &Identity) -> (r: Vec<Lease>)
    ensures
        leases_view(r@) == leases_of(state@.leases, caller@),
{
    let ghost all = state@.leases;
    let mut r: Vec<Lease> = Vec::new();
    let mut i: usize = 0;
    while i < state.all_leases.len()
        invariant
            all == state@.leases,
            all.len() == state.all_leases@.len(),
            i <= all.len(),
            leases_view(r@) == leases_of(all.subrange(0, i as int), caller@),
        decreases all.len() - i,
    {
        proof {
            assert(all.subrange(0, i + 1).drop_last() =~= all.subrange(0, i as int));
        }
        if state.all_leases[i].tenant.same(caller) {
            let ghost before = r@;
            r.push(state.all_leases[i].duplicate());
            assert(leases_view(r@) =~= leases_view(before).push(all[i as int]));
        }
        i = i + 1;
    }
    assert(all.subrange(0, all.len() as int) =~= all);
    r
}

} // verus!
