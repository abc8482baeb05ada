use vstd::prelude::*;
use crate::ledger::{
    empty_state, holding_key, property_key, get_user_data_spec, register_user_spec, user_index, user_key, BackendError,
    StateView,
};
use crate::leases::register_lease_spec;
use crate::market::{buy_share_spec, holdings_overflow, holdings_sum, share_total, sold_property};
use crate::records::{PropertyId, PropertyView};
use crate::registry::register_property_spec;
use crate::search::{first_index, lemma_first_index_found, lemma_first_index_range};

verus! {

proof fn lemma_holdings_sum_update(h: Seq<(Seq<u8>, u128)>, i: int, e: (Seq<u8>, u128))
    requires
        0 <= i < h.len(),
    ensures
        holdings_sum(h.update(i, e)) == holdings_sum(h) - h[i].1 + e.1,
    decreases h.len(),
{
    if i == h.len() - 1 {
        assert(h.update(i, e).drop_last() =~= h.drop_last());
    } else {
        assert(h.update(i, e).drop_last() =~= h.drop_last().update(i, e));
        lemma_holdings_sum_update(h.drop_last(), i, e);
    }
}

proof fn lemma_holdings_sum_push(h: Seq<(Seq<u8>, u128)>, e: (Seq<u8>, u128))
    ensures
        holdings_sum(h.push(e)) == holdings_sum(h) + e.1,
{
    assert(h.push(e).drop_last() =~= h);
}

/// Selling shares of a property moves them from those for sale to the buyer:
/// shares for sale plus shares held stays the same.
pub proof fn purchase_conserves_shares(p: PropertyView, who: Seq<u8>, n: u128)
    requires
        n <= p.financial_details.available_shares,
        !holdings_overflow(p.investors, who, n),
    ensures
        share_total(sold_property(p, who, n)) == share_total(p),
{
    let h = p.investors;
    let i = first_index(h, holding_key(who));
    lemma_first_index_range(h, holding_key(who));
    if i < h.len() {
        lemma_holdings_sum_update(h, i, (who, (h[i].1 + n) as u128));
    } else {
        lemma_holdings_sum_push(h, (who, n));
    }
}

/// A purchase, refused or not, leaves every property's total of shares for sale
/// plus shares held as it was.
pub proof fn buy_share_conserves_shares(s: StateView, who: Seq<u8>, pid: PropertyId, n: u128)
    ensures
        buy_share_spec(s, who, pid, n).1.properties.len() == s.properties.len(),
        forall|i: int| 0 <= i < s.properties.len()
            ==> share_total(#[trigger] buy_share_spec(s, who, pid, n).1.properties[i]) == share_total(s.properties[i]),
{
    let r = buy_share_spec(s, who, pid, n);
    if r.0 is Ok {
        let pi = first_index(s.properties, property_key(pid));
        lemma_first_index_range(s.properties, property_key(pid));
        purchase_conserves_shares(s.properties[pi], who, n);
    }
}

/// A new listing issues exactly its shares for sale, held by nobody, and leaves the
/// other properties as they were.
pub proof fn listing_issues_its_shares(
    s: StateView,
    owner: Seq<u8>,
    title: Seq<char>,
    street: Seq<char>,
    city: Seq<char>,
    state_name: Seq<char>,
    zip_code: u64,
    category: Seq<char>,
    total_value: u128,
    available_shares: u128,
    price_per_share: u128,
    description: Seq<char>,
    amenity_names: Seq<String>,
    images: Seq<String>,
    monthly_rent: u128,
)
    ensures
        ({
            let (r, s2) = register_property_spec(
                s, owner, title, street, city, state_name, zip_code, category, total_value,
                available_shares, price_per_share, description, amenity_names, images, monthly_rent,
            );
            &&& s2.properties.subrange(0, s.properties.len() as int) == s.properties
            &&& r is Ok ==> share_total(s2.properties.last()) == available_shares
        }),
{
    let (r, s2) = register_property_spec(
        s, owner, title, street, city, state_name, zip_code, category, total_value,
        available_shares, price_per_share, description, amenity_names, images, monthly_rent,
    );
    assert(s2.properties.subrange(0, s.properties.len() as int) =~= s.properties);
}

/// Registering users, reading a user record and registering leases do not touch
/// the properties.
pub proof fn other_operations_keep_properties(
    s: StateView,
    who: Seq<u8>,
    property_id: PropertyId,
    tenant_name: Seq<char>,
    tenant_email: Seq<char>,
    tenant_phone: Seq<char>,
    lease_start_date: Seq<char>,
    lease_end_date: Seq<char>,
    monthly_rent: u128,
    security_deposit: u128,
    lease_terms: Seq<char>,
    special_conditions: Seq<char>,
)
    ensures
        register_user_spec(s, who).1.properties == s.properties,
        get_user_data_spec(s, who).1.properties == s.properties,
        register_lease_spec(
            s, who, property_id, tenant_name, tenant_email, tenant_phone, lease_start_date,
            lease_end_date, monthly_rent, security_deposit, lease_terms, special_conditions,
        ).1.properties == s.properties,
{
}

/// Registering the same identity a second time is refused and changes nothing.
pub proof fn registering_twice_is_refused(s: StateView, who: Seq<u8>)
    requires
        register_user_spec(s, who).0 is Ok,
    ensures
        ({
            let s1 = register_user_spec(s, who).1;
            register_user_spec(s1, who) == (Err::<(), BackendError>(BackendError::AlreadyRegistered), s1)
        }),
{
    let s1 = register_user_spec(s, who).1;
    lemma_first_index_found(s1.users, user_key(who), s.users.len() as int);
    assert(user_index(s1, who) < s1.users.len());
}

/// Property ids and lease ids run 1, 2, 3, ... in creation order.
pub open spec fn ids_dense(s: StateView) -> bool {
    &&& forall|i: int| 0 <= i < s.properties.len() ==> #[trigger] s.properties[i].id == i + 1
    &&& forall|i: int| 0 <= i < s.leases.len() ==> #[trigger] s.leases[i].lease_id == i + 1
}

/// The empty state has dense ids.
pub proof fn empty_state_ids_dense()
    ensures
        ids_dense(empty_state()),
{
}

/// Listing a property takes the next id and keeps the ids dense.
pub proof fn listing_keeps_ids_dense(
    s: StateView,
    owner: Seq<u8>,
    title: Seq<char>,
    street: Seq<char>,
    city: Seq<char>,
    state_name: Seq<char>,
    zip_code: u64,
    category: Seq<char>,
    total_value: u128,
    available_shares: u128,
    price_per_share: u128,
    description: Seq<char>,
    amenity_names: Seq<String>,
    images: Seq<String>,
    monthly_rent: u128,
)
    requires
        ids_dense(s),
        s.properties.len() < u128::MAX,
    ensures
        ({
            let (r, s2) = register_property_spec(
                s, owner, title, street, city, state_name, zip_code, category, total_value,
                available_shares, price_per_share, description, amenity_names, images, monthly_rent,
            );
            &&& ids_dense(s2)
            &&& r is Ok ==> r->Ok_0 == s.properties.len() + 1
        }),
{
}

/// Registering a lease takes the next lease id and keeps the ids dense.
pub proof fn lease_keeps_ids_dense(
    s: StateView,
    tenant: Seq<u8>,
    property_id: PropertyId,
    tenant_name: Seq<char>,
    tenant_email: Seq<char>,
    tenant_phone: Seq<char>,
    lease_start_date: Seq<char>,
    lease_end_date: Seq<char>,
    monthly_rent: u128,
    security_deposit: u128,
    lease_terms: Seq<char>,
    special_conditions: Seq<char>,
)
    requires
        ids_dense(s),
        s.leases.len() < u128::MAX,
    ensures
        ({
            let (r, s2) = register_lease_spec(
                s, tenant, property_id, tenant_name, tenant_email, tenant_phone, lease_start_date,
                lease_end_date, monthly_rent, security_deposit, lease_terms, special_conditions,
            );
            &&& ids_dense(s2)
            &&& r is Ok ==> r->Ok_0 == s.leases.len() + 1
        }),
{
}

/// Purchases and user records leave the ids as they are.
pub proof fn purchase_keeps_ids_dense(s: StateView, who: Seq<u8>, pid: PropertyId, n: u128)
    requires
        ids_dense(s),
    ensures
        ids_dense(buy_share_spec(s, who, pid, n).1),
        ids_dense(register_user_spec(s, who).1),
        ids_dense(get_user_data_spec(s, who).1),
{
}

/// A lease on a property id that no property has is refused and changes nothing.
pub proof fn lease_on_missing_property_is_refused(
    s: StateView,
    tenant: Seq<u8>,
    property_id: PropertyId,
    tenant_name: Seq<char>,
    tenant_email: Seq<char>,
    tenant_phone: Seq<char>,
    lease_start_date: Seq<char>,
    lease_end_date: Seq<char>,
    monthly_rent: u128,
    security_deposit: u128,
    lease_terms: Seq<char>,
    special_conditions: Seq<char>,
)
    requires
        forall|i: int| 0 <= i < s.properties.len() ==> #[trigger] s.properties[i].id != property_id,
    ensures
        register_lease_spec(
            s, tenant, property_id, tenant_name, tenant_email, tenant_phone, lease_start_date,
            lease_end_date, monthly_rent, security_deposit, lease_terms, special_conditions,
        ) == (Err::<PropertyId, BackendError>(BackendError::PropertyNotFound), s),
{
    let f = property_key(property_id);
    lemma_first_index_range(s.properties, f);
    if first_index(s.properties, f) < s.properties.len() {
        assert(f(s.properties[first_index(s.properties, f)]));
    }
}

} // verus!
