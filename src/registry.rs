use vstd::prelude::*;
use crate::catalog::{amenities_of, parse_amenities, parse_property_type, property_type_of};
use crate::identity::Identity;
use crate::ledger::{
    properties_view, put_user, user_index, user_key, user_or_empty, BackendError, StateView,
    StorageState,
};
use crate::records::{
    AddressView, Property, PropertyAddress, PropertyFinancialDetails, PropertyId, PropertyView,
    UserData, UserDataView,
};
use crate::search::lemma_first_index_range;

verus! {

/// The owner's record after listing property `id` with monthly rent `rent`.
pub open spec fn owner_record(u: UserDataView, id: PropertyId, rent: u128) -> UserDataView {
    UserDataView {
        monthly_income: (u.monthly_income + rent) as u128,
        user_registered_properties: u.user_registered_properties.push(id),
        ..u
    }
}

/// What listing a property gives (its id on success), and the state after it.
/// The new property takes the next id, holds no investors and no collected rent,
/// and keeps the recognised amenities only.
pub open spec fn register_property_spec(
    s: StateView,
    owner: Seq<u8>,
    title: Seq<char>,
    street: Seq<char>,
    city: Seq<char>,
    state_name: Seq<char>,
    zip_code: u64,
    category: Seq<char>,
    total_value: u128,
    available_shares: u128,
    price_per_share: u128,
    description: Seq<char>,
    amenity_names: Seq<String>,
    images: Seq<String>,
    monthly_rent: u128,
) -> (Result<PropertyId, BackendError>, StateView) {
    let u = user_or_empty(s, owner);
    let id = (s.properties.len() + 1) as u128;
    match property_type_of(category) {
        None => (Err(BackendError::InvalidPropertyType), s),
        Some(t) => if u.monthly_income + monthly_rent > u128::MAX {
            (Err(BackendError::ArithmeticOverflow), s)
        } else {
            let p = PropertyView {
                id,
                title,
                property_type: t,
                address: AddressView { street, city, state: state_name, zipcode: zip_code },
                financial_details: PropertyFinancialDetails {
                    total_property_value: total_value,
                    available_shares,
                    price_per_share,
                },
                property_description: description,
                amenities: amenities_of(amenity_names),
                images,
                monthly_rent,
                collected_rent: 0,
                investors: Seq::empty(),
                owner,
            };
            (
                Ok(id),
                StateView {
                    users: put_user(s, owner, owner_record(u, id, monthly_rent)),
                    properties: s.properties.push(p),
                    leases: s.leases,
                },
            )
        },
    }
}

/// Lists a new property owned by the caller and returns its id.
pub fn register_property(
    state: &mut StorageState,
    caller: &Identity,
    title: String,
    street: String,
    city: String,
    state_name: String,
    zip_code: u64,
    property_type: String,
    total_value: u128,
    available_shares: u128,
    price_per_share: u128,
    description: String,
    amenities: Vec<String>,
    images: Vec<String>,
    monthly_rent: u128,
) -> (r: Result<PropertyId, BackendError>)
    ensures
        (r, final(state)@) == register_property_spec(
            old(state)@, caller@, title@, street@, city@, state_name@, zip_code, property_type@,
            total_value, available_shares, price_per_share, description@, amenities@, images@,
            monthly_rent,
        ),
{
    let ghost s0 = state@;
    let kind = match parse_property_type(&property_type) {
        Some(t) => t,
        None => return Err(BackendError::InvalidPropertyType),
    };
    let ui = state.find_user(caller);
    proof {
        lemma_first_index_range(s0.users, user_key(caller@));
    }
    if ui < state.all_users.len() && state.all_users[ui].1.monthly_income > u128::MAX - monthly_rent {
        return Err(BackendError::ArithmeticOverflow);
    }
    let kept = parse_amenities(&amenities);
    let id = state.all_properties.len() as u128 + 1;
    let property = Property {
        id,
        title,
        property_type: kind,
        address: PropertyAddress { street, city, state: state_name, zipcode: zip_code },
        financial_details: PropertyFinancialDetails {
            total_property_value: total_value,
            available_shares,
            price_per_share,
        },
        property_description: description,
        amenities: kept,
        images,
        monthly_rent,
        collected_rent: 0,
        investors: Vec::new(),
        owner: caller.duplicate(),
    };
    assert(property@.investors =~= Seq::<(Seq<u8>, u128)>::empty());
    state.all_properties.push(property);
    let ghost u0 = user_or_empty(s0, caller@);
    if ui < state.all_users.len() {
        let e = &mut state.all_users[ui];
        e.1.monthly_income = e.1.monthly_income + monthly_rent;
        e.1.user_registered_properties.push(id);
    } else {
        let mut u = UserData::empty();
        u.monthly_income = monthly_rent;
        u.user_registered_properties.push(id);
        state.all_users.push((caller.duplicate(), u));
    }
    assert(state@.users =~= put_user(s0, caller@, owner_record(u0, id, monthly_rent)));
    assert(state@.properties =~= register_property_spec(
        s0, caller@, title@, street@, city@, state_name@, zip_code, property_type@, total_value,
        available_shares, price_per_share, description@, amenities@, images@, monthly_rent,
    ).1.properties);
    Ok(id)
}

/// Copies a list of properties.
pub fn copy_properties(v: &Vec<Property>) -> (r: Vec<Property>)
    ensures
        properties_view(r@) == properties_view(v@),
{
    let mut r: Vec<Property> = Vec::new();
    let mut i: usize = 0;
    while i < v.len()
        invariant
            i <= v@.len(),
            r@.len() == i,
            forall|k: int| 0 <= k < i ==> r@[k]@ == v@[k]@,
        decreases v@.len() - i,
    {
        r.push(v[i].duplicate());
        i = i + 1;
    }
    assert(properties_view(r@) =~= properties_view(v@));
    r
}

/// Every listed property, in id order.
pub fn get_all_properties(state: &StorageState) -> (r: Vec<Property>)
    ensures
        properties_view(r@) == state@.properties,
{
    copy_properties(&state.all_properties)
}

/// The properties whose id is among `ids`, in their order.
pub open spec fn properties_with_ids(props: Seq<PropertyView>, ids: Seq<PropertyId>) -> Seq<PropertyView>
    decreases props.len(),
{
    if props.len() == 0 {
        Seq::empty()
    } else {
        let rest = properties_with_ids(props.drop_last(), ids);
        if ids.contains(props.last().id) {
            rest.push(props.last())
        } else {
            rest
        }
    }
}

/// The properties that `who` listed; none for an identity without a record.
pub open spec fn registered_properties_spec(s: StateView, who: Seq<u8>) -> Seq<PropertyView> {
    let i = user_index(s, who);
    if i < s.users.len() {
        properties_with_ids(s.properties, s.users[i].1.user_registered_properties)
    } else {
        Seq::empty()
    }
}

fn contains_id(ids: &Vec<PropertyId>, id: PropertyId) -> (r: bool)
    ensures
        r == ids@.contains(id),
{
    let mut i: usize = 0;
    while i < ids.len()
        invariant
            i <= ids@.len(),
            forall|j: int| 0 <= j < i ==> ids@[j] != id,
        decreases ids@.len() - i,
    {
        if ids[i] == id {
            return true;
        }
        i = i + 1;
    }
    false
}

/// The properties that the caller listed, in id order.
pub fn get_user_registered_properties(state: &StorageState, caller: &Identity) -> (r: Vec<Property>)
    ensures
        properties_view(r@) == registered_properties_spec(state@, caller@),
{
    let ui = state.find_user(caller);
    proof {
        lemma_first_index_range(state@.users, user_key(caller@));
    }
    let mut r: Vec<Property> = Vec::new();
    if ui >= state.all_users.len() {
        assert(properties_view(r@) =~= Seq::<PropertyView>::empty());
        return r;
    }
    let ids = &state.all_users[ui].1.user_registered_properties;
    let ghost props = state@.properties;
    let mut i: usize = 0;
    while i < state.all_properties.len()
        invariant
            props == state@.properties,
            props.len() == state.all_properties@.len(),
            i <= props.len(),
            ids@ == state@.users[ui as int].1.user_registered_properties,
            properties_view(r@) == properties_with_ids(props.subrange(0, i as int), ids@),
        decreases props.len() - i,
    {
        proof {
            assert(props.subrange(0, i + 1).drop_last() =~= props.subrange(0, i as int));
        }
        if contains_id(ids, state.all_properties[i].id) {
            let ghost before = r@;
            r.push(state.all_properties[i].duplicate());
            assert(properties_view(r@) =~= properties_view(before).push(props[i as int]));
        }
        i = i + 1;
    }
    assert(props.subrange(0, props.len() as int) =~= props);
    r
}

} // verus!
