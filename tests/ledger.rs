use project_backend::{
    buy_share, get_all_leases, get_all_properties, get_my_leases, get_user_data,
    get_user_invested_properties, get_user_registered_properties, parse_amenities,
    parse_property_type, register_lease, register_property, register_user, Amenity,
    BackendError, Identity, LeaseStatus, PropertyType, StorageState,
};

fn user(tag: u8) -> Identity {
    Identity::new(vec![tag, 1, 2])
}

fn names(items: &[&str]) -> Vec<String> {
    items.iter().map(|s| s.to_string()).collect()
}

fn list(state: &mut StorageState, owner: &Identity, shares: u128, price: u128, rent: u128) -> Result<u128, BackendError> {
    register_property(
        state,
        owner,
        "Harbour Flat".to_string(),
        "1 Quay St".to_string(),
        "Porto".to_string(),
        "Norte".to_string(),
        4000,
        "Residential".to_string(),
        shares * price,
        shares,
        price,
        "Two bedrooms".to_string(),
        names(&["Pool", "Sauna", "Gym"]),
        names(&["a.png"]),
        rent,
    )
}

fn lease(state: &mut StorageState, tenant: &Identity, property_id: u128) -> Result<u128, BackendError> {
    register_lease(
        state,
        tenant,
        property_id,
        "Ana".to_string(),
        "ana@example.org".to_string(),
        "555-0101".to_string(),
        "2024-01-01".to_string(),
        "2024-12-31".to_string(),
        900,
        1800,
        "Twelve months".to_string(),
        "No pets".to_string(),
    )
}

fn investor_shares(state: &StorageState, index: usize, who: &Identity) -> u128 {
    state.all_properties[index]
        .investors
        .iter()
        .filter(|(i, _)| i == who)
        .map(|(_, n)| *n)
        .sum()
}

fn total_of(state: &StorageState, index: usize) -> u128 {
    let p = &state.all_properties[index];
    p.financial_details.available_shares + p.investors.iter().map(|(_, n)| *n).sum::<u128>()
}

#[test]
fn scenario_purchase_updates_property_and_buyer() {
    let mut state = StorageState::new();
    let owner = user(10);
    let buyer = user(20);
    assert_eq!(list(&mut state, &owner, 1000, 10, 0), Ok(1));
    assert_eq!(buy_share(&mut state, &buyer, 1, 100), Ok(1000));
    assert_eq!(state.all_properties[0].financial_details.available_shares, 900);
    assert_eq!(investor_shares(&state, 0, &buyer), 100);
    let data = get_user_data(&mut state, &buyer);
    assert_eq!(data.total_investment, 1000);
    assert_eq!(data.current_value, 1000);
    assert_eq!(data.user_invested_properties.len(), 1);
    assert_eq!(data.user_invested_properties[0].property_id, 1);
    assert_eq!(data.user_invested_properties[0].shares_owned, 100);
}

#[test]
fn scenario_insufficient_shares_reports_remaining() {
    let mut state = StorageState::new();
    let owner = user(10);
    let buyer = user(20);
    list(&mut state, &owner, 1000, 10, 0).unwrap();
    buy_share(&mut state, &buyer, 1, 100).unwrap();
    let before = state.clone();
    assert_eq!(
        buy_share(&mut state, &buyer, 1, 901),
        Err(BackendError::InsufficientShares { available: 900 })
    );
    assert_eq!(state.all_properties, before.all_properties);
    assert_eq!(state.all_users, before.all_users);
}

#[test]
fn scenario_zero_quantity_is_refused() {
    let mut state = StorageState::new();
    let owner = user(10);
    list(&mut state, &owner, 1000, 10, 0).unwrap();
    let before = state.clone();
    assert_eq!(buy_share(&mut state, &owner, 1, 0), Err(BackendError::ZeroQuantity));
    assert_eq!(state.all_properties, before.all_properties);
    assert_eq!(state.all_users, before.all_users);
}

#[test]
fn scenario_repeat_purchases_share_one_aggregate() {
    let mut state = StorageState::new();
    let owner = user(10);
    let buyer = user(20);
    list(&mut state, &owner, 1000, 10, 0).unwrap();
    assert_eq!(buy_share(&mut state, &buyer, 1, 50), Ok(500));
    assert_eq!(buy_share(&mut state, &buyer, 1, 50), Ok(500));
    let data = get_user_data(&mut state, &buyer);
    assert_eq!(data.user_invested_properties.len(), 1);
    assert_eq!(data.user_invested_properties[0].shares_owned, 100);
    assert_eq!(data.total_investment, 1000);
    assert_eq!(state.all_properties[0].investors.len(), 1);
    assert_eq!(investor_shares(&state, 0, &buyer), 100);
}

#[test]
fn shares_are_conserved_across_purchases() {
    let mut state = StorageState::new();
    let owner = user(10);
    list(&mut state, &owner, 500, 3, 0).unwrap();
    list(&mut state, &owner, 70, 1, 0).unwrap();
    assert_eq!(total_of(&state, 0), 500);
    buy_share(&mut state, &user(1), 1, 120).unwrap();
    buy_share(&mut state, &user(2), 1, 30).unwrap();
    buy_share(&mut state, &user(1), 1, 5).unwrap();
    buy_share(&mut state, &user(3), 2, 70).unwrap();
    assert_eq!(buy_share(&mut state, &user(3), 2, 1), Err(BackendError::InsufficientShares { available: 0 }));
    assert_eq!(state.all_properties[0].financial_details.available_shares, 345);
    assert_eq!(total_of(&state, 0), 500);
    assert_eq!(total_of(&state, 1), 70);
}

#[test]
fn registering_twice_is_refused() {
    let mut state = StorageState::new();
    let u = user(7);
    assert_eq!(register_user(&mut state, &u), Ok(()));
    let after_first = state.clone();
    assert_eq!(register_user(&mut state, &u), Err(BackendError::AlreadyRegistered));
    assert_eq!(state.all_users, after_first.all_users);
    let data = &state.all_users[0].1;
    assert_eq!(data.total_investment, 0);
    assert_eq!(data.current_value, 0);
    assert_eq!(data.monthly_income, 0);
    assert!(data.user_registered_properties.is_empty());
}

#[test]
fn anonymous_caller_cannot_register() {
    let mut state = StorageState::new();
    assert_eq!(register_user(&mut state, &Identity::anonymous()), Err(BackendError::InvalidCaller));
    assert!(state.all_users.is_empty());
    assert_eq!(Identity::anonymous().bytes, vec![4u8]);
}

#[test]
fn property_and_lease_ids_are_dense() {
    let mut state = StorageState::new();
    let owner = user(10);
    assert_eq!(list(&mut state, &owner, 10, 1, 0), Ok(1));
    assert_eq!(list(&mut state, &owner, 10, 1, 0), Ok(2));
    assert_eq!(list(&mut state, &owner, 10, 1, 0), Ok(3));
    assert_eq!(lease(&mut state, &user(1), 2), Ok(1));
    assert_eq!(lease(&mut state, &user(2), 3), Ok(2));
    let ids: Vec<u128> = get_all_properties(&state).iter().map(|p| p.id).collect();
    assert_eq!(ids, vec![1, 2, 3]);
    let lease_ids: Vec<u128> = get_all_leases(&state).iter().map(|l| l.lease_id).collect();
    assert_eq!(lease_ids, vec![1, 2]);
}

#[test]
fn lease_on_missing_property_is_refused() {
    let mut state = StorageState::new();
    let owner = user(10);
    list(&mut state, &owner, 10, 1, 0).unwrap();
    assert_eq!(lease(&mut state, &user(1), 2), Err(BackendError::PropertyNotFound));
    assert_eq!(lease(&mut state, &user(1), 0), Err(BackendError::PropertyNotFound));
    assert!(get_all_leases(&state).is_empty());
}

#[test]
fn lease_records_caller_as_active_tenant() {
    let mut state = StorageState::new();
    let owner = user(10);
    let tenant = user(11);
    list(&mut state, &owner, 10, 1, 0).unwrap();
    lease(&mut state, &tenant, 1).unwrap();
    lease(&mut state, &user(12), 1).unwrap();
    lease(&mut state, &tenant, 1).unwrap();
    let mine = get_my_leases(&state, &tenant);
    assert_eq!(mine.len(), 2);
    assert_eq!(mine[0].lease_id, 1);
    assert_eq!(mine[1].lease_id, 3);
    assert_eq!(mine[0].tenant, tenant);
    assert_eq!(mine[0].status, LeaseStatus::Active);
    assert_eq!(mine[0].tenant_name, "Ana");
    assert_eq!(mine[0].security_deposit, 1800);
    assert!(get_my_leases(&state, &user(13)).is_empty());
}

#[test]
fn purchase_of_missing_property_is_refused() {
    let mut state = StorageState::new();
    assert_eq!(buy_share(&mut state, &user(1), 1, 5), Err(BackendError::PropertyNotFound));
    assert!(state.all_users.is_empty());
}

#[test]
fn purchase_cost_overflow_is_refused() {
    let mut state = StorageState::new();
    let owner = user(10);
    list(&mut state, &owner, 4, u128::MAX / 2, 0).unwrap();
    let before = state.clone();
    assert_eq!(buy_share(&mut state, &user(1), 1, 3), Err(BackendError::ArithmeticOverflow));
    assert_eq!(state.all_properties, before.all_properties);
    assert_eq!(state.all_users, before.all_users);
    assert_eq!(buy_share(&mut state, &user(1), 1, 2), Ok(u128::MAX - 1));
}

#[test]
fn listing_with_unknown_category_is_refused() {
    let mut state = StorageState::new();
    let r = register_property(
        &mut state,
        &user(1),
        "Shed".to_string(),
        "".to_string(),
        "".to_string(),
        "".to_string(),
        0,
        "Castle".to_string(),
        1,
        1,
        1,
        "".to_string(),
        vec![],
        vec![],
        5,
    );
    assert_eq!(r, Err(BackendError::InvalidPropertyType));
    assert!(state.all_properties.is_empty());
    assert!(state.all_users.is_empty());
}

#[test]
fn listing_records_owner_and_drops_unknown_amenities() {
    let mut state = StorageState::new();
    let owner = user(10);
    list(&mut state, &owner, 100, 2, 300).unwrap();
    list(&mut state, &owner, 100, 2, 200).unwrap();
    let p = &get_all_properties(&state)[0];
    assert_eq!(p.amenities, vec![Amenity::Pool, Amenity::Gym]);
    assert_eq!(p.property_type, PropertyType::Residential);
    assert_eq!(p.owner, owner);
    assert_eq!(p.collected_rent, 0);
    assert!(p.investors.is_empty());
    assert_eq!(p.address.city, "Porto");
    assert_eq!(p.address.zipcode, 4000);
    assert_eq!(p.financial_details.total_property_value, 200);
    let data = get_user_data(&mut state, &owner);
    assert_eq!(data.monthly_income, 500);
    assert_eq!(data.user_registered_properties, vec![1, 2]);
    let mine: Vec<u128> = get_user_registered_properties(&state, &owner).iter().map(|p| p.id).collect();
    assert_eq!(mine, vec![1, 2]);
    assert!(get_user_registered_properties(&state, &user(99)).is_empty());
}

#[test]
fn monthly_income_overflow_is_refused() {
    let mut state = StorageState::new();
    let owner = user(10);
    list(&mut state, &owner, 1, 1, u128::MAX).unwrap();
    assert_eq!(list(&mut state, &owner, 1, 1, 1), Err(BackendError::ArithmeticOverflow));
    assert_eq!(state.all_properties.len(), 1);
}

#[test]
fn reading_user_data_creates_an_empty_record_once() {
    let mut state = StorageState::new();
    let u = user(5);
    assert!(state.user_data(&u).is_none());
    let data = get_user_data(&mut state, &u);
    assert_eq!(data.total_investment, 0);
    assert_eq!(state.all_users.len(), 1);
    get_user_data(&mut state, &u);
    assert_eq!(state.all_users.len(), 1);
    assert!(state.user_data(&u).is_some());
    assert_eq!(register_user(&mut state, &u), Err(BackendError::AlreadyRegistered));
}

#[test]
fn invested_properties_pair_property_and_shares() {
    let mut state = StorageState::new();
    let owner = user(10);
    let buyer = user(20);
    list(&mut state, &owner, 100, 1, 0).unwrap();
    list(&mut state, &owner, 100, 1, 0).unwrap();
    buy_share(&mut state, &buyer, 2, 7).unwrap();
    buy_share(&mut state, &buyer, 1, 3).unwrap();
    buy_share(&mut state, &buyer, 2, 1).unwrap();
    let held = get_user_invested_properties(&state, &buyer);
    assert_eq!(held.len(), 2);
    assert_eq!(held[0].property.id, 2);
    assert_eq!(held[0].shares_owned, 8);
    assert_eq!(held[0].property.financial_details.available_shares, 92);
    assert_eq!(held[1].property.id, 1);
    assert_eq!(held[1].shares_owned, 3);
    assert!(get_user_invested_properties(&state, &owner).is_empty());
}

#[test]
fn category_and_amenity_names_are_read() {
    assert_eq!(parse_property_type(&"MixedUse".to_string()), Some(PropertyType::MixedUse));
    assert_eq!(parse_property_type(&"Industrial".to_string()), Some(PropertyType::Industrial));
    assert_eq!(parse_property_type(&"commercial".to_string()), None);
    assert_eq!(
        parse_amenities(&names(&["Storage", "Lift", "AirConditioning", "Parking"])),
        vec![Amenity::Storage, Amenity::AirConditioning, Amenity::Parking]
    );
    assert!(parse_amenities(&vec![]).is_empty());
}

#[test]
fn identities_compare_by_bytes() {
    assert!(user(1).same(&user(1)));
    assert!(!user(1).same(&user(2)));
    assert!(!Identity::new(vec![1]).same(&Identity::new(vec![1, 0])));
    assert!(Identity::new(vec![4]).is_anonymous());
    assert!(!Identity::new(vec![4, 4]).is_anonymous());
    assert_eq!(user(3).duplicate(), user(3));
}

#[test]
fn defaults_are_empty() {
    let p = project_backend::Property::default();
    assert_eq!(p.id, 0);
    assert!(p.owner.is_anonymous());
    assert_eq!(p.property_type, PropertyType::Residential);
    assert_eq!(LeaseStatus::default(), LeaseStatus::Pending);
    assert_eq!(Amenity::default(), Amenity::Parking);
    assert_eq!(project_backend::PropertyFinancialDetails::default().available_shares, 0);
    assert_eq!(project_backend::PropertyAddress::default().zipcode, 0);
}
