use vstd::prelude::*;
use crate::identity::{Identity, anonymous_bytes};

verus! {

pub type PropertyId = u128;

pub type LeaseId = u128;

pub type Timestamp = u64;

/// Copies a vector of plain values element by element.
pub fn copy_vec<T: Copy>(v: &Vec<T>) -> (r: Vec<T>)
    ensures
        r@ == v@,
{
    let mut r: Vec<T> = Vec::new();
    let mut i: usize = 0;
    while i < v.len()
        invariant
            i <= v@.len(),
            r@ == v@.subrange(0, i as int),
        decreases v@.len() - i,
    {
        r.push(v[i]);
        i = i + 1;
        assert(r@ =~= v@.subrange(0, i as int));
    }
    assert(r@ =~= v@);
    r
}

/// Copies a vector of strings.
pub fn copy_strings(v: &Vec<String>) -> (r: Vec<String>)
    ensures
        r@ == v@,
{
    let mut r: Vec<String> = Vec::new();
    let mut i: usize = 0;
    while i < v.len()
        invariant
            i <= v@.len(),
            r@ == v@.subrange(0, i as int),
        decreases v@.len() - i,
    {
        r.push(v[i].clone());
        i = i + 1;
        assert(r@ =~= v@.subrange(0, i as int));
    }
    assert(r@ =~= v@);
    r
}

/// The spec form of a list of (investor, shares) holdings.
pub open spec fn holdings_view(s: Seq<(Identity, u128)>) -> Seq<(Seq<u8>, u128)> {
    s.map_values(|e: (Identity, u128)| (e.0@, e.1))
}

/// Copies a list of (investor, shares) holdings.
pub fn copy_holdings(v: &Vec<(Identity, u128)>) -> (r: Vec<(Identity, u128)>)
    ensures
        holdings_view(r@) == holdings_view(v@),
{
    let mut r: Vec<(Identity, u128)> = Vec::new();
    let mut i: usize = 0;
    while i < v.len()
        invariant
            i <= v@.len(),
            r@.len() == i,
            forall|k: int| 0 <= k < i ==> r@[k].0@ == v@[k].0@ && r@[k].1 == v@[k].1,
        decreases v@.len() - i,
    {
        let who = v[i].0.duplicate();
        r.push((who, v[i].1));
        i = i + 1;
    }
    assert(holdings_view(r@) =~= holdings_view(v@));
    r
}

// ==================== Users ====================

/// The shares that one user holds in one property.
#[derive(Clone, Copy, Debug, PartialEq, Eq, Structural)]
pub struct UserInvestment {
    pub property_id: PropertyId,
    pub shares_owned: u128,
}

/// The aggregate record kept for each user.
#[derive(Clone, Debug, PartialEq, Eq)]
pub struct UserData {
    pub total_investment: u128,
    pub current_value: u128,
    pub monthly_income: u128,
    pub total_return: u128,
    pub user_registered_properties: Vec<PropertyId>,
    pub user_invested_properties: Vec<UserInvestment>,
}

pub struct UserDataView {
    pub total_investment: u128,
    pub current_value: u128,
    pub monthly_income: u128,
    pub total_return: u128,
    pub user_registered_properties: Seq<PropertyId>,
    pub user_invested_properties: Seq<UserInvestment>,
}

impl View for UserData {
    type V = UserDataView;

    open spec fn view(&self) -> UserDataView {
        UserDataView {
            total_investment: self.total_investment,
            current_value: self.current_value,
            monthly_income: self.monthly_income,
            total_return: self.total_return,
            user_registered_properties: self.user_registered_properties@,
            user_invested_properties: self.user_invested_properties@,
        }
    }
}

/// The record of a user with nothing invested or registered.
pub open spec fn empty_user() -> UserDataView {
    UserDataView {
        total_investment: 0,
        current_value: 0,
        monthly_income: 0,
        total_return: 0,
        user_registered_properties: Seq::empty(),
        user_invested_properties: Seq::empty(),
    }
}

impl UserData {
    pub fn empty() -> (r: UserData)
        ensures
            r@ == empty_user(),
    {
        let r = UserData {
            total_investment: 0,
            current_value: 0,
            monthly_income: 0,
            total_return: 0,
            user_registered_properties: Vec::new(),
            user_invested_properties: Vec::new(),
        };
        assert(r@.user_registered_properties =~= Seq::<PropertyId>::empty());
        assert(r@.user_invested_properties =~= Seq::<UserInvestment>::empty());
        r
    }

    pub fn duplicate(&self) -> (r: UserData)
        ensures
            r@ == self@,
    {
        UserData {
            total_investment: self.total_investment,
            current_value: self.current_value,
            monthly_income: self.monthly_income,
            total_return: self.total_return,
            user_registered_properties: copy_vec(&self.user_registered_properties),
            user_invested_properties: copy_vec(&self.user_invested_properties),
        }
    }
}

// ==================== Properties ====================

#[derive(Clone, Debug, PartialEq, Eq)]
pub struct PropertyAddress {
    pub street: String,
    pub city: String,
    pub state: String,
    pub zipcode: u64,
}

pub struct AddressView {
    pub street: Seq<char>,
    pub city: Seq<char>,
    pub state: Seq<char>,
    pub zipcode: u64,
}

impl View for PropertyAddress {
    type V = AddressView;

    open spec fn view(&self) -> AddressView {
        AddressView {
            street: self.street@,
            city: self.city@,
            state: self.state@,
            zipcode: self.zipcode,
        }
    }
}

impl PropertyAddress {
    pub fn duplicate(&self) -> (r: PropertyAddress)
        ensures
            r@ == self@,
    {
        PropertyAddress {
            street: self.street.clone(),
            city: self.city.clone(),
            state: self.state.clone(),
            zipcode: self.zipcode,
        }
    }
}

impl Default for PropertyAddress {
    fn default() -> (r: PropertyAddress)
        ensures
            r@.street.len() == 0,
            r@.city.len() == 0,
            r@.state.len() == 0,
            r@.zipcode == 0,
    {
        PropertyAddress { street: String::new(), city: String::new(), state: String::new(), zipcode: 0 }
    }
}

#[derive(Clone, Copy, Debug, PartialEq, Eq, Structural)]
pub struct PropertyFinancialDetails {
    pub total_property_value: u128,
    pub available_shares: u128,
    pub price_per_share: u128,
}

impl Default for PropertyFinancialDetails {
    fn default() -> (r: PropertyFinancialDetails)
        ensures
            r == (PropertyFinancialDetails { total_property_value: 0, available_shares: 0, price_per_share: 0 }),
    {
        PropertyFinancialDetails { total_property_value: 0, available_shares: 0, price_per_share: 0 }
    }
}

#[derive(Clone, Copy, Debug, PartialEq, Eq, Hash, Structural)]
pub enum PropertyType {
    Residential,
    Industrial,
    Commercial,
    MixedUse,
}

impl Default for PropertyType {
    fn default() -> (r: PropertyType)
        ensures
            r == PropertyType::Residential,
    {
        PropertyType::Residential
    }
}

#[derive(Clone, Copy, Debug, PartialEq, Eq, Hash, Structural)]
pub enum Amenity {
    Parking,
    Pool,
    Gym,
    Security,
    Garden,
    Balcony,
    AirConditioning,
    Heating,
    Elevator,
    Storage,
}

impl Default for Amenity {
    fn default() -> (r: Amenity)
        ensures
            r == Amenity::Parking,
    {
        Amenity::Parking
    }
}

/// A listed property. `investors` holds at most one entry per investor.
#[derive(Clone, Debug, PartialEq, Eq)]
pub struct Property {
    pub id: PropertyId,
    pub title: String,
    pub property_type: PropertyType,
    pub address: PropertyAddress,
    pub financial_details: PropertyFinancialDetails,
    pub property_description: String,
    pub amenities: Vec<Amenity>,
    pub images: Vec<String>,
    pub monthly_rent: u128,
    pub collected_rent: u128,
    pub investors: Vec<(Identity, u128)>,
    pub owner: Identity,
}

pub struct PropertyView {
    pub id: PropertyId,
    pub title: Seq<char>,
    pub property_type: PropertyType,
    pub address: AddressView,
    pub financial_details: PropertyFinancialDetails,
    pub property_description: Seq<char>,
    pub amenities: Seq<Amenity>,
    pub images: Seq<String>,
    pub monthly_rent: u128,
    pub collected_rent: u128,
    pub investors: Seq<(Seq<u8>, u128)>,
    pub owner: Seq<u8>,
}

impl View for Property {
    type V = PropertyView;

    open spec fn view(&self) -> PropertyView {
        PropertyView {
            id: self.id,
            title: self.title@,
            property_type: self.property_type,
            address: self.address@,
            financial_details: self.financial_details,
            property_description: self.property_description@,
            amenities: self.amenities@,
            images: self.images@,
            monthly_rent: self.monthly_rent,
            collected_rent: self.collected_rent,
            investors: holdings_view(self.investors@),
            owner: self.owner@,
        }
    }
}

impl Property {
    pub fn duplicate(&self) -> (r: Property)
        ensures
            r@ == self@,
    {
        Property {
            id: self.id,
            title: self.title.clone(),
            property_type: self.property_type,
            address: self.address.duplicate(),
            financial_details: self.financial_details,
            property_description: self.property_description.clone(),
            amenities: copy_vec(&self.amenities),
            images: copy_strings(&self.images),
            monthly_rent: self.monthly_rent,
            collected_rent: self.collected_rent,
            investors: copy_holdings(&self.investors),
            owner: self.owner.duplicate(),
        }
    }
}

impl Default for Property {
    fn default() -> (r: Property)
        ensures
            r@.id == 0,
            r@.title.len() == 0,
            r@.property_type == PropertyType::Residential,
            r@.address.street.len() == 0,
            r@.address.city.len() == 0,
            r@.address.state.len() == 0,
            r@.address.zipcode == 0,
            r@.financial_details == (PropertyFinancialDetails { total_property_value: 0, available_shares: 0, price_per_share: 0 }),
            r@.property_description.len() == 0,
            r@.amenities.len() == 0,
            r@.images.len() == 0,
            r@.monthly_rent == 0,
            r@.collected_rent == 0,
            r@.investors.len() == 0,
            r@.owner == anonymous_bytes(),
    {
        Property {
            id: 0,
            title: String::new(),
            property_type: PropertyType::default(),
            address: PropertyAddress::default(),
            financial_details: PropertyFinancialDetails::default(),
            property_description: String::new(),
            amenities: Vec::new(),
            images: Vec::new(),
            monthly_rent: 0,
            collected_rent: 0,
            investors: Vec::new(),
            owner: Identity::anonymous(),
        }
    }
}

// ==================== Leases ====================

#[derive(Clone, Copy, Debug, PartialEq, Eq, Structural)]
pub enum LeaseStatus {
    Active,
    Terminated,
    Pending,
}

impl Default for LeaseStatus {
    fn default() -> (r: LeaseStatus)
        ensures
            r == LeaseStatus::Pending,
    {
        LeaseStatus::Pending
    }
}

#[derive(Clone, Debug, PartialEq, Eq)]
pub struct Lease {
    pub lease_id: LeaseId,
    pub property_id: PropertyId,
    pub tenant_name: String,
    pub tenant: Identity,
    pub tenant_email: String,
    pub tenant_phone: String,
    pub lease_start_date: String,
    pub lease_end_date: String,
    pub monthly_rent: u128,
    pub security_deposit: u128,
    pub lease_terms: String,
    pub special_conditions: String,
    pub status: LeaseStatus,
}

pub struct LeaseView {
    pub lease_id: LeaseId,
    pub property_id: PropertyId,
    pub tenant_name: Seq<char>,
    pub tenant: Seq<u8>,
    pub tenant_email: Seq<char>,
    pub tenant_phone: Seq<char>,
    pub lease_start_date: Seq<char>,
    pub lease_end_date: Seq<char>,
    pub monthly_rent: u128,
    pub security_deposit: u128,
    pub lease_terms: Seq<char>,
    pub special_conditions: Seq<char>,
    pub status: LeaseStatus,
}

impl View for Lease {
    type V = LeaseView;

    open spec fn view(&self) -> LeaseView {
        LeaseView {
            lease_id: self.lease_id,
            property_id: self.property_id,
            tenant_name: self.tenant_name@,
            tenant: self.tenant@,
            tenant_email: self.tenant_email@,
            tenant_phone: self.tenant_phone@,
            lease_start_date: self.lease_start_date@,
            lease_end_date: self.lease_end_date@,
            monthly_rent: self.monthly_rent,
            security_deposit: self.security_deposit,
            lease_terms: self.lease_terms@,
            special_conditions: self.special_conditions@,
            status: self.status,
        }
    }
}

impl Lease {
    pub fn duplicate(&self) -> (r: Lease)
        ensures
            r@ == self@,
    {
        Lease {
            lease_id: self.lease_id,
            property_id: self.property_id,
            tenant_name: self.tenant_name.clone(),
            tenant: self.tenant.duplicate(),
            tenant_email: self.tenant_email.clone(),
            tenant_phone: self.tenant_phone.clone(),
            lease_start_date: self.lease_start_date.clone(),
            lease_end_date: self.lease_end_date.clone(),
            monthly_rent: self.monthly_rent,
            security_deposit: self.security_deposit,
            lease_terms: self.lease_terms.clone(),
            special_conditions: self.special_conditions.clone(),
            status: self.status,
        }
    }
}

/// A property paired with the shares that one user holds in it.
#[derive(Clone, Debug, PartialEq, Eq)]
pub struct UserInvestedProperty {
    pub property: Property,
    pub shares_owned: u128,
}

impl View for UserInvestedProperty {
    type V = (PropertyView, u128);

    open spec fn view(&self) -> (PropertyView, u128) {
        (self.property@, self.shares_owned)
    }
}

} // verus!
