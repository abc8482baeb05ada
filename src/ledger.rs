use vstd::prelude::*;
use crate::identity::{Identity, anonymous_bytes};
use crate::records::{
    empty_user, Lease, LeaseView, Property, PropertyId, PropertyView, UserData, UserDataView,
    UserInvestment,
};
use crate::search::{first_index, lemma_first_index_at, lemma_first_index_none, lemma_first_index_range};

verus! {

/// Why an operation was refused. A refused operation changes nothing.
#[derive(Clone, Copy, Debug, PartialEq, Eq, Structural)]
pub enum BackendError {
    /// The anonymous identity may not register.
    InvalidCaller,
    /// The caller already has a user record.
    AlreadyRegistered,
    /// The category name is not one of the known categories.
    InvalidPropertyType,
    /// No property has the given id.
    PropertyNotFound,
    /// A purchase of zero shares.
    ZeroQuantity,
    /// More shares were asked for than remain; `available` is what remains.
    InsufficientShares { available: u128 },
    /// An amount would not fit in 128 bits.
    ArithmeticOverflow,
}

/// The whole state: users keyed by identity (at most one entry each),
/// properties in id order and leases in id order.
#[derive(Clone, Debug)]
pub struct StorageState {
    pub all_users: Vec<(Identity, UserData)>,
    pub all_properties: Vec<Property>,
    pub all_leases: Vec<Lease>,
}

pub struct StateView {
    pub users: Seq<(Seq<u8>, UserDataView)>,
    pub properties: Seq<PropertyView>,
    pub leases: Seq<LeaseView>,
}

pub open spec fn users_view(s: Seq<(Identity, UserData)>) -> Seq<(Seq<u8>, UserDataView)> {
    s.map_values(|e: (Identity, UserData)| (e.0@, e.1@))
}

pub open spec fn properties_view(s: Seq<Property>) -> Seq<PropertyView> {
    s.map_values(|p: Property| p@)
}

pub open spec fn leases_view(s: Seq<Lease>) -> Seq<LeaseView> {
    s.map_values(|l: Lease| l@)
}

impl View for StorageState {
    type V = StateView;

    open spec fn view(&self) -> StateView {
        StateView {
            users: users_view(self.all_users@),
            properties: properties_view(self.all_properties@),
            leases: leases_view(self.all_leases@),
        }
    }
}

pub open spec fn user_key(id: Seq<u8>) -> spec_fn((Seq<u8>, UserDataView)) -> bool {
    |e: (Seq<u8>, UserDataView)| e.0 == id
}

pub open spec fn property_key(id: PropertyId) -> spec_fn(PropertyView) -> bool {
    |p: PropertyView| p.id == id
}

pub open spec fn holding_key(id: Seq<u8>) -> spec_fn((Seq<u8>, u128)) -> bool {
    |e: (Seq<u8>, u128)| e.0 == id
}

pub open spec fn investment_key(id: PropertyId) -> spec_fn(UserInvestment) -> bool {
    |v: UserInvestment| v.property_id == id
}

/// Position of the user record of `id`, or the number of users if it has none.
pub open spec fn user_index(s: StateView, id: Seq<u8>) -> int {
    first_index(s.users, user_key(id))
}

/// Position of the first property with id `id`, or the number of properties if none has it.
pub open spec fn property_index(s: StateView, id: PropertyId) -> int {
    first_index(s.properties, property_key(id))
}

/// The user record of `id`, or an empty record if it has none.
pub open spec fn user_or_empty(s: StateView, id: Seq<u8>) -> UserDataView {
    let i = user_index(s, id);
    if i < s.users.len() {
        s.users[i].1
    } else {
        empty_user()
    }
}

/// The users after the record of `id` is set to `u`: replaced in place, or appended.
pub open spec fn put_user(s: StateView, id: Seq<u8>, u: UserDataView) -> Seq<(Seq<u8>, UserDataView)> {
    let i = user_index(s, id);
    if i < s.users.len() {
        s.users.update(i, (id, u))
    } else {
        s.users.push((id, u))
    }
}

/// The empty state.
pub open spec fn empty_state() -> StateView {
    StateView { users: Seq::empty(), properties: Seq::empty(), leases: Seq::empty() }
}

impl StorageState {
    pub fn new() -> (r: StorageState)
        ensures
            r@ == empty_state(),
    {
        let r = StorageState { all_users: Vec::new(), all_properties: Vec::new(), all_leases: Vec::new() };
        assert(r@.users =~= Seq::<(Seq<u8>, UserDataView)>::empty());
        assert(r@.properties =~= Seq::<PropertyView>::empty());
        assert(r@.leases =~= Seq::<LeaseView>::empty());
        r
    }

    /// Where the user record of `id` stands.
    pub fn find_user(&self, id: &Identity) -> (r: usize)
        ensures
            r == user_index(self@, id@),
    {
        let mut i: usize = 0;
        while i < self.all_users.len()
            invariant
                i <= self@.users.len(),
                self@.users.len() == self.all_users@.len(),
                forall|j: int| 0 <= j < i ==> !user_key(id@)(self@.users[j]),
            decreases self.all_users@.len() - i,
        {
            if self.all_users[i].0.same(id) {
                proof {
                    lemma_first_index_at(self@.users, user_key(id@), i as int);
                }
                return i;
            }
            i = i + 1;
        }
        proof {
            lemma_first_index_none(self@.users, user_key(id@));
        }
        i
    }

    /// Where the first property with id `id` stands.
    pub fn find_property(&self, id: PropertyId) -> (r: usize)
        ensures
            r == property_index(self@, id),
    {
        let mut i: usize = 0;
        while i < self.all_properties.len()
            invariant
                i <= self@.properties.len(),
                self@.properties.len() == self.all_properties@.len(),
                forall|j: int| 0 <= j < i ==> !property_key(id)(self@.properties[j]),
            decreases self.all_properties@.len() - i,
        {
            if self.all_properties[i].id == id {
                proof {
                    lemma_first_index_at(self@.properties, property_key(id), i as int);
                }
                return i;
            }
            i = i + 1;
        }
        proof {
            lemma_first_index_none(self@.properties, property_key(id));
        }
        i
    }

    /// A copy of the user record of `id`, without creating one.
    pub fn user_data(&self, id: &Identity) -> (r: Option<UserData>)
        ensures
            user_index(self@, id@) < self@.users.len() ==> r is Some && r->Some_0@ == self@.users[user_index(self@, id@)].1,
            user_index(self@, id@) == self@.users.len() ==> r is None,
    {
        let i = self.find_user(id);
        proof {
            lemma_first_index_range(self@.users, user_key(id@));
        }
        if i < self.all_users.len() {
            Some(self.all_users[i].1.duplicate())
        } else {
            None
        }
    }
}

/// What registering `id` as a user gives, and the state after it.
pub open spec fn register_user_spec(s: StateView, id: Seq<u8>) -> (Result<(), BackendError>, StateView) {
    if id == anonymous_bytes() {
        (Err(BackendError::InvalidCaller), s)
    } else if user_index(s, id) < s.users.len() {
        (Err(BackendError::AlreadyRegistered), s)
    } else {
        (Ok(()), StateView { users: s.users.push((id, empty_user())), ..s })
    }
}

/// Registers the caller as a user with an empty record.
pub fn register_user(state: &mut StorageState, caller: &Identity) -> (r: Result<(), BackendError>)
    ensures
        (r, final(state)@) == register_user_spec(old(state)@, caller@),
{
    if caller.is_anonymous() {
        return Err(BackendError::InvalidCaller);
    }
    let i = state.find_user(caller);
    proof {
        lemma_first_index_range(state@.users, user_key(caller@));
    }
    if i < state.all_users.len() {
        return Err(BackendError::AlreadyRegistered);
    }
    let ghost before = state@;
    state.all_users.push((caller.duplicate(), UserData::empty()));
    assert(state@.users =~= before.users.push((caller@, empty_user())));
    Ok(())
}

/// The caller's record and the state after a read that creates an empty record
/// for a caller that has none.
pub open spec fn get_user_data_spec(s: StateView, id: Seq<u8>) -> (UserDataView, StateView) {
    if user_index(s, id) < s.users.len() {
        (s.users[user_index(s, id)].1, s)
    } else {
        (empty_user(), StateView { users: s.users.push((id, empty_user())), ..s })
    }
}

/// The caller's record; a caller without one gets an empty record, which is stored.
pub fn get_user_data(state: &mut StorageState, caller: &Identity) -> (r: UserData)
    ensures
        (r@, final(state)@) == get_user_data_spec(old(state)@, caller@),
{
    let i = state.find_user(caller);
    proof {
        lemma_first_index_range(state@.users, user_key(caller@));
    }
    if i < state.all_users.len() {
        return state.all_users[i].1.duplicate();
    }
    let ghost before = state@;
    state.all_users.push((caller.duplicate(), UserData::empty()));
    assert(state@.users =~= before.users.push((caller@, empty_user())));
    UserData::empty()
}

} // verus!
