use vstd::prelude::*;
use crate::identity::Identity;
use crate::ledger::{
    holding_key, investment_key, property_index, property_key, put_user, user_index, user_key,
    user_or_empty, BackendError, StateView, StorageState,
};
use crate::records::{
    holdings_view, PropertyFinancialDetails, UserInvestedProperty, PropertyId, PropertyView, UserData, UserDataView,
    UserInvestment,
};
use crate::search::{first_index, lemma_first_index_at, lemma_first_index_none, lemma_first_index_range};

verus! {

/// The shares held by all investors in a list of holdings.
pub open spec fn holdings_sum(h: Seq<(Seq<u8>, u128)>) -> int
    decreases h.len(),
{
    if h.len() == 0 {
        0
    } else {
        holdings_sum(h.drop_last()) + h.last().1
    }
}

/// The shares of a property that exist: those still for sale plus those held.
pub open spec fn share_total(p: PropertyView) -> int {
    p.financial_details.available_shares + holdings_sum(p.investors)
}

/// Holdings after `who` is credited `n` shares: its entry grows, or a new one is appended.
pub open spec fn credit_holdings(h: Seq<(Seq<u8>, u128)>, who: Seq<u8>, n: u128) -> Seq<(Seq<u8>, u128)> {
    let i = first_index(h, holding_key(who));
    if i < h.len() {
        h.update(i, (who, (h[i].1 + n) as u128))
    } else {
        h.push((who, n))
    }
}

/// Crediting `who` with `n` shares would take its entry past 128 bits.
pub open spec fn holdings_overflow(h: Seq<(Seq<u8>, u128)>, who: Seq<u8>, n: u128) -> bool {
    let i = first_index(h, holding_key(who));
    i < h.len() && h[i].1 + n > u128::MAX
}

/// Investments after `n` more shares of property `pid`: its aggregate grows, or a new one is appended.
pub open spec fn credit_investments(v: Seq<UserInvestment>, pid: PropertyId, n: u128) -> Seq<UserInvestment> {
    let i = first_index(v, investment_key(pid));
    if i < v.len() {
        v.update(i, UserInvestment { property_id: pid, shares_owned: (v[i].shares_owned + n) as u128 })
    } else {
        v.push(UserInvestment { property_id: pid, shares_owned: n })
    }
}

/// Adding `n` shares to the aggregate of property `pid` would take it past 128 bits.
pub open spec fn investments_overflow(v: Seq<UserInvestment>, pid: PropertyId, n: u128) -> bool {
    let i = first_index(v, investment_key(pid));
    i < v.len() && v[i].shares_owned + n > u128::MAX
}

/// The property after `who` buys `n` of its shares.
pub open spec fn sold_property(p: PropertyView, who: Seq<u8>, n: u128) -> PropertyView {
    PropertyView {
        financial_details: PropertyFinancialDetails {
            available_shares: (p.financial_details.available_shares - n) as u128,
            ..p.financial_details
        },
        investors: credit_holdings(p.investors, who, n),
        ..p
    }
}

/// The buyer's record after buying `n` shares of property `pid` for `cost`.
pub open spec fn buyer_record(u: UserDataView, pid: PropertyId, n: u128, cost: int) -> UserDataView {
    UserDataView {
        total_investment: (u.total_investment + cost) as u128,
        current_value: (u.current_value + cost) as u128,
        user_invested_properties: credit_investments(u.user_invested_properties, pid, n),
        ..u
    }
}

/// What a purchase of `n` shares of property `pid` by `who` gives (the total cost
/// on success), and the state after it.
pub open spec fn buy_share_spec(s: StateView, who: Seq<u8>, pid: PropertyId, n: u128) -> (Result<u128, BackendError>, StateView) {
    let pi = property_index(s, pid);
    if n == 0 {
        (Err(BackendError::ZeroQuantity), s)
    } else if pi >= s.properties.len() {
        (Err(BackendError::PropertyNotFound), s)
    } else {
        let p = s.properties[pi];
        let available = p.financial_details.available_shares;
        let cost = n * p.financial_details.price_per_share;
        let u = user_or_empty(s, who);
        if available < n {
            (Err(BackendError::InsufficientShares { available }), s)
        } else if cost > u128::MAX || holdings_overflow(p.investors, who, n)
            || u.total_investment + cost > u128::MAX || u.current_value + cost > u128::MAX
            || investments_overflow(u.user_invested_properties, pid, n) {
            (Err(BackendError::ArithmeticOverflow), s)
        } else {
            (
                Ok(cost as u128),
                StateView {
                    users: put_user(s, who, buyer_record(u, pid, n, cost)),
                    properties: s.properties.update(pi, sold_property(p, who, n)),
                    leases: s.leases,
                },
            )
        }
    }
}

fn find_holding(h: &Vec<(Identity, u128)>, who: &Identity) -> (r: usize)
    ensures
        r == first_index(holdings_view(h@), holding_key(who@)),
{
    let ghost hv = holdings_view(h@);
    let mut i: usize = 0;
    while i < h.len()
        invariant
            hv == holdings_view(h@),
            i <= hv.len(),
            forall|j: int| 0 <= j < i ==> !holding_key(who@)(hv[j]),
        decreases h@.len() - i,
    {
        if h[i].0.same(who) {
            proof {
                lemma_first_index_at(hv, holding_key(who@), i as int);
            }
            return i;
        }
        i = i + 1;
    }
    proof {
        lemma_first_index_none(hv, holding_key(who@));
    }
    i
}

fn find_investment(v: &Vec<UserInvestment>, pid: PropertyId) -> (r: usize)
    ensures
        r == first_index(v@, investment_key(pid)),
{
    let mut i: usize = 0;
    while i < v.len()
        invariant
            i <= v@.len(),
            forall|j: int| 0 <= j < i ==> !investment_key(pid)(v@[j]),
        decreases v@.len() - i,
    {
        if v[i].property_id == pid {
            proof {
                lemma_first_index_at(v@, investment_key(pid), i as int);
            }
            return i;
        }
        i = i + 1;
    }
    proof {
        lemma_first_index_none(v@, investment_key(pid));
    }
    i
}

fn credit_holding(h: &mut Vec<(Identity, u128)>, who: &Identity, n: u128)
    requires
        !holdings_overflow(holdings_view(old(h)@), who@, n),
    ensures
        holdings_view(final(h)@) == credit_holdings(holdings_view(old(h)@), who@, n),
{
    let ghost hv = holdings_view(h@);
    let i = find_holding(h, who);
    proof {
        lemma_first_index_range(hv, holding_key(who@));
    }
    if i < h.len() {
        let e = &mut h[i];
        e.1 = e.1 + n;
        assert(holdings_view(h@) =~= hv.update(i as int, (who@, (hv[i as int].1 + n) as u128)));
    } else {
        h.push((who.duplicate(), n));
        assert(holdings_view(h@) =~= hv.push((who@, n)));
    }
}

fn credit_investment(v: &mut Vec<UserInvestment>, pid: PropertyId, n: u128)
    requires
        !investments_overflow(old(v)@, pid, n),
    ensures
        final(v)@ == credit_investments(old(v)@, pid, n),
{
    let i = find_investment(v, pid);
    proof {
        lemma_first_index_range(v@, investment_key(pid));
    }
    if i < v.len() {
        let e = &mut v[i];
        e.shares_owned = e.shares_owned + n;
    } else {
        v.push(UserInvestment { property_id: pid, shares_owned: n });
    }
}

/// Buys `shares_to_buy` shares of property `property_id` for the caller and
/// returns their total cost.
pub fn buy_share(state: &mut StorageState, caller: &Identity, property_id: PropertyId, shares_to_buy: u128) -> (r: Result<u128, BackendError>)
    ensures
        (r, final(state)@) == buy_share_spec(old(state)@, caller@, property_id, shares_to_buy),
{
    let ghost s0 = state@;
    if shares_to_buy == 0 {
        return Err(BackendError::ZeroQuantity);
    }
    let pi = state.find_property(property_id);
    proof {
        lemma_first_index_range(s0.properties, property_key(property_id));
    }
    if pi >= state.all_properties.len() {
        return Err(BackendError::PropertyNotFound);
    }
    let available = state.all_properties[pi].financial_details.available_shares;
    if available < shares_to_buy {
        return Err(BackendError::InsufficientShares { available });
    }
    let price = state.all_properties[pi].financial_details.price_per_share;
    let cost = match shares_to_buy.checked_mul(price) {
        Some(c) => c,
        None => return Err(BackendError::ArithmeticOverflow),
    };
    let hi = find_holding(&state.all_properties[pi].investors, caller);
    if hi < state.all_properties[pi].investors.len()
        && state.all_properties[pi].investors[hi].1 > u128::MAX - shares_to_buy {
        return Err(BackendError::ArithmeticOverflow);
    }
    let ui = state.find_user(caller);
    proof {
        lemma_first_index_range(s0.users, user_key(caller@));
    }
    if ui < state.all_users.len() {
        let u = &state.all_users[ui].1;
        if u.total_investment > u128::MAX - cost || u.current_value > u128::MAX - cost {
            return Err(BackendError::ArithmeticOverflow);
        }
        let ii = find_investment(&u.user_invested_properties, property_id);
        if ii < u.user_invested_properties.len()
            && u.user_invested_properties[ii].shares_owned > u128::MAX - shares_to_buy {
            return Err(BackendError::ArithmeticOverflow);
        }
    }
    let ghost p0 = s0.properties[pi as int];
    let ghost u0 = user_or_empty(s0, caller@);
    {
        let p = &mut state.all_properties[pi];
        p.financial_details.available_shares = available - shares_to_buy;
        credit_holding(&mut p.investors, caller, shares_to_buy);
    }
    assert(state@.properties =~= s0.properties.update(pi as int, sold_property(p0, caller@, shares_to_buy)));
    if ui < state.all_users.len() {
        let e = &mut state.all_users[ui];
        e.1.total_investment = e.1.total_investment + cost;
        e.1.current_value = e.1.current_value + cost;
        credit_investment(&mut e.1.user_invested_properties, property_id, shares_to_buy);
    } else {
        let mut u = UserData::empty();
        u.total_investment = cost;
        u.current_value = cost;
        credit_investment(&mut u.user_invested_properties, property_id, shares_to_buy);
        state.all_users.push((caller.duplicate(), u));
    }
    assert(state@.users =~= put_user(s0, caller@, buyer_record(u0, property_id, shares_to_buy, cost as int)));
    Ok(cost)
}

/// Each of `invs` paired with the first property of its id, in their order;
/// one whose property is missing is skipped.
pub open spec fn invested_properties_of(props: Seq<PropertyView>, invs: Seq<UserInvestment>) -> Seq<(PropertyView, u128)>
    decreases invs.len(),
{
    if invs.len() == 0 {
        Seq::empty()
    } else {
        let rest = invested_properties_of(props, invs.drop_last());
        let i = first_index(props, property_key(invs.last().property_id));
        if i < props.len() {
            rest.push((props[i], invs.last().shares_owned))
        } else {
            rest
        }
    }
}

/// The properties that `who` holds shares in, with the shares held; none for an
/// identity without a record.
pub open spec fn invested_properties_spec(s: StateView, who: Seq<u8>) -> Seq<(PropertyView, u128)> {
    let i = user_index(s, who);
    if i < s.users.len() {
        invested_properties_of(s.properties, s.users[i].1.user_invested_properties)
    } else {
        Seq::empty()
    }
}

/// The properties that the caller holds shares in, with the shares held, in the
/// order of the caller's investments.
pub fn get_user_invested_properties(state: &StorageState, caller: &Identity) -> (r: Vec<UserInvestedProperty>)
    ensures
        r@.map_values(|e: UserInvestedProperty| e@) == invested_properties_spec(state@, caller@),
{
    let ui = state.find_user(caller);
    proof {
        lemma_first_index_range(state@.users, user_key(caller@));
    }
    let mut r: Vec<UserInvestedProperty> = Vec::new();
    if ui >= state.all_users.len() {
        assert(r@.map_values(|e: UserInvestedProperty| e@) =~= Seq::<(PropertyView, u128)>::empty());
        return r;
    }
    let invs = &state.all_users[ui].1.user_invested_properties;
    let ghost props = state@.properties;
    let mut i: usize = 0;
    while i < invs.len()
        invariant
            props == state@.properties,
            invs@ == state@.users[ui as int].1.user_invested_properties,
            i <= invs@.len(),
            r@.map_values(|e: UserInvestedProperty| e@) == invested_properties_of(props, invs@.subrange(0, i as int)),
        decreases invs@.len() - i,
    {
        proof {
            assert(invs@.subrange(0, i + 1).drop_last() =~= invs@.subrange(0, i as int));
        }
        let inv = invs[i];
        let pi = state.find_property(inv.property_id);
        proof {
            lemma_first_index_range(props, property_key(inv.property_id));
        }
        if pi < state.all_properties.len() {
            let ghost before = r@;
            r.push(UserInvestedProperty { property: state.all_properties[pi].duplicate(), shares_owned: inv.shares_owned });
            assert(r@.map_values(|e: UserInvestedProperty| e@) =~= before.map_values(|e: UserInvestedProperty| e@).push((props[pi as int], inv.shares_owned)));
        }
        i = i + 1;
    }
    assert(invs@.subrange(0, invs@.len() as int) =~= invs@);
    r
}

} // verus!
