//! The accounts and their registry.
//!
//! The registry maps each account id to its account. A new account gets the
//! smallest id that no account holds, so the id of a deleted account is used
//! again.

use std::collections::HashMap;
use vstd::prelude::*;
use vstd::std_specs::hash::spec_keys_iter;
use vstd::std_specs::iter::IteratorSpec;

verus! {

broadcast use vstd::std_specs::hash::group_hash_axioms;

/// The name of the file that holds the accounts between two runs.
pub const ACCOUNTS_FILE: &'static str = "accounts.json";

/// The status that is reported for an account whose backend gives none.
pub const UNKNOWN_STATUS: &'static str = "offline";

/// One account on a backend.
#[derive(Debug, PartialEq, Eq)]
pub struct Account {
    pub id: u32,
    pub protocol: String,
    pub user: String,
    pub password: String,
}

/// The mathematical content of an [`Account`].
pub ghost struct AccountView {
    pub id: u32,
    pub protocol: Seq<char>,
    pub user: Seq<char>,
    pub password: Seq<char>,
}

impl View for Account {
    type V = AccountView;

    open spec fn view(&self) -> AccountView {
        AccountView {
            id: self.id,
            protocol: self.protocol@,
            user: self.user@,
            password: self.password@,
        }
    }
}

impl Clone for Account {
    fn clone(&self) -> (copy: Self)
        ensures
            copy@ == self@,
    {
        Account {
            id: self.id,
            protocol: self.protocol.clone(),
            user: self.user.clone(),
            password: self.password.clone(),
        }
    }
}

impl Account {
    /// An account with the given id and credentials.
    pub fn new(id: u32, protocol: String, user: String, password: String) -> (account: Self)
        ensures
            account@ == (AccountView {
                id,
                protocol: protocol@,
                user: user@,
                password: password@,
            }),
    {
        Account { id: id, protocol: protocol, user: user, password: password }
    }

    /// The status of the account as far as the registry knows it: no backend
    /// has reported one, so it is the fixed status for that case.
    pub fn get_status(&self) -> (status: String)
        ensures
            status@ == UNKNOWN_STATUS@,
    {
        String::from_str(UNKNOWN_STATUS)
    }
}

/// The contents of a vector of accounts.
pub open spec fn account_views(v: Seq<Account>) -> Seq<AccountView> {
    Seq::new(v.len(), |i: int| v[i]@)
}

/// Every account in `m` is found under its own id.
pub open spec fn keyed_by_id(m: Map<u32, AccountView>) -> bool {
    forall|id: u32| m.contains_key(id) ==> (#[trigger] m[id]).id == id
}

/// `id` is the smallest id that is not in `used`. Where every id below the
/// largest is in use, it is the largest id, in use or not.
pub open spec fn is_smallest_free(used: Set<u32>, id: u32) -> bool {
    &&& forall|lower: u32| lower < id ==> used.contains(lower)
    &&& id < u32::MAX ==> !used.contains(id)
}

/// `s` lists the accounts of `m`: each of them once, in the order of their
/// ids.
pub open spec fn is_listing(m: Map<u32, AccountView>, s: Seq<AccountView>) -> bool {
    &&& forall|i: int, j: int| 0 <= i < j < s.len() ==> s[i].id < s[j].id
    &&& forall|i: int| 0 <= i < s.len() ==> m.contains_key(s[i].id) && m[s[i].id] == s[i]
    &&& forall|id: u32| m.contains_key(id) ==> exists|i: int| 0 <= i < s.len() && s[i].id == id
}

/// The registry `m` after each account of `s` was put under its id, in the
/// order of `s`: a later account replaces an earlier one with the same id.
pub open spec fn with_all(m: Map<u32, AccountView>, s: Seq<AccountView>) -> Map<u32, AccountView>
    decreases s.len(),
{
    if s.len() == 0 {
        m
    } else {
        with_all(m, s.drop_last()).insert(s.last().id, s.last())
    }
}

/// There is exactly one smallest free id.
pub proof fn lemma_smallest_free_unique(used: Set<u32>, a: u32, b: u32)
    requires
        is_smallest_free(used, a),
        is_smallest_free(used, b),
    ensures
        a == b,
{
}

/// A registry has exactly one listing.
pub proof fn lemma_listing_unique(m: Map<u32, AccountView>, a: Seq<AccountView>, b: Seq<AccountView>)
    requires
        is_listing(m, a),
        is_listing(m, b),
    ensures
        a == b,
    decreases a.len(),
{
    if a.len() == 0 {
        if b.len() > 0 {
            assert(m.contains_key(b[0].id));
        }
        assert(a =~= b);
    } else {
        // The last account of each listing has the largest id of the registry.
        let last = a.last();
        assert(m.contains_key(last.id));
        let k = choose|k: int| 0 <= k < b.len() && b[k].id == last.id;
        if k < b.len() - 1 {
            assert(m.contains_key(b.last().id));
            let i = choose|i: int| 0 <= i < a.len() && a[i].id == b.last().id;
            assert(a[i].id <= last.id);
        }
        assert(b.last() == last);
        let rest = m.remove(last.id);
        assert(is_listing(rest, a.drop_last())) by {
            assert forall|id: u32| rest.contains_key(id) implies exists|i: int|
                0 <= i < a.drop_last().len() && a.drop_last()[i].id == id by {
                let i = choose|i: int| 0 <= i < a.len() && a[i].id == id;
                assert(a.drop_last()[i].id == id);
            }
        }
        assert(is_listing(rest, b.drop_last())) by {
            assert forall|id: u32| rest.contains_key(id) implies exists|i: int|
                0 <= i < b.drop_last().len() && b.drop_last()[i].id == id by {
                let i = choose|i: int| 0 <= i < b.len() && b[i].id == id;
                assert(b.drop_last()[i].id == id);
            }
        }
        lemma_listing_unique(rest, a.drop_last(), b.drop_last());
        assert(a =~= a.drop_last().push(last));
        assert(b =~= b.drop_last().push(last));
    }
}

/// Putting the listing of a registry into an empty registry gives the
/// registry back.
pub proof fn lemma_restore(m: Map<u32, AccountView>, s: Seq<AccountView>)
    requires
        is_listing(m, s),
    ensures
        with_all(Map::empty(), s) == m,
    decreases s.len(),
{
    if s.len() == 0 {
        assert(m =~= Map::empty());
    } else {
        let last = s.last();
        let rest = m.remove(last.id);
        assert(is_listing(rest, s.drop_last())) by {
            assert forall|id: u32| rest.contains_key(id) implies exists|i: int|
                0 <= i < s.drop_last().len() && s.drop_last()[i].id == id by {
                let i = choose|i: int| 0 <= i < s.len() && s[i].id == id;
                assert(s.drop_last()[i].id == id);
            }
        }
        lemma_restore(rest, s.drop_last());
        assert(m.contains_key(last.id));
        assert(rest.insert(last.id, last) =~= m);
    }
}

/// A registry that was put together from the listing of another lists the
/// same accounts in the same order.
pub proof fn lemma_restored_listing(
    m: Map<u32, AccountView>,
    saved: Seq<AccountView>,
    restored: Seq<AccountView>,
)
    requires
        is_listing(m, saved),
        is_listing(with_all(Map::empty(), saved), restored),
    ensures
        restored == saved,
{
    lemma_restore(m, saved);
    lemma_listing_unique(m, saved, restored);
}

/// The registry of accounts.
pub struct Accounts {
    accounts: HashMap<u32, Account>,
}

impl View for Accounts {
    type V = Map<u32, AccountView>;

    closed spec fn view(&self) -> Map<u32, AccountView> {
        Map::new(
            |id: u32| self.accounts@.contains_key(id),
            |id: u32|
                AccountView {
                    id,
                    protocol: self.accounts@[id].protocol@,
                    user: self.accounts@[id].user@,
                    password: self.accounts@[id].password@,
                },
        )
    }
}

impl Accounts {
    /// In every registry each account is found under its own id, and the
    /// accounts are finitely many.
    pub proof fn lemma_keyed_by_id(&self)
        ensures
            keyed_by_id(self@),
            self@.dom().finite(),
    {
        assert(self@.dom() =~= self.accounts@.dom());
    }

    /// The empty registry.
    pub fn new() -> (accounts: Self)
        ensures
            accounts@ == Map::<u32, AccountView>::empty(),
    {
        let accounts = Accounts { accounts: HashMap::new() };
        assert(accounts@ =~= Map::<u32, AccountView>::empty());
        accounts
    }

    /// The id that the next new account gets: the smallest that is free.
    pub fn get_free_account_id(&self) -> (id: u32)
        ensures
            is_smallest_free(self@.dom(), id),
    {
        let mut id: u32 = 0;
        while id < u32::MAX && self.accounts.contains_key(&id)
            invariant
                forall|lower: u32| lower < id ==> self@.dom().contains(lower),
            decreases u32::MAX - id,
        {
            id += 1;
        }
        id
    }

    /// Registers a new account under the smallest free id and returns the id.
    pub fn add(&mut self, protocol: String, user: String, password: String) -> (id: u32)
        ensures
            is_smallest_free(old(self)@.dom(), id),
            final(self)@ == old(self)@.insert(
                id,
                AccountView { id, protocol: protocol@, user: user@, password: password@ },
            ),
    {
        let id = self.get_free_account_id();
        let account = Account::new(id, protocol, user, password);
        let ghost before = self@;
        self.accounts.insert(id, account);
        assert(self@ =~= before.insert(
            id,
            AccountView { id, protocol: protocol@, user: user@, password: password@ },
        ));
        id
    }

    /// Removes the account with the given id, if there is one.
    pub fn remove(&mut self, id: &u32)
        ensures
            final(self)@ == old(self)@.remove(*id),
    {
        let ghost before = self@;
        self.accounts.remove(id);
        assert(self@ =~= before.remove(*id));
    }

    /// The accounts in the order of their ids.
    pub fn list(&self) -> (accounts: Vec<Account>)
        ensures
            is_listing(self@, account_views(accounts@)),
    {
        let mut ids: Vec<u32> = Vec::new();
        let ghost all = spec_keys_iter(&self.accounts).remaining().unref();
        for id in it: self.accounts.keys()
            invariant
                it.seq().unref() == all,
                all.to_set() == self.accounts@.dom(),
                it.seq().no_duplicates(),
                strictly_increasing(ids@),
                ids@.to_set() == it.seq().unref().take(it.index()).to_set(),
        {
            proof {
                let seen = it.seq().unref().take(it.index());
                let grown = it.seq().unref().take(it.index() + 1);
                assert(grown =~= seen.push(*id));
                seen.lemma_push_to_set_commute(*id);
                if seen.contains(*id) {
                    let k = choose|k: int| 0 <= k < seen.len() && seen[k] == *id;
                    assert(it.seq()[k] == it.seq()[it.index()]);
                }
                assert(seen.to_set().contains(*id) == seen.contains(*id));
                assert(ids@.to_set().contains(*id) == ids@.contains(*id));
            }
            insert_sorted(&mut ids, *id);
        }
        assert(ids@.to_set() == self.accounts@.dom()) by {
            assert(all.take(all.len() as int) =~= all);
        }
        let mut accounts: Vec<Account> = Vec::new();
        let mut i: usize = 0;
        while i < ids.len()
            invariant
                i <= ids.len(),
                accounts.len() == i,
                ids@.to_set() == self.accounts@.dom(),
                forall|k: int| 0 <= k < i ==> (#[trigger] accounts@[k])@ == self@[ids@[k]],
            decreases ids.len() - i,
        {
            assert(ids@.to_set().contains(ids@[i as int]));
            let found = self.accounts.get(&ids[i]);
            match found {
                Some(account) => accounts.push(
                    Account::new(
                        ids[i],
                        account.protocol.clone(),
                        account.user.clone(),
                        account.password.clone(),
                    ),
                ),
                None => {
                    // every id in `ids` is the id of an account
                    assert(false);
                },
            }
            i += 1;
        }
        proof {
            let s = account_views(accounts@);
            assert forall|id: u32| self@.contains_key(id) implies exists|k: int|
                0 <= k < s.len() && s[k].id == id by {
                assert(ids@.to_set().contains(id));
                let k = choose|k: int| 0 <= k < ids@.len() && ids@[k] == id;
                assert(s[k].id == id);
            }
            assert forall|k: int| 0 <= k < s.len() implies self@.contains_key(s[k].id)
                && self@[s[k].id] == s[k] by {
                assert(ids@.to_set().contains(ids@[k]));
            }
        }
        accounts
    }

    /// Puts each of the given accounts under its id, in their order: an
    /// account that has the id of another replaces it.
    pub fn load(&mut self, accounts: Vec<Account>)
        ensures
            final(self)@ == with_all(old(self)@, account_views(accounts@)),
    {
        let ghost all = account_views(accounts@);
        let ghost before = self@;
        let mut i: usize = 0;
        assert(all.take(0) =~= Seq::<AccountView>::empty());
        while i < accounts.len()
            invariant
                i <= accounts.len(),
                all == account_views(accounts@),
                self@ == with_all(before, all.take(i as int)),
            decreases accounts.len() - i,
        {
            let account = accounts[i].clone();
            let ghost stored = self@;
            self.accounts.insert(account.id, account);
            proof {
                assert(self@ =~= stored.insert(all[i as int].id, all[i as int]));
                assert(all.take(i + 1).drop_last() =~= all.take(i as int));
            }
            i += 1;
        }
        assert(all.take(accounts.len() as int) =~= all);
    }
}

/// The ids in `s` grow from each to the next.
pub open spec fn strictly_increasing(s: Seq<u32>) -> bool {
    forall|i: int, j: int| 0 <= i < j < s.len() ==> s[i] < s[j]
}

/// Puts `id` at its place in a vector of growing ids that does not hold it.
fn insert_sorted(ids: &mut Vec<u32>, id: u32)
    requires
        strictly_increasing(old(ids)@),
        !old(ids)@.contains(id),
    ensures
        strictly_increasing(final(ids)@),
        final(ids)@.to_set() == old(ids)@.to_set().insert(id),
{
    let mut at: usize = 0;
    while at < ids.len() && ids[at] < id
        invariant
            at <= ids.len(),
            forall|k: int| 0 <= k < at ==> ids@[k] < id,
        decreases ids.len() - at,
    {
        at += 1;
    }
    let ghost before = ids@;
    assert(forall|k: int| at <= k < before.len() ==> before[k] > id) by {
        assert forall|k: int| at <= k < before.len() implies before[k] > id by {
            assert(before[at as int] <= before[k]);
            assert(before.contains(before[at as int]));
        }
    }
    ids.insert(at, id);
    assert(ids@.to_set() =~= before.to_set().insert(id)) by {
        assert forall|x: u32| ids@.to_set().contains(x) <==> before.to_set().insert(id).contains(
            x,
        ) by {
            if ids@.contains(x) {
                let k = choose|k: int| 0 <= k < ids@.len() && ids@[k] == x;
                if k < at {
                    assert(before[k] == x);
                } else if k > at {
                    assert(before[k - 1] == x);
                }
            }
            if before.contains(x) {
                let k = choose|k: int| 0 <= k < before.len() && before[k] == x;
                if k < at {
                    assert(ids@[k] == x);
                } else {
                    assert(ids@[k + 1] == x);
                }
            }
            if x == id {
                assert(ids@[at as int] == x);
            }
        }
    }
}

} // verus!
