//! The account registry: the authoritative list of linked accounts.

use vstd::prelude::*;
use crate::account::{Account, AccountId, AccountView};
use crate::capability::Capability;
use crate::error::{AccountsError, AccountsErrorView};
use crate::outside::uuid_text;
use crate::provider::Provider;

verus! {

/// What a list of account records holds.
pub open spec fn account_views(v: Seq<Account>) -> Seq<AccountView> {
    Seq::new(v.len(), |i: int| v[i]@)
}

/// Whether some account of the list has the identifier.
pub open spec fn has_id(s: Seq<AccountView>, id: AccountId) -> bool {
    exists|i: int| 0 <= i < s.len() && (#[trigger] s[i]).id == id
}

/// Whether some account of the list belongs to the provider under the user
/// name.
pub open spec fn has_identity(s: Seq<AccountView>, provider: Provider, username: Seq<char>) -> bool {
    exists|i: int|
        0 <= i < s.len() && (#[trigger] s[i]).provider == provider && s[i].username == username
}

/// The position of an account with the identifier.
pub open spec fn index_of(s: Seq<AccountView>, id: AccountId) -> int {
    choose|i: int| 0 <= i < s.len() && (#[trigger] s[i]).id == id
}

/// The account with the identifier, if the list has one.
pub open spec fn find(s: Seq<AccountView>, id: AccountId) -> Option<AccountView> {
    if has_id(s, id) {
        Some(s[index_of(s, id)])
    } else {
        None
    }
}

/// The registry's invariant: no two accounts share an identifier, and no two
/// accounts share a provider and user name.
pub open spec fn registry_valid(s: Seq<AccountView>) -> bool {
    &&& forall|i: int, j: int| 0 <= i < j < s.len() ==> (#[trigger] s[i]).id != (#[trigger] s[j]).id
    &&& forall|i: int, j: int|
        0 <= i < j < s.len() ==> !((#[trigger] s[i]).provider == (#[trigger] s[j]).provider
            && s[i].username == s[j].username)
}

/// Whether the list takes in the account: neither its identifier nor its
/// provider and user name are in the list yet.
pub open spec fn accepts(s: Seq<AccountView>, a: AccountView) -> bool {
    !has_id(s, a.id) && !has_identity(s, a.provider, a.username)
}

/// The list after an attempt to add the account.
pub open spec fn after_add(s: Seq<AccountView>, a: AccountView) -> Seq<AccountView> {
    if accepts(s, a) {
        s.push(a)
    } else {
        s
    }
}

/// The list after an attempt to remove the account with the identifier.
pub open spec fn after_remove(s: Seq<AccountView>, id: AccountId) -> Seq<AccountView> {
    if has_id(s, id) {
        s.remove(index_of(s, id))
    } else {
        s
    }
}

/// The account record with its enabled flag set.
pub open spec fn with_enabled(a: AccountView, enabled: bool) -> AccountView {
    AccountView { enabled, ..a }
}

/// The account record with one capability switch set.
pub open spec fn with_capability(a: AccountView, c: Capability, enabled: bool) -> AccountView {
    AccountView { capabilities: a.capabilities.with_slot(c, enabled), ..a }
}

/// The list after an attempt to set the enabled flag of the account with the
/// identifier.
pub open spec fn after_enable(s: Seq<AccountView>, id: AccountId, enabled: bool) -> Seq<AccountView> {
    if has_id(s, id) {
        s.update(index_of(s, id), with_enabled(s[index_of(s, id)], enabled))
    } else {
        s
    }
}

/// The list after an attempt to set one capability switch of the account with
/// the identifier.
pub open spec fn after_switch(s: Seq<AccountView>, id: AccountId, c: Capability, enabled: bool) -> Seq<
    AccountView,
> {
    if has_id(s, id) {
        s.update(index_of(s, id), with_capability(s[index_of(s, id)], c, enabled))
    } else {
        s
    }
}

/// Whether an account is enabled and has the capability switched on.
pub open spec fn serves(a: AccountView, c: Capability) -> bool {
    a.enabled && a.capabilities.slot(c) == Some(true)
}

/// Whether the list can store the record: under its identifier if the list has
/// it, as a new account otherwise, and in both cases without giving two
/// accounts the same provider and user name.
pub open spec fn stores(s: Seq<AccountView>, a: AccountView) -> bool {
    forall|j: int|
        0 <= j < s.len() && (#[trigger] s[j]).provider == a.provider && s[j].username == a.username
            ==> s[j].id == a.id
}

/// The list after an attempt to store the record.
pub open spec fn after_save(s: Seq<AccountView>, a: AccountView) -> Seq<AccountView> {
    if !stores(s, a) {
        s
    } else if has_id(s, a.id) {
        s.update(index_of(s, a.id), a)
    } else {
        s.push(a)
    }
}

/// In a valid list the account with an identifier stands at one position only.
pub proof fn lemma_index_unique(s: Seq<AccountView>, i: int)
    requires
        registry_valid(s),
        0 <= i < s.len(),
    ensures
        has_id(s, s[i].id),
        index_of(s, s[i].id) == i,
        find(s, s[i].id) == Some(s[i]),
{
    let id = s[i].id;
    assert(has_id(s, id));
    let p = index_of(s, id);
    assert(0 <= p < s.len() && s[p].id == id);
    if p < i {
        assert(s[p].id != s[i].id);
    } else if i < p {
        assert(s[i].id != s[p].id);
    }
}

/// Adding an account keeps the list valid; afterwards the account is found
/// under its identifier, equal to what was added, and every account that
/// was there before is found as before.
pub proof fn lemma_add_then_get(s: Seq<AccountView>, a: AccountView)
    requires
        registry_valid(s),
        accepts(s, a),
    ensures
        registry_valid(after_add(s, a)),
        find(after_add(s, a), a.id) == Some(a),
        forall|id: AccountId| id != a.id ==> #[trigger] find(after_add(s, a), id) == find(s, id),
{
    let t = s.push(a);
    assert forall|i: int, j: int| 0 <= i < j < t.len() implies (#[trigger] t[i]).id != (
    #[trigger] t[j]).id by {
        if j < s.len() {
            assert(s[i].id != s[j].id);
        } else {
            assert(t[i] == s[i]);
            if s[i].id == a.id {
                assert(has_id(s, a.id));
            }
        }
    }
    assert forall|i: int, j: int| 0 <= i < j < t.len() implies !((#[trigger] t[i]).provider == (
    #[trigger] t[j]).provider && t[i].username == t[j].username) by {
        if j < s.len() {
            assert(!(s[i].provider == s[j].provider && s[i].username == s[j].username));
        } else {
            assert(t[i] == s[i]);
            if s[i].provider == a.provider && s[i].username == a.username {
                assert(has_identity(s, a.provider, a.username));
            }
        }
    }
    assert(t[s.len() as int] == a);
    lemma_index_unique(t, s.len() as int);
    assert forall|id: AccountId| id != a.id implies #[trigger] find(t, id) == find(s, id) by {
        if has_id(t, id) {
            let p = index_of(t, id);
            assert(p < s.len());
            assert(t[p] == s[p]);
            lemma_index_unique(s, p);
        } else if has_id(s, id) {
            let p = index_of(s, id);
            assert(t[p] == s[p]);
            assert(has_id(t, id));
        }
    }
}

/// An account that the list does not accept leaves the list as it was, and
/// the list still holds exactly one account with that provider and user name
/// if that is why it was refused.
pub proof fn lemma_duplicate_identity_refused(s: Seq<AccountView>, a: AccountView)
    requires
        registry_valid(s),
        has_identity(s, a.provider, a.username),
    ensures
        !accepts(s, a),
        after_add(s, a) == s,
        forall|i: int, j: int|
            0 <= i < s.len() && 0 <= j < s.len() && (#[trigger] s[i]).provider == a.provider
                && s[i].username == a.username && (#[trigger] s[j]).provider == a.provider
                && s[j].username == a.username ==> i == j,
{
    assert forall|i: int, j: int|
        0 <= i < s.len() && 0 <= j < s.len() && (#[trigger] s[i]).provider == a.provider
            && s[i].username == a.username && (#[trigger] s[j]).provider == a.provider
            && s[j].username == a.username implies i == j by {
        if i < j {
            assert(!(s[i].provider == s[j].provider && s[i].username == s[j].username));
        } else if j < i {
            assert(!(s[j].provider == s[i].provider && s[j].username == s[i].username));
        }
    }
}

/// Removing an account keeps the list valid; afterwards nothing is found under
/// its identifier, and every other account is found as before.
pub proof fn lemma_remove_then_get(s: Seq<AccountView>, id: AccountId)
    requires
        registry_valid(s),
    ensures
        registry_valid(after_remove(s, id)),
        find(after_remove(s, id), id) is None,
        forall|other: AccountId|
            other != id ==> #[trigger] find(after_remove(s, id), other) == find(s, other),
{
    if has_id(s, id) {
        let k = index_of(s, id);
        let t = s.remove(k);
        assert forall|a: int| 0 <= a < t.len() implies #[trigger] t[a] == s[if a < k {
            a
        } else {
            a + 1
        }] by {}
        assert forall|i: int, j: int| 0 <= i < j < t.len() implies (#[trigger] t[i]).id != (
        #[trigger] t[j]).id by {
            let i2 = if i < k { i } else { i + 1 };
            let j2 = if j < k { j } else { j + 1 };
            assert(t[i] == s[i2] && t[j] == s[j2]);
            assert(s[i2].id != s[j2].id);
        }
        assert forall|i: int, j: int| 0 <= i < j < t.len() implies !((#[trigger] t[i]).provider == (
        #[trigger] t[j]).provider && t[i].username == t[j].username) by {
            let i2 = if i < k { i } else { i + 1 };
            let j2 = if j < k { j } else { j + 1 };
            assert(t[i] == s[i2] && t[j] == s[j2]);
            assert(!(s[i2].provider == s[j2].provider && s[i2].username == s[j2].username));
        }
        if has_id(t, id) {
            let p = index_of(t, id);
            let shifted = if p < k { p } else { p + 1 };
            assert(t[p] == s[shifted]);
            lemma_index_unique(s, shifted);
        }
        assert forall|other: AccountId| other != id implies #[trigger] find(t, other) == find(
            s,
            other,
        ) by {
            if has_id(t, other) {
                let p = index_of(t, other);
                let shifted = if p < k { p } else { p + 1 };
                assert(t[p] == s[shifted]);
                lemma_index_unique(s, shifted);
            } else if has_id(s, other) {
                let p = index_of(s, other);
                assert(p != k);
                let shifted = if p < k { p } else { p - 1 };
                assert(t[shifted] == s[p]);
                assert(has_id(t, other));
            }
        }
    } else {
        assert forall|other: AccountId| other != id implies #[trigger] find(
            after_remove(s, id),
            other,
        ) == find(s, other) by {}
    }
}

/// Replacing the record at one position by a record with the same identifier,
/// provider and user name keeps the list valid, and the new record is found
/// under the identifier.
pub proof fn lemma_replace_keeps_valid(s: Seq<AccountView>, k: int, a: AccountView)
    requires
        registry_valid(s),
        0 <= k < s.len(),
        a.id == s[k].id,
        forall|j: int|
            0 <= j < s.len() && (#[trigger] s[j]).provider == a.provider && s[j].username
                == a.username ==> j == k,
    ensures
        registry_valid(s.update(k, a)),
        find(s.update(k, a), a.id) == Some(a),
{
    let t = s.update(k, a);
    assert forall|i: int, j: int| 0 <= i < j < t.len() implies (#[trigger] t[i]).id != (
    #[trigger] t[j]).id by {
        assert(t[i].id == s[i].id && t[j].id == s[j].id);
    }
    assert forall|i: int, j: int| 0 <= i < j < t.len() implies !((#[trigger] t[i]).provider == (
    #[trigger] t[j]).provider && t[i].username == t[j].username) by {
        if i != k && j != k {
            assert(t[i] == s[i] && t[j] == s[j]);
        } else if i == k {
            assert(t[j] == s[j]);
        } else {
            assert(t[i] == s[i]);
        }
    }
    lemma_index_unique(t, k);
}

/// A list in which some account's identifier, or its provider and user name,
/// occurs among the accounts before it is not valid.
pub proof fn lemma_clash_breaks_validity(s: Seq<AccountView>, i: int)
    requires
        0 <= i < s.len(),
        !accepts(s.take(i), s[i]),
    ensures
        !registry_valid(s),
{
    let front = s.take(i);
    if has_id(front, s[i].id) {
        let k = index_of(front, s[i].id);
        assert(front[k] == s[k]);
        assert(s[k].id == s[i].id);
    } else {
        let k = choose|k: int|
            0 <= k < front.len() && (#[trigger] front[k]).provider == s[i].provider
                && front[k].username == s[i].username;
        assert(front[k] == s[k]);
        assert(s[k].provider == s[i].provider && s[k].username == s[i].username);
    }
}

/// Setting the enabled flag of an account changes no capability switch, and
/// setting a capability switch does not change the enabled flag; neither
/// changes another account, the identifier, the provider or the user name.
pub proof fn lemma_flag_and_switches_are_independent(
    s: Seq<AccountView>,
    id: AccountId,
    c: Capability,
    enabled: bool,
)
    requires
        registry_valid(s),
        has_id(s, id),
    ensures
        find(after_enable(s, id, enabled), id) == Some(with_enabled(find(s, id).unwrap(), enabled)),
        find(after_enable(s, id, enabled), id).unwrap().capabilities == find(
            s,
            id,
        ).unwrap().capabilities,
        find(after_switch(s, id, c, enabled), id) == Some(
            with_capability(find(s, id).unwrap(), c, enabled),
        ),
        find(after_switch(s, id, c, enabled), id).unwrap().enabled == find(s, id).unwrap().enabled,
        forall|other: AccountId|
            other != id ==> #[trigger] find(after_enable(s, id, enabled), other) == find(s, other),
        forall|other: AccountId|
            other != id ==> #[trigger] find(after_switch(s, id, c, enabled), other) == find(
                s,
                other,
            ),
{
    let k = index_of(s, id);
    lemma_index_unique(s, k);
    let a = with_enabled(s[k], enabled);
    let b = with_capability(s[k], c, enabled);
    lemma_same_identity_only_at(s, k);
    lemma_replace_keeps_valid(s, k, a);
    lemma_replace_keeps_valid(s, k, b);
    lemma_replace_keeps_others(s, k, a);
    lemma_replace_keeps_others(s, k, b);
}

/// In a valid list only the account at a position has that account's
/// provider and user name.
pub proof fn lemma_same_identity_only_at(s: Seq<AccountView>, k: int)
    requires
        registry_valid(s),
        0 <= k < s.len(),
    ensures
        forall|j: int|
            0 <= j < s.len() && (#[trigger] s[j]).provider == s[k].provider && s[j].username
                == s[k].username ==> j == k,
{
    assert forall|j: int|
        0 <= j < s.len() && (#[trigger] s[j]).provider == s[k].provider && s[j].username
            == s[k].username implies j == k by {
        if j < k {
            assert(!(s[j].provider == s[k].provider && s[j].username == s[k].username));
        } else if k < j {
            assert(!(s[k].provider == s[j].provider && s[k].username == s[j].username));
        }
    }
}

/// Replacing the record at one position by a record with the same identifier
/// leaves every other account to be found as before.
pub proof fn lemma_replace_keeps_others(s: Seq<AccountView>, k: int, a: AccountView)
    requires
        registry_valid(s),
        registry_valid(s.update(k, a)),
        0 <= k < s.len(),
        a.id == s[k].id,
    ensures
        forall|other: AccountId|
            other != a.id ==> #[trigger] find(s.update(k, a), other) == find(s, other),
{
    let t = s.update(k, a);
    assert forall|other: AccountId| other != a.id implies #[trigger] find(t, other) == find(
        s,
        other,
    ) by {
        if has_id(t, other) {
            let p = index_of(t, other);
            assert(p != k);
            assert(t[p] == s[p]);
            lemma_index_unique(s, p);
        } else if has_id(s, other) {
            let p = index_of(s, other);
            assert(p != k);
            assert(t[p] == s[p]);
            assert(has_id(t, other));
        }
    }
}

/// The authoritative list of linked accounts and of their enabled flags and
/// capability switches. No two accounts share an identifier, and no two share
/// a provider and user name. The records hold no secrets.
#[derive(Debug)]
pub struct AccountsConfig {
    accounts: Vec<Account>,
}

impl View for AccountsConfig {
    type V = Seq<AccountView>;

    closed spec fn view(&self) -> Seq<AccountView> {
        account_views(self.accounts@)
    }
}

impl AccountsConfig {
    #[verifier::type_invariant]
    spec fn valid(&self) -> bool {
        registry_valid(account_views(self.accounts@))
    }

    /// The registry without accounts.
    pub fn new() -> (r: AccountsConfig)
        ensures
            r@ == Seq::<AccountView>::empty(),
    {
        let r = AccountsConfig { accounts: Vec::new() };
        assert(r@ =~= Seq::<AccountView>::empty());
        r
    }

    /// Hands out the list and leaves the registry empty; the caller puts the
    /// changed list back.
    fn take(&mut self) -> (v: Vec<Account>)
        ensures
            v@ == old(self).accounts@,
            final(self).accounts@ == Seq::<Account>::empty(),
    {
        let mut v: Vec<Account> = Vec::new();
        assert(account_views(v@) =~= Seq::<AccountView>::empty());
        std::mem::swap(&mut self.accounts, &mut v);
        v
    }

    /// The number of accounts.
    pub fn len(&self) -> (r: usize)
        ensures
            r == self@.len(),
    {
        self.accounts.len()
    }

    /// The position of the account with the identifier.
    fn position(&self, id: AccountId) -> (r: Option<usize>)
        ensures
            match r {
                Some(i) => has_id(self@, id) && i == index_of(self@, id) && i < self.accounts.len(),
                None => !has_id(self@, id),
            },
    {
        proof {
            use_type_invariant(self);
        }
        let mut i: usize = 0;
        while i < self.accounts.len()
            invariant
                i <= self.accounts.len(),
                forall|j: int| 0 <= j < i ==> (#[trigger] self@[j]).id != id,
                self@ == account_views(self.accounts@),
                registry_valid(self@),
            decreases self.accounts.len() - i,
        {
            if self.accounts[i].id == id {
                proof {
                    assert(self@[i as int].id == id);
                    lemma_index_unique(self@, i as int);
                }
                return Some(i);
            }
            i += 1;
        }
        None
    }

    /// The position of an account of the provider under the user name.
    fn identity_position(&self, provider: Provider, username: &String) -> (r: Option<usize>)
        ensures
            match r {
                Some(i) => i < self.accounts.len() && self@[i as int].provider == provider
                    && self@[i as int].username == username@,
                None => !has_identity(self@, provider, username@),
            },
    {
        let mut i: usize = 0;
        while i < self.accounts.len()
            invariant
                i <= self.accounts.len(),
                forall|j: int|
                    0 <= j < i ==> !((#[trigger] self@[j]).provider == provider
                        && self@[j].username == username@),
                self@ == account_views(self.accounts@),
            decreases self.accounts.len() - i,
        {
            if self.accounts[i].has_identity(provider, username) {
                return Some(i);
            }
            i += 1;
        }
        None
    }

    /// Every account, in the order in which the accounts were added.
    pub fn list(&self) -> (r: Vec<Account>)
        ensures
            account_views(r@) == self@,
            registry_valid(self@),
    {
        proof {
            use_type_invariant(self);
        }
        let mut out: Vec<Account> = Vec::new();
        let mut i: usize = 0;
        while i < self.accounts.len()
            invariant
                i <= self.accounts.len(),
                out.len() == i,
                forall|j: int| 0 <= j < i ==> (#[trigger] out[j])@ == self.accounts[j]@,
            decreases self.accounts.len() - i,
        {
            out.push(self.accounts[i].clone());
            i += 1;
        }
        assert(account_views(out@) =~= self@);
        out
    }

    /// The account with the identifier, if there is one.
    pub fn get_account(&self, id: &AccountId) -> (r: Option<Account>)
        ensures
            r is Some <==> has_id(self@, *id),
            r matches Some(a) ==> find(self@, *id) == Some(a@),
            registry_valid(self@),
    {
        proof {
            use_type_invariant(self);
        }
        match self.position(*id) {
            Some(i) => Some(self.accounts[i].clone()),
            None => None,
        }
    }

    /// Whether an account of the provider under the user name is linked.
    pub fn account_exists(&self, username: &String, provider: &Provider) -> (r: bool)
        ensures
            r == has_identity(self@, *provider, username@),
    {
        match self.identity_position(*provider, username) {
            Some(i) => {
                assert(self@[i as int].provider == *provider && self@[i as int].username == username@);
                true
            },
            None => false,
        }
    }

    /// Takes in a newly authenticated account. An account whose identifier, or
    /// whose provider and user name, the registry already holds is refused, and
    /// the registry stays as it was.
    pub fn add_account(&mut self, account: Account) -> (r: Result<(), AccountsError>)
        ensures
            final(self)@ == after_add(old(self)@, account@),
            registry_valid(final(self)@),
            accepts(old(self)@, account@) ==> r is Ok,
            !accepts(old(self)@, account@) ==> (r matches Err(e) && e@
                == AccountsErrorView::AccountAlreadyExists),
    {
        proof {
            use_type_invariant(&*self);
        }
        if self.position(account.id).is_some() {
            return Err(AccountsError::AccountAlreadyExists);
        }
        if self.account_exists(&account.username, &account.provider) {
            return Err(AccountsError::AccountAlreadyExists);
        }
        proof {
            lemma_add_then_get(self@, account@);
            assert(account_views(self.accounts@.push(account)) =~= self@.push(account@));
        }
        let mut v = self.take();
        v.push(account);
        self.accounts = v;
        Ok(())
    }

    /// Removes the account with the identifier and returns its record. Fails
    /// with `AccountNotFound`, and changes nothing, if there is none.
    pub fn remove_account(&mut self, id: &AccountId) -> (r: Result<Account, AccountsError>)
        ensures
            final(self)@ == after_remove(old(self)@, *id),
            registry_valid(final(self)@),
            has_id(old(self)@, *id) ==> (r matches Ok(a) && Some(a@) == find(old(self)@, *id)),
            !has_id(old(self)@, *id) ==> (r matches Err(e) && e@ == AccountsErrorView::AccountNotFound(
                uuid_text(id.0),
            )),
    {
        proof {
            use_type_invariant(&*self);
        }
        match self.position(*id) {
            Some(i) => {
                proof {
                    lemma_remove_then_get(self@, *id);
                    assert(account_views(self.accounts@.remove(i as int)) =~= self@.remove(i as int));
                }
                let mut v = self.take();
                let removed = v.remove(i);
                self.accounts = v;
                Ok(removed)
            },
            None => Err(AccountsError::AccountNotFound(id.to_string())),
        }
    }

    /// Puts a record in the place of the one at a position. The new record has
    /// the identifier, provider and user name of the old one.
    fn replace_at(&mut self, i: usize, account: Account)
        requires
            i < old(self)@.len(),
            old(self)@[i as int].id == account@.id,
            old(self)@[i as int].provider == account@.provider,
            old(self)@[i as int].username == account@.username,
        ensures
            final(self)@ == old(self)@.update(i as int, account@),
    {
        proof {
            use_type_invariant(&*self);
            let s = self@;
            lemma_same_identity_only_at(s, i as int);
            lemma_replace_keeps_valid(s, i as int, account@);
            assert(account_views(self.accounts@.update(i as int, account)) =~= s.update(
                i as int,
                account@,
            ));
        }
        let mut v = self.take();
        v.set(i, account);
        self.accounts = v;
    }

    /// Sets the enabled flag of the account with the identifier. Fails with
    /// `AccountNotFound`, and changes nothing, if there is none. No capability
    /// switch changes, and no other account.
    pub fn set_enabled(&mut self, id: &AccountId, enabled: bool) -> (r: Result<(), AccountsError>)
        ensures
            final(self)@ == after_enable(old(self)@, *id, enabled),
            registry_valid(final(self)@),
            has_id(old(self)@, *id) ==> r is Ok,
            !has_id(old(self)@, *id) ==> (r matches Err(e) && e@ == AccountsErrorView::AccountNotFound(
                uuid_text(id.0),
            )),
    {
        let r = match self.position(*id) {
            Some(i) => {
                let mut account = self.accounts[i].clone();
                account.enabled = enabled;
                self.replace_at(i, account);
                Ok(())
            },
            None => Err(AccountsError::AccountNotFound(id.to_string())),
        };
        proof {
            use_type_invariant(&*self);
        }
        r
    }

    /// Sets one capability switch of the account with the identifier. Fails
    /// with `AccountNotFound`, and changes nothing, if there is none. The
    /// enabled flag does not change, and no other account.
    pub fn set_capability(&mut self, id: &AccountId, capability: Capability, enabled: bool) -> (r:
        Result<(), AccountsError>)
        ensures
            final(self)@ == after_switch(old(self)@, *id, capability, enabled),
            registry_valid(final(self)@),
            has_id(old(self)@, *id) ==> r is Ok,
            !has_id(old(self)@, *id) ==> (r matches Err(e) && e@ == AccountsErrorView::AccountNotFound(
                uuid_text(id.0),
            )),
    {
        let r = match self.position(*id) {
            Some(i) => {
                let mut account = self.accounts[i].clone();
                account.capabilities.insert(capability, enabled);
                self.replace_at(i, account);
                Ok(())
            },
            None => Err(AccountsError::AccountNotFound(id.to_string())),
        };
        proof {
            use_type_invariant(&*self);
        }
        r
    }

    /// The accounts that are enabled and have the capability switched on, in
    /// the order of the registry.
    pub fn list_enabled(&self, capability: Capability) -> (r: Vec<Account>)
        ensures
            account_views(r@) == self@.filter(|a: AccountView| serves(a, capability)),
    {
        let ghost keep = |a: AccountView| serves(a, capability);
        let mut out: Vec<Account> = Vec::new();
        let mut i: usize = 0;
        assert(account_views(out@) =~= self@.take(0).filter(keep)) by {
            reveal(Seq::filter);
            assert(self@.take(0) =~= Seq::<AccountView>::empty());
        }
        while i < self.accounts.len()
            invariant
                i <= self.accounts.len(),
                self@ == account_views(self.accounts@),
                keep == |a: AccountView| serves(a, capability),
                account_views(out@) == self@.take(i as int).filter(keep),
            decreases self.accounts.len() - i,
        {
            let ghost before = account_views(out@);
            proof {
                let front = self@.take(i as int + 1);
                assert(front.drop_last() =~= self@.take(i as int));
                assert(front.last() == self@[i as int]);
                reveal(Seq::filter);
                assert(front.filter(keep) == if keep(self@[i as int]) {
                    self@.take(i as int).filter(keep).push(self@[i as int])
                } else {
                    self@.take(i as int).filter(keep)
                });
            }
            if self.accounts[i].enabled && self.accounts[i].capabilities.is_enabled(capability) {
                out.push(self.accounts[i].clone());
                assert(account_views(out@) =~= before.push(self@[i as int]));
            }
            i += 1;
        }
        assert(self@.take(i as int) =~= self@);
        out
    }

    /// A registry of the given accounts, in their order. Fails with
    /// `AccountAlreadyExists` if two of them share an identifier, or a
    /// provider and user name.
    pub fn from_accounts(accounts: Vec<Account>) -> (r: Result<AccountsConfig, AccountsError>)
        ensures
            registry_valid(account_views(accounts@)) ==> (r matches Ok(c) && c@ == account_views(
                accounts@,
            )),
            !registry_valid(account_views(accounts@)) ==> (r matches Err(e) && e@
                == AccountsErrorView::AccountAlreadyExists),
    {
        let ghost all = account_views(accounts@);
        let mut registry = AccountsConfig::new();
        let mut i: usize = 0;
        assert(all.take(0) =~= Seq::<AccountView>::empty());
        while i < accounts.len()
            invariant
                i <= accounts.len(),
                all == account_views(accounts@),
                registry@ == all.take(i as int),
                registry_valid(all.take(i as int)),
            decreases accounts.len() - i,
        {
            let ghost front = all.take(i as int);
            match registry.add_account(accounts[i].clone()) {
                Ok(_) => {
                    assert(accepts(front, all[i as int]));
                    assert(all.take(i as int + 1) =~= front.push(all[i as int]));
                },
                Err(e) => {
                    proof {
                        lemma_clash_breaks_validity(all, i as int);
                    }
                    return Err(e);
                },
            }
            i += 1;
        }
        assert(all.take(i as int) =~= all);
        Ok(registry)
    }

    /// Stores a record: in place of the record with the same identifier if
    /// there is one, as a new account otherwise. A record that would give two
    /// accounts the same provider and user name is refused with
    /// `AccountAlreadyExists`, and the registry stays as it was.
    pub fn save_account(&mut self, account: &Account) -> (r: Result<(), AccountsError>)
        ensures
            final(self)@ == after_save(old(self)@, account@),
            registry_valid(final(self)@),
            stores(old(self)@, account@) ==> r is Ok,
            !stores(old(self)@, account@) ==> (r matches Err(e) && e@
                == AccountsErrorView::AccountAlreadyExists),
    {
        proof {
            use_type_invariant(&*self);
        }
        let holder = self.identity_position(account.provider, &account.username);
        match holder {
            Some(j) => {
                if self.accounts[j].id != account.id {
                    assert(!stores(self@, account@));
                    return Err(AccountsError::AccountAlreadyExists);
                }
                proof {
                    let s = self@;
                    lemma_index_unique(s, j as int);
                    lemma_same_identity_only_at(s, j as int);
                }
                self.replace_at(j, account.clone());
                Ok(())
            },
            None => {
                assert(stores(self@, account@));
                match self.position(account.id) {
                    Some(i) => {
                        proof {
                            let s = self@;
                            assert forall|k: int|
                                0 <= k < s.len() && (#[trigger] s[k]).provider == account@.provider
                                    && s[k].username == account@.username implies k == i by {
                                assert(has_identity(s, account@.provider, account@.username));
                            }
                            lemma_replace_keeps_valid(s, i as int, account@);
                        }
                        let copy = account.clone();
                        proof {
                            assert(account_views(self.accounts@.update(i as int, copy)) =~= self@.update(
                                i as int,
                                account@,
                            ));
                        }
                        let mut v = self.take();
                        v.set(i, copy);
                        self.accounts = v;
                        Ok(())
                    },
                    None => {
                        let copy = account.clone();
                        proof {
                            lemma_add_then_get(self@, account@);
                            assert(account_views(self.accounts@.push(copy)) =~= self@.push(account@));
                        }
                        let mut v = self.take();
                        v.push(copy);
                        self.accounts = v;
                        Ok(())
                    },
                }
            },
        }
    }
}

} // verus!
