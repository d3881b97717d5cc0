//! The credential store: one secret for each account, under the account's
//! identifier.

use vstd::prelude::*;
use vstd::string::StringExecFns;
use crate::account::AccountId;
use crate::assoc::{
    as_map, keys_distinct, lemma_empty_map, lemma_entry_in_map, lemma_push_in_map,
    lemma_remove_in_map, lemma_update_in_map,
};
use crate::credential::{Credential, CredentialView};
use crate::error::{AccountsError, AccountsErrorView};
use crate::outside::uuid_text;

verus! {

/// A credential kept under the identifier of its account.
#[derive(Debug)]
pub struct StoredCredential {
    pub account_id: AccountId,
    pub credential: Credential,
}

/// The entries of a list of stored credentials, each under its account's
/// identifier.
pub open spec fn stored_pairs(v: Seq<StoredCredential>) -> Seq<(AccountId, CredentialView)> {
    Seq::new(v.len(), |i: int| (v[i].account_id, v[i].credential@))
}

/// The message of the error that reports a missing credential.
pub open spec fn missing_credentials_message(id: AccountId) -> Seq<char> {
    "Credentials not found for account "@ + uuid_text(id.0)
}

/// The store of credentials: at most one for an account. Each change is one
/// whole write: a credential is set, replaced or deleted, never altered in
/// part.
#[derive(Debug)]
pub struct CredentialStorage {
    entries: Vec<StoredCredential>,
}

impl View for CredentialStorage {
    type V = Map<AccountId, CredentialView>;

    closed spec fn view(&self) -> Map<AccountId, CredentialView> {
        as_map(stored_pairs(self.entries@))
    }
}

impl CredentialStorage {
    #[verifier::type_invariant]
    spec fn valid(&self) -> bool {
        keys_distinct(stored_pairs(self.entries@))
    }

    /// Hands out the entries and leaves the store empty; the caller puts the
    /// changed entries back.
    fn take_entries(&mut self) -> (v: Vec<StoredCredential>)
        ensures
            v@ == old(self).entries@,
            final(self).entries@ == Seq::<StoredCredential>::empty(),
    {
        let mut v: Vec<StoredCredential> = Vec::new();
        std::mem::swap(&mut self.entries, &mut v);
        v
    }

    /// The store without credentials.
    pub fn new() -> (r: CredentialStorage)
        ensures
            r@ == Map::<AccountId, CredentialView>::empty(),
    {
        let r = CredentialStorage { entries: Vec::new() };
        proof {
            lemma_empty_map::<AccountId, CredentialView>();
            assert(stored_pairs(r.entries@) =~= Seq::empty());
        }
        r
    }

    /// The position of the credential of an account.
    fn position(&self, id: AccountId) -> (r: Option<usize>)
        ensures
            match r {
                Some(i) => i < self.entries.len() && self.entries[i as int].account_id == id
                    && self@.contains_key(id) && self@[id] == self.entries[i as int].credential@,
                None => !self@.contains_key(id),
            },
    {
        proof {
            use_type_invariant(self);
        }
        let ghost pairs = stored_pairs(self.entries@);
        let mut i: usize = 0;
        while i < self.entries.len()
            invariant
                i <= self.entries.len(),
                pairs == stored_pairs(self.entries@),
                keys_distinct(pairs),
                forall|j: int| 0 <= j < i ==> (#[trigger] pairs[j]).0 != id,
            decreases self.entries.len() - i,
        {
            if self.entries[i].account_id == id {
                proof {
                    assert(pairs[i as int].0 == id);
                    lemma_entry_in_map(pairs, i as int);
                }
                return Some(i);
            }
            i += 1;
        }
        None
    }

    /// Whether the store holds a credential for the account.
    pub fn contains(&self, account_id: &AccountId) -> (r: bool)
        ensures
            r == self@.contains_key(*account_id),
    {
        self.position(*account_id).is_some()
    }

    /// The credential of the account. Fails with `StorageError` if the store
    /// holds none.
    pub fn get_account_credentials(&self, account_id: &AccountId) -> (r: Result<
        Credential,
        AccountsError,
    >)
        ensures
            self@.contains_key(*account_id) ==> (r matches Ok(c) && c@ == self@[*account_id]),
            !self@.contains_key(*account_id) ==> (r matches Err(e) && e@
                == AccountsErrorView::StorageError(missing_credentials_message(*account_id))),
    {
        match self.position(*account_id) {
            Some(i) => Ok(self.entries[i].credential.clone()),
            None => {
                let text = account_id.to_string();
                Err(
                    AccountsError::StorageError(
                        String::from_str("Credentials not found for account ").concat(text.as_str()),
                    ),
                )
            },
        }
    }

    /// Writes the credential of the account, in place of any the store held
    /// for it. No other account's credential changes.
    pub fn set_account_credentials(&mut self, account_id: &AccountId, credential: &Credential)
        ensures
            final(self)@ == old(self)@.insert(*account_id, credential@),
    {
        proof {
            use_type_invariant(&*self);
        }
        let found = self.position(*account_id);
        let ghost before = stored_pairs(self.entries@);
        let entry = StoredCredential { account_id: *account_id, credential: credential.clone() };
        let mut v = self.take_entries();
        match found {
            Some(i) => {
                proof {
                    lemma_update_in_map(before, i as int, credential@);
                    assert(stored_pairs(v@.update(i as int, entry)) =~= before.update(
                        i as int,
                        (before[i as int].0, credential@),
                    ));
                }
                v.set(i, entry);
            },
            None => {
                proof {
                    lemma_push_in_map(before, *account_id, credential@);
                    assert(stored_pairs(v@.push(entry)) =~= before.push((*account_id, credential@)));
                }
                v.push(entry);
            },
        }
        self.entries = v;
    }

    /// Deletes the credential of the account and says whether there was one.
    /// No other account's credential changes.
    pub fn delete_account_credentials(&mut self, account_id: &AccountId) -> (r: bool)
        ensures
            final(self)@ == old(self)@.remove(*account_id),
            r == old(self)@.contains_key(*account_id),
    {
        proof {
            use_type_invariant(&*self);
        }
        match self.position(*account_id) {
            Some(i) => {
                let ghost before = stored_pairs(self.entries@);
                let mut v = self.take_entries();
                proof {
                    lemma_remove_in_map(before, i as int);
                    assert(stored_pairs(v@.remove(i as int)) =~= before.remove(i as int));
                }
                v.remove(i);
                self.entries = v;
                true
            },
            None => {
                assert(self@.remove(*account_id) =~= self@);
                false
            },
        }
    }

    /// Replaces the credential of the account: the old one is deleted, then
    /// the new one is written.
    pub fn update_account_credentials(&mut self, account_id: &AccountId, credential: &Credential)
        ensures
            final(self)@ == old(self)@.insert(*account_id, credential@),
    {
        self.delete_account_credentials(account_id);
        self.set_account_credentials(account_id, credential);
        assert(self@ =~= old(self)@.insert(*account_id, credential@));
    }
}

} // verus!
