//! Pending authorizations: the sign-ins that were started and not yet
//! completed, each under its state token.

use vstd::prelude::*;
use crate::assoc::{
    as_map, has_key, keys_distinct, lemma_empty_map, lemma_entry_in_map, lemma_push_in_map,
    lemma_remove_in_map, lemma_update_in_map, position_of,
};
use crate::provider::Provider;
use crate::text::same_text;
use crate::time::Timestamp;

verus! {

/// What a pending authorization holds.
pub struct PendingAuthorizationView {
    pub state_token: Seq<char>,
    pub provider: Provider,
    pub pkce_verifier: Seq<char>,
    pub created_at: Timestamp,
}

/// A sign-in that was started: the state token that the redirect must bring
/// back, the provider, the PKCE verifier that proves to the token endpoint who
/// started the sign-in, and when it was started.
#[derive(Debug)]
pub struct PendingAuthorization {
    pub state_token: String,
    pub provider: Provider,
    pub pkce_verifier: String,
    pub created_at: Timestamp,
}

impl View for PendingAuthorization {
    type V = PendingAuthorizationView;

    open spec fn view(&self) -> PendingAuthorizationView {
        PendingAuthorizationView {
            state_token: self.state_token@,
            provider: self.provider,
            pkce_verifier: self.pkce_verifier@,
            created_at: self.created_at,
        }
    }
}

/// The entries of a list of pending authorizations, each under its state
/// token.
pub open spec fn pending_pairs(v: Seq<PendingAuthorization>) -> Seq<
    (Seq<char>, PendingAuthorizationView),
> {
    Seq::new(v.len(), |i: int| (v[i].state_token@, v[i]@))
}

/// What the table holds once the sign-ins that were started before a point in
/// time are dropped.
pub open spec fn after_evict(
    pending: Map<Seq<char>, PendingAuthorizationView>,
    cutoff: Timestamp,
) -> Map<Seq<char>, PendingAuthorizationView> {
    Map::new(
        |k: Seq<char>| pending.contains_key(k) && cutoff.at_or_before(pending[k].created_at),
        |k: Seq<char>| pending[k],
    )
}

/// Whether an entry stands in the list at or after a position and was
/// started at the point in time or later.
spec fn kept_from(
    all: Seq<(Seq<char>, PendingAuthorizationView)>,
    from: int,
    entry: (Seq<char>, PendingAuthorizationView),
    cutoff: Timestamp,
) -> bool {
    exists|k: int|
        from <= k < all.len() && 0 <= k && #[trigger] all[k] == entry && cutoff.at_or_before(
            all[k].1.created_at,
        )
}

/// A position at which such an entry stands.
spec fn origin(
    all: Seq<(Seq<char>, PendingAuthorizationView)>,
    from: int,
    entry: (Seq<char>, PendingAuthorizationView),
    cutoff: Timestamp,
) -> int {
    choose|k: int|
        from <= k < all.len() && 0 <= k && #[trigger] all[k] == entry && cutoff.at_or_before(
            all[k].1.created_at,
        )
}

/// Whether an entry stands in the list.
spec fn among(
    list: Seq<(Seq<char>, PendingAuthorizationView)>,
    entry: (Seq<char>, PendingAuthorizationView),
) -> bool {
    exists|j: int| 0 <= j < list.len() && #[trigger] list[j] == entry
}

/// The table of pending authorizations. At most one entry exists for a state
/// token, and an entry leaves the table in the one step that hands it out.
#[derive(Debug)]
pub struct PendingTable {
    entries: Vec<PendingAuthorization>,
}

impl View for PendingTable {
    type V = Map<Seq<char>, PendingAuthorizationView>;

    closed spec fn view(&self) -> Map<Seq<char>, PendingAuthorizationView> {
        as_map(pending_pairs(self.entries@))
    }
}

impl PendingTable {
    #[verifier::type_invariant]
    spec fn valid(&self) -> bool {
        keys_distinct(pending_pairs(self.entries@))
    }

    /// Hands out the entries and leaves the table empty; the caller puts the
    /// changed entries back.
    fn take_entries(&mut self) -> (v: Vec<PendingAuthorization>)
        ensures
            v@ == old(self).entries@,
            final(self).entries@ == Seq::<PendingAuthorization>::empty(),
    {
        let mut v: Vec<PendingAuthorization> = Vec::new();
        std::mem::swap(&mut self.entries, &mut v);
        v
    }

    /// The table without entries.
    pub fn new() -> (r: PendingTable)
        ensures
            r@ == Map::<Seq<char>, PendingAuthorizationView>::empty(),
    {
        let r = PendingTable { entries: Vec::new() };
        proof {
            lemma_empty_map::<Seq<char>, PendingAuthorizationView>();
            assert(pending_pairs(r.entries@) =~= Seq::empty());
        }
        r
    }

    /// The position of the entry under a state token.
    fn position(&self, token: &str) -> (r: Option<usize>)
        ensures
            match r {
                Some(i) => i < self.entries.len() && self.entries[i as int].state_token@ == token@
                    && self@.contains_key(token@) && self@[token@] == self.entries[i as int]@,
                None => !self@.contains_key(token@),
            },
    {
        proof {
            use_type_invariant(self);
        }
        let ghost pairs = pending_pairs(self.entries@);
        let mut i: usize = 0;
        while i < self.entries.len()
            invariant
                i <= self.entries.len(),
                pairs == pending_pairs(self.entries@),
                keys_distinct(pairs),
                forall|j: int| 0 <= j < i ==> (#[trigger] pairs[j]).0 != token@,
            decreases self.entries.len() - i,
        {
            if same_text(self.entries[i].state_token.as_str(), token) {
                proof {
                    assert(pairs[i as int].0 == token@);
                    lemma_entry_in_map(pairs, i as int);
                }
                return Some(i);
            }
            i += 1;
        }
        None
    }

    /// Whether an authorization is pending under the state token.
    pub fn contains(&self, token: &str) -> (r: bool)
        ensures
            r == self@.contains_key(token@),
    {
        self.position(token).is_some()
    }

    /// Records a pending authorization under its state token, in place of
    /// any that was pending under the same token. No other entry changes.
    pub fn insert(&mut self, entry: PendingAuthorization)
        ensures
            final(self)@ == old(self)@.insert(entry.state_token@, entry@),
    {
        proof {
            use_type_invariant(&*self);
        }
        let found = self.position(entry.state_token.as_str());
        let ghost before = pending_pairs(self.entries@);
        let mut v = self.take_entries();
        match found {
            Some(i) => {
                proof {
                    lemma_update_in_map(before, i as int, entry@);
                    assert(pending_pairs(v@.update(i as int, entry)) =~= before.update(
                        i as int,
                        (before[i as int].0, entry@),
                    ));
                }
                v.set(i, entry);
            },
            None => {
                proof {
                    lemma_push_in_map(before, entry.state_token@, entry@);
                    assert(pending_pairs(v@.push(entry)) =~= before.push((entry.state_token@, entry@)));
                }
                v.push(entry);
            },
        }
        self.entries = v;
    }

    /// Drops the sign-ins that were started before a point in time: those that
    /// were abandoned long enough ago. Every other entry stays as it was.
    pub fn evict_before(&mut self, cutoff: &Timestamp)
        ensures
            final(self)@ == after_evict(old(self)@, *cutoff),
    {
        proof {
            use_type_invariant(&*self);
        }
        let ghost all = pending_pairs(self.entries@);
        let mut rest = self.take_entries();
        let mut kept: Vec<PendingAuthorization> = Vec::new();
        assert(pending_pairs(rest@) =~= all.take(rest.len() as int));
        while rest.len() > 0
            invariant
                rest.len() <= all.len(),
                pending_pairs(rest@) == all.take(rest.len() as int),
                keys_distinct(all),
                keys_distinct(pending_pairs(kept@)),
                forall|j: int|
                    0 <= j < kept.len() ==> kept_from(
                        all,
                        rest.len() as int,
                        #[trigger] pending_pairs(kept@)[j],
                        *cutoff,
                    ),
                forall|k: int|
                    rest.len() <= k < all.len() && cutoff.at_or_before(all[k].1.created_at)
                        ==> among(pending_pairs(kept@), #[trigger] all[k]),
            decreases rest.len(),
        {
            let ghost n = rest.len() as int;
            let ghost kept_before = pending_pairs(kept@);
            assert(pending_pairs(rest@)[n - 1] == all[n - 1]);
            let entry = rest.pop().unwrap();
            assert(pending_pairs(rest@) =~= all.take(n - 1));
            assert((entry.state_token@, entry@) == all[n - 1]);
            if cutoff.is_at_or_before(&entry.created_at) {
                kept.push(entry);
                proof {
                    let now_kept = pending_pairs(kept@);
                    assert(now_kept =~= kept_before.push(all[n - 1]));
                    assert forall|i: int, j: int| 0 <= i < j < now_kept.len() implies (
                    #[trigger] now_kept[i]).0 != (#[trigger] now_kept[j]).0 by {
                        if j < kept_before.len() {
                            assert(kept_before[i].0 != kept_before[j].0);
                        } else {
                            assert(kept_from(all, n, kept_before[i], *cutoff));
                            let k = origin(all, n, kept_before[i], *cutoff);
                            assert(all[n - 1].0 != all[k].0);
                        }
                    }
                    assert forall|j: int| 0 <= j < now_kept.len() implies kept_from(
                        all,
                        n - 1,
                        #[trigger] now_kept[j],
                        *cutoff,
                    ) by {
                        if j < kept_before.len() {
                            assert(kept_from(all, n, kept_before[j], *cutoff));
                            let k = origin(all, n, kept_before[j], *cutoff);
                            assert(all[k] == now_kept[j]);
                        } else {
                            assert(all[n - 1] == now_kept[j]);
                        }
                    }
                    assert forall|k: int|
                        n - 1 <= k < all.len() && cutoff.at_or_before(
                            all[k].1.created_at,
                        ) implies among(now_kept, #[trigger] all[k]) by {
                        if k == n - 1 {
                            assert(now_kept[kept_before.len() as int] == all[k]);
                        } else {
                            assert(among(kept_before, all[k]));
                            let j = choose|j: int|
                                0 <= j < kept_before.len() && #[trigger] kept_before[j] == all[k];
                            assert(now_kept[j] == all[k]);
                        }
                    }
                }
            } else {
                proof {
                    assert forall|j: int| 0 <= j < kept_before.len() implies kept_from(
                        all,
                        n - 1,
                        #[trigger] kept_before[j],
                        *cutoff,
                    ) by {
                        assert(kept_from(all, n, kept_before[j], *cutoff));
                        let k = origin(all, n, kept_before[j], *cutoff);
                        assert(all[k] == kept_before[j]);
                    }
                }
            }
        }
        proof {
            let kp = pending_pairs(kept@);
            let target = after_evict(as_map(all), *cutoff);
            assert forall|q: Seq<char>| #[trigger] as_map(kp).contains_key(q) == target.contains_key(
                q,
            ) by {
                if has_key(kp, q) {
                    let j = position_of(kp, q);
                    assert(kept_from(all, 0, kp[j], *cutoff));
                    let k = origin(all, 0, kp[j], *cutoff);
                    lemma_entry_in_map(all, k);
                }
                if target.contains_key(q) {
                    let p = position_of(all, q);
                    assert(has_key(all, q));
                    lemma_entry_in_map(all, p);
                    assert(among(kp, all[p]));
                    let j = choose|j: int| 0 <= j < kp.len() && #[trigger] kp[j] == all[p];
                    assert(kp[j].0 == q);
                    assert(has_key(kp, q));
                }
            }
            assert forall|q: Seq<char>| #[trigger] as_map(kp).contains_key(q) implies as_map(kp)[q]
                == target[q] by {
                let j = position_of(kp, q);
                lemma_entry_in_map(kp, j);
                assert(kept_from(all, 0, kp[j], *cutoff));
                let k = origin(all, 0, kp[j], *cutoff);
                lemma_entry_in_map(all, k);
            }
            assert(as_map(kp) =~= target);
        }
        self.entries = kept;
    }

    /// Hands out the authorization pending under the state token and removes
    /// it, in one step: a token is redeemed at most once. Without such an
    /// entry the table stays as it was.
    pub fn remove(&mut self, token: &str) -> (r: Option<PendingAuthorization>)
        ensures
            match r {
                Some(entry) => old(self)@.contains_key(token@) && entry@ == old(self)@[token@]
                    && entry@.state_token == token@ && final(self)@ == old(self)@.remove(token@),
                None => !old(self)@.contains_key(token@) && final(self)@ == old(self)@,
            },
    {
        proof {
            use_type_invariant(&*self);
        }
        match self.position(token) {
            Some(i) => {
                let ghost before = pending_pairs(self.entries@);
                let mut v = self.take_entries();
                proof {
                    lemma_remove_in_map(before, i as int);
                    assert(pending_pairs(v@.remove(i as int)) =~= before.remove(i as int));
                }
                let entry = v.remove(i);
                self.entries = v;
                Some(entry)
            },
            None => None,
        }
    }
}

/// What the table holds after a sign-in was started under a state token.
pub open spec fn after_start(
    pending: Map<Seq<char>, PendingAuthorizationView>,
    entry: PendingAuthorizationView,
) -> Map<Seq<char>, PendingAuthorizationView> {
    pending.insert(entry.state_token, entry)
}

/// What the table holds after an attempt to redeem a state token.
pub open spec fn after_redeem(
    pending: Map<Seq<char>, PendingAuthorizationView>,
    token: Seq<char>,
) -> Map<Seq<char>, PendingAuthorizationView> {
    pending.remove(token)
}

/// What an attempt to redeem a state token hands out.
pub open spec fn redeemed(
    pending: Map<Seq<char>, PendingAuthorizationView>,
    token: Seq<char>,
) -> Option<PendingAuthorizationView> {
    if pending.contains_key(token) {
        Some(pending[token])
    } else {
        None
    }
}

/// Redeeming a state token other than the one a sign-in was started under
/// hands out nothing of that sign-in and leaves its entry as it was.
pub proof fn lemma_wrong_token_keeps_entry(
    pending: Map<Seq<char>, PendingAuthorizationView>,
    entry: PendingAuthorizationView,
    wrong: Seq<char>,
)
    requires
        wrong != entry.state_token,
    ensures
        after_redeem(after_start(pending, entry), wrong).contains_key(entry.state_token),
        after_redeem(after_start(pending, entry), wrong)[entry.state_token] == entry,
        redeemed(after_start(pending, entry), wrong) == redeemed(pending, wrong),
        !pending.contains_key(wrong) ==> redeemed(after_start(pending, entry), wrong) is None
            && after_redeem(after_start(pending, entry), wrong) == after_start(pending, entry),
{
    if !pending.contains_key(wrong) {
        assert(after_redeem(after_start(pending, entry), wrong) =~= after_start(pending, entry));
    }
}

/// Dropping the sign-ins started before a point in time keeps every later
/// sign-in redeemable as before, and a dropped token redeems to nothing.
pub proof fn lemma_evict_keeps_later(
    pending: Map<Seq<char>, PendingAuthorizationView>,
    cutoff: Timestamp,
    token: Seq<char>,
)
    ensures
        redeemed(after_evict(pending, cutoff), token) == if pending.contains_key(token)
            && cutoff.at_or_before(pending[token].created_at) {
            redeemed(pending, token)
        } else {
            None
        },
{
}

/// After a state token was redeemed, redeeming it again hands out nothing,
/// whatever the first attempt handed out.
pub proof fn lemma_token_redeemed_once(
    pending: Map<Seq<char>, PendingAuthorizationView>,
    token: Seq<char>,
)
    ensures
        redeemed(after_redeem(pending, token), token) is None,
        after_redeem(after_redeem(pending, token), token) == after_redeem(pending, token),
{
    assert(after_redeem(after_redeem(pending, token), token) =~= after_redeem(pending, token));
}

} // verus!
