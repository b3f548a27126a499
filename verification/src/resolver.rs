//! Identity Resolver: maps a (external id, display name, platform id)
//! triple to an internal session token, creating the account if absent.
//!
//! The store keeps one account per external id and is the sole writer of
//! session tokens.  Resolution is idempotent: repeated logins for the
//! same external identity return the account's token without creating a
//! duplicate.  The host serializes resolutions per external id (the
//! store upserts atomically), so concurrent callbacks become two
//! resolutions in some order; the laws below cover both orders.  A
//! failure of a persistent backing store is the host's to detect; it
//! enters the flow as a failed store event and surfaces as
//! `StorageError` there.

use vstd::prelude::*;

use crate::error::AuthError;

verus! {

/// One account row: the external identity it was created from and its
/// current session token.
pub struct Account {
    pub external_id: String,
    pub display_name: String,
    pub platform_id: String,
    pub session_token: String,
}

/// The mathematical content of an account row.
pub struct AccountModel {
    pub external_id: Seq<char>,
    pub display_name: Seq<char>,
    pub platform_id: Seq<char>,
    pub session_token: Seq<char>,
}

impl Account {
    pub open spec fn view(&self) -> AccountModel {
        AccountModel {
            external_id: self.external_id@,
            display_name: self.display_name@,
            platform_id: self.platform_id@,
            session_token: self.session_token@,
        }
    }
}

/// Whether some account carries the external id.
pub open spec fn has_id(m: Seq<AccountModel>, id: Seq<char>) -> bool {
    exists|k: int| 0 <= k < m.len() && #[trigger] m[k].external_id == id
}

/// The session token of the account carrying the external id.
pub open spec fn token_for(m: Seq<AccountModel>, id: Seq<char>) -> Seq<char> {
    let k = choose|k: int| 0 <= k < m.len() && #[trigger] m[k].external_id == id;
    m[k].session_token
}

/// How many accounts carry the external id.
pub open spec fn count_with_id(m: Seq<AccountModel>, id: Seq<char>) -> nat
    decreases m.len(),
{
    if m.len() == 0 {
        0
    } else {
        count_with_id(m.drop_last(), id) + if m.last().external_id == id {
            1nat
        } else {
            0nat
        }
    }
}

/// At most one account per external id.
pub open spec fn wf_model(m: Seq<AccountModel>) -> bool {
    forall|k1: int, k2: int|
        0 <= k1 < m.len() && 0 <= k2 < m.len() && k1 != k2 ==> #[trigger] m[k1].external_id
            != #[trigger] m[k2].external_id
}

/// What one resolution does to the store: returns the existing account's
/// token unchanged, or appends a new account carrying the fresh token.
pub open spec fn spec_resolve(
    m: Seq<AccountModel>,
    id: Seq<char>,
    name: Seq<char>,
    pid: Seq<char>,
    fresh: Seq<char>,
) -> (Seq<AccountModel>, Seq<char>) {
    if has_id(m, id) {
        (m, token_for(m, id))
    } else {
        (
            m.push(
                AccountModel {
                    external_id: id,
                    display_name: name,
                    platform_id: pid,
                    session_token: fresh,
                },
            ),
            fresh,
        )
    }
}

/// The identity store: one account per external id, sole owner of the
/// session tokens.
pub struct IdentityStore {
    accounts: Vec<Account>,
}

impl IdentityStore {
    /// The store as the sequence of its account rows, in creation order.
    pub closed spec fn view(&self) -> Seq<AccountModel> {
        Seq::new(self.accounts@.len(), |k: int| self.accounts@[k]@)
    }

    pub open spec fn wf(&self) -> bool {
        wf_model(self@)
    }

    /// An empty store.
    pub fn new() -> (r: IdentityStore)
        ensures
            r.wf(),
            r@ == Seq::<AccountModel>::empty(),
    {
        let r = IdentityStore { accounts: Vec::new() };
        proof {
            assert(r@ =~= Seq::<AccountModel>::empty());
        }
        r
    }

    /// How many accounts the store holds.
    pub fn len(&self) -> (r: usize)
        ensures
            r == self@.len(),
    {
        self.accounts.len()
    }

    /// Looks up the account with the external id; if absent, creates one
    /// from the display name and platform id, under the caller's fresh
    /// token.  Returns the account's session token.  Idempotent: a
    /// repeated call with the same external identity returns the same
    /// token and creates nothing.  The in-memory store itself cannot
    /// fail; a persistent collaborator's failure surfaces through the
    /// flow as `StorageError` instead.
    pub fn resolve_and_login(
        &mut self,
        external_id: &String,
        display_name: &String,
        platform_id: &String,
        fresh_token: String,
    ) -> (r: Result<String, AuthError>)
        requires
            old(self).wf(),
        ensures
            final(self).wf(),
            r matches Ok(t) && (final(self)@, t@) == spec_resolve(
                old(self)@,
                external_id@,
                display_name@,
                platform_id@,
                fresh_token@,
            ),
    {
        let ghost m = self@;
        let n = self.accounts.len();
        for k in 0..n
            invariant
                n == self.accounts.len(),
                m == self@,
                old(self).wf(),
                m == old(self)@,
                forall|j: int| 0 <= j < k ==> #[trigger] m[j].external_id != external_id@,
        {
            if self.accounts[k].external_id == *external_id {
                let t = self.accounts[k].session_token.clone();
                proof {
                    assert(m[k as int].external_id == external_id@);
                    let k0 = choose|k0: int|
                        0 <= k0 < m.len() && #[trigger] m[k0].external_id == external_id@;
                    assert(k0 == k as int);
                }
                return Ok(t);
            }
        }
        proof {
            assert(!has_id(m, external_id@));
        }
        let ghost fresh = fresh_token@;
        let account = Account {
            external_id: external_id.clone(),
            display_name: display_name.clone(),
            platform_id: platform_id.clone(),
            session_token: fresh_token.clone(),
        };
        self.accounts.push(account);
        proof {
            assert(self@ =~= m.push(
                AccountModel {
                    external_id: external_id@,
                    display_name: display_name@,
                    platform_id: platform_id@,
                    session_token: fresh,
                },
            ));
            assert forall|k1: int, k2: int|
                0 <= k1 < self@.len() && 0 <= k2 < self@.len() && k1 != k2 implies #[trigger] self@[k1].external_id
                != #[trigger] self@[k2].external_id by {
                if k1 < m.len() && k2 < m.len() {
                    assert(m[k1].external_id != m[k2].external_id);
                }
            }
        }
        Ok(fresh_token)
    }
}

/// With at most one account per external id, the count of accounts under
/// an id is one where the id is present and zero where it is not.
pub proof fn lemma_count_unique(m: Seq<AccountModel>, id: Seq<char>)
    requires
        wf_model(m),
    ensures
        count_with_id(m, id) == if has_id(m, id) {
            1nat
        } else {
            0nat
        },
    decreases m.len(),
{
    if m.len() > 0 {
        let head = m.drop_last();
        assert(wf_model(head)) by {
            assert(forall|j: int| 0 <= j < head.len() ==> head[j] == m[j]);
        }
        lemma_count_unique(head, id);
        if m.last().external_id == id {
            assert(!has_id(head, id)) by {
                if has_id(head, id) {
                    let k = choose|k: int|
                        0 <= k < head.len() && #[trigger] head[k].external_id == id;
                    assert(m[k].external_id == m[m.len() - 1].external_id);
                    assert(false);
                }
            }
            assert(has_id(m, id));
        } else {
            if has_id(m, id) {
                let k = choose|k: int| 0 <= k < m.len() && #[trigger] m[k].external_id == id;
                assert(k < m.len() - 1);
                assert(head[k].external_id == id);
                assert(has_id(head, id));
            } else {
                if has_id(head, id) {
                    let k = choose|k: int|
                        0 <= k < head.len() && #[trigger] head[k].external_id == id;
                    assert(m[k].external_id == id);
                    assert(false);
                }
            }
        }
    }
}

/// Resolving the same external identity twice, with any two fresh
/// tokens, returns the same session token both times, leaves the store
/// after the first resolution untouched, keeps it well formed, and ends
/// with exactly one account under that id — one more than before where
/// the id was new, none added where it was known.
pub proof fn lemma_resolve_idempotent(
    m: Seq<AccountModel>,
    id: Seq<char>,
    name: Seq<char>,
    pid: Seq<char>,
    f1: Seq<char>,
    f2: Seq<char>,
)
    requires
        wf_model(m),
    ensures
        ({
            let (m1, t1) = spec_resolve(m, id, name, pid, f1);
            let (m2, t2) = spec_resolve(m1, id, name, pid, f2);
            &&& t2 == t1
            &&& m2 == m1
            &&& wf_model(m1)
            &&& count_with_id(m1, id) == 1
            &&& m1.len() == m.len() + if has_id(m, id) {
                0int
            } else {
                1int
            }
        }),
{
    if has_id(m, id) {
        lemma_count_unique(m, id);
    } else {
        let a1 = AccountModel { external_id: id, display_name: name, platform_id: pid, session_token: f1 };
        let m1 = m.push(a1);
        assert(m1[m.len() as int].external_id == id);
        assert(has_id(m1, id));
        assert(wf_model(m1)) by {
            assert forall|k1: int, k2: int|
                0 <= k1 < m1.len() && 0 <= k2 < m1.len() && k1 != k2 implies #[trigger] m1[k1].external_id
                != #[trigger] m1[k2].external_id by {
                if k1 < m.len() && k2 < m.len() {
                    assert(m[k1].external_id != m[k2].external_id);
                } else if k1 < m.len() {
                    assert(!(m[k1].external_id == id));
                } else if k2 < m.len() {
                    assert(!(m[k2].external_id == id));
                }
            }
        }
        let k0 = choose|k: int| 0 <= k < m1.len() && #[trigger] m1[k].external_id == id;
        assert(k0 == m.len() as int) by {
            if k0 < m.len() {
                assert(m[k0].external_id == id);
            }
        }
        assert(token_for(m1, id) == f1);
        lemma_count_unique(m1, id);
    }
}

/// Two simultaneous callbacks for a brand-new external id: the store
/// serializes them into two resolutions in some order, each with its own
/// fresh token.  Both finish with the session token of whichever came
/// first, and exactly one account for the id exists afterwards.
pub proof fn lemma_concurrent_first_login(
    m: Seq<AccountModel>,
    id: Seq<char>,
    name: Seq<char>,
    pid: Seq<char>,
    f1: Seq<char>,
    f2: Seq<char>,
)
    requires
        wf_model(m),
        !has_id(m, id),
    ensures
        ({
            let (m1, t1) = spec_resolve(m, id, name, pid, f1);
            let (m2, t2) = spec_resolve(m1, id, name, pid, f2);
            &&& t1 == f1
            &&& t2 == f1
            &&& m2 == m1
            &&& m1.len() == m.len() + 1
            &&& count_with_id(m1, id) == 1
        }),
{
    lemma_resolve_idempotent(m, id, name, pid, f1, f2);
}

} // verus!
