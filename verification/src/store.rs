//! The session store: every session ever created, found by its identifier.

use crate::ident::{fresh_token, id_of_token, is_token, session_id};
use crate::session::{
    coherent, pending_session, settled, Fault, FaultView, Outcome, SessionView, Status,
    VerificationSession,
};
use crate::text::push_char;
use vstd::prelude::*;
use vstd::string::*;

verus! {

/// Keyed storage of verification sessions. Sessions are never removed.
///
/// The store is a plain value: whoever shares it among tasks guards it with
/// a lock, and the exclusive borrow of the writing operations then makes
/// them atomic.
pub struct SessionStore {
    sessions: Vec<VerificationSession>,
}

/// Position `i` of `s` holds the session with identifier `id`.
spec fn held_at(s: Seq<VerificationSession>, i: int, id: Seq<char>) -> bool {
    0 <= i < s.len() && s[i].id@ == id
}

/// `n` characters `'0'`: what widens an identifier that is taken.
pub open spec fn padding(n: nat) -> Seq<char> {
    Seq::new(n, |i: int| '0')
}

/// `id` is what the store assigns for `candidate` when the identifiers in
/// `taken` are in use: the candidate followed by as few `'0'` as make it
/// fresh.
pub open spec fn assigned(taken: Set<Seq<char>>, candidate: Seq<char>, id: Seq<char>) -> bool {
    &&& id.len() >= candidate.len()
    &&& id == candidate + padding((id.len() - candidate.len()) as nat)
    &&& !taken.contains(id)
    &&& forall|k: nat|
        k < id.len() - candidate.len() ==> taken.contains(#[trigger] (candidate + padding(k)))
}

/// The session filed under `id` exists and is still pending.
pub open spec fn can_settle(m: Map<Seq<char>, SessionView>, id: Seq<char>) -> bool {
    m.dom().contains(id) && m[id].status == Status::Pending
}

/// The store after an attempt to settle `id` with `outcome`: a pending
/// session becomes terminal, and in every other case nothing changes.
pub open spec fn after_settling(
    m: Map<Seq<char>, SessionView>,
    id: Seq<char>,
    outcome: Outcome,
) -> Map<Seq<char>, SessionView> {
    if can_settle(m, id) {
        m.insert(id, settled(m[id], outcome))
    } else {
        m
    }
}

/// Why `id` cannot be settled, where it cannot.
pub open spec fn refusal(m: Map<Seq<char>, SessionView>, id: Seq<char>) -> FaultView {
    if m.dom().contains(id) {
        FaultView::AlreadyResolved
    } else {
        FaultView::NotFound
    }
}

impl SessionStore {
    /// No two stored sessions share an identifier, and each stored session
    /// is coherent.
    pub closed spec fn wf(&self) -> bool {
        &&& forall|i: int, j: int|
            0 <= i < self.sessions@.len() && 0 <= j < self.sessions@.len()
                && #[trigger] self.sessions@[i].id@ == #[trigger] self.sessions@[j].id@ ==> i == j
        &&& forall|i: int|
            0 <= i < self.sessions@.len() ==> coherent(#[trigger] self.sessions@[i]@)
    }

    /// The store as a map from identifier to session.
    pub closed spec fn view(&self) -> Map<Seq<char>, SessionView> {
        Map::new(
            |id: Seq<char>| exists|i: int| held_at(self.sessions@, i, id),
            |id: Seq<char>| self.sessions@[choose|i: int| held_at(self.sessions@, i, id)]@,
        )
    }

    /// Each session is filed under its own identifier, and is coherent.
    pub proof fn lemma_entries(&self)
        requires
            self.wf(),
        ensures
            forall|id: Seq<char>| #[trigger]
                self@.dom().contains(id) ==> self@[id].id == id && coherent(self@[id]),
    {
        assert forall|id: Seq<char>| #[trigger] self@.dom().contains(id) implies self@[id].id == id
            && coherent(self@[id]) by {
            let i = choose|i: int| held_at(self.sessions@, i, id);
            assert(held_at(self.sessions@, i, id));
        }
    }

    proof fn lemma_found(&self, id: Seq<char>) -> (i: int)
        requires
            self@.dom().contains(id),
        ensures
            held_at(self.sessions@, i, id),
            self@[id] == self.sessions@[i]@,
    {
        let i = choose|i: int| held_at(self.sessions@, i, id);
        assert(held_at(self.sessions@, i, id));
        i
    }

    proof fn lemma_id_bound(&self, n: int) -> (bound: nat)
        requires
            0 <= n <= self.sessions@.len(),
        ensures
            forall|i: int| 0 <= i < n ==> (#[trigger] self.sessions@[i]).id@.len() <= bound,
        decreases n,
    {
        if n == 0 {
            0
        } else {
            let rest = self.lemma_id_bound(n - 1);
            let last = self.sessions@[n - 1].id@.len();
            if last > rest {
                last
            } else {
                rest
            }
        }
    }

    /// An empty store.
    pub fn new() -> (store: SessionStore)
        ensures
            store.wf(),
            store@ == Map::<Seq<char>, SessionView>::empty(),
    {
        let store = SessionStore { sessions: Vec::new() };
        assert(store@ =~= Map::<Seq<char>, SessionView>::empty()) by {
            assert forall|id: Seq<char>| !store@.dom().contains(id) by {
                if store@.dom().contains(id) {
                    let i = choose|i: int| held_at(store.sessions@, i, id);
                    assert(held_at(store.sessions@, i, id));
                }
            }
        }
        store
    }

    /// Number of sessions in the store.
    pub fn len(&self) -> (n: usize)
        requires
            self.wf(),
        ensures
            n == self@.dom().len(),
            self@.dom().finite(),
    {
        proof {
            self.lemma_count();
        }
        self.sessions.len()
    }

    proof fn lemma_count(&self)
        requires
            self.wf(),
        ensures
            self@.dom().finite(),
            self@.dom().len() == self.sessions@.len(),
    {
        let ids = self.sessions@.map_values(|s: VerificationSession| s.id@);
        assert(ids.no_duplicates()) by {
            assert forall|i: int, j: int| 0 <= i < ids.len() && 0 <= j < ids.len() && i != j implies ids[i] != ids[j] by {
                if self.sessions@[i].id@ == self.sessions@[j].id@ {
                    assert(i == j);
                }
            }
        }
        ids.unique_seq_to_set();
        assert(ids.to_set() =~= self@.dom()) by {
            assert forall|id: Seq<char>| ids.to_set().contains(id) <==> self@.dom().contains(id) by {
                if ids.to_set().contains(id) {
                    let i = choose|i: int| 0 <= i < ids.len() && ids[i] == id;
                    assert(held_at(self.sessions@, i, id));
                }
                if self@.dom().contains(id) {
                    let i = choose|i: int| held_at(self.sessions@, i, id);
                    assert(held_at(self.sessions@, i, id));
                    assert(ids[i] == id);
                }
            }
        }
    }

    /// Where the session with identifier `id` is held, if anywhere.
    fn position(&self, id: &String) -> (at: Option<usize>)
        requires
            self.wf(),
        ensures
            match at {
                Some(i) => held_at(self.sessions@, i as int, id@),
                None => !self@.dom().contains(id@),
            },
            at.is_some() == self@.dom().contains(id@),
            at.is_some() ==> self@[id@] == self.sessions@[at.unwrap() as int]@,
    {
        let mut i: usize = 0;
        while i < self.sessions.len()
            invariant
                self.wf(),
                i <= self.sessions@.len(),
                forall|k: int| 0 <= k < i ==> !held_at(self.sessions@, k, id@),
            decreases self.sessions@.len() - i,
        {
            if self.sessions[i].id == *id {
                proof {
                    assert(held_at(self.sessions@, i as int, id@));
                    let j = choose|j: int| held_at(self.sessions@, j, id@);
                    assert(held_at(self.sessions@, j, id@));
                    assert(j == i);
                }
                return Some(i);
            }
            i += 1;
        }
        proof {
            if self@.dom().contains(id@) {
                let j = choose|j: int| held_at(self.sessions@, j, id@);
                assert(held_at(self.sessions@, j, id@));
            }
        }
        None
    }

    /// Whether a session with this identifier exists.
    pub fn contains(&self, id: &str) -> (found: bool)
        requires
            self.wf(),
        ensures
            found == self@.dom().contains(id@),
    {
        let key = String::from_str(id);
        self.position(&key).is_some()
    }

    /// Looks a session up. Reads only.
    pub fn get(&self, id: &str) -> (found: Result<VerificationSession, Fault>)
        requires
            self.wf(),
        ensures
            match found {
                Ok(session) => self@.dom().contains(id@) && session@ == self@[id@],
                Err(fault) => !self@.dom().contains(id@) && fault@ == FaultView::NotFound,
            },
    {
        let key = String::from_str(id);
        match self.position(&key) {
            Some(i) => Ok(self.sessions[i].duplicate()),
            None => Err(Fault::NotFound),
        }
    }

    /// Files a new pending session under the identifier made from `token`.
    /// Where that identifier is taken, it is widened by `'0'` until it is
    /// fresh, so the call always succeeds and never hands out an identifier
    /// twice.
    pub fn create_with_token(&mut self, token: &str, min_age: u32, callback_url: &str) -> (id:
        String)
        requires
            old(self).wf(),
        ensures
            final(self).wf(),
            assigned(old(self)@.dom(), id_of_token(token@), id@),
            !old(self)@.dom().contains(id@),
            final(self)@ == old(self)@.insert(id@, pending_session(id@, min_age, callback_url@)),
    {
        let mut id = session_id(token);
        let ghost candidate = id@;
        let ghost before = self@;
        let ghost bound = self.lemma_id_bound(self.sessions@.len() as int);
        assert(id@ =~= candidate + padding(0));
        let mut at = self.position(&id);
        while at.is_some()
            invariant
                self.wf(),
                self@ == before,
                id@.len() >= candidate.len(),
                id@ == candidate + padding((id@.len() - candidate.len()) as nat),
                forall|k: nat|
                    k < id@.len() - candidate.len() ==> before.dom().contains(
                        #[trigger] (candidate + padding(k)),
                    ),
                at.is_some() == before.dom().contains(id@),
                forall|i: int|
                    0 <= i < self.sessions@.len() ==> (#[trigger] self.sessions@[i]).id@.len()
                        <= bound,
            decreases bound + 1 - id@.len(),
        {
            proof {
                let j = self.lemma_found(id@);
                assert(self.sessions@[j].id@.len() <= bound);
            }
            let ghost shorter = id@;
            push_char(&mut id, '0');
            proof {
                let n = (shorter.len() - candidate.len()) as nat;
                assert(id@ =~= candidate + padding(n + 1));
                assert forall|k: nat| k < id@.len() - candidate.len() implies before.dom().contains(
                    #[trigger] (candidate + padding(k)),
                ) by {
                    if k == n {
                        assert(candidate + padding(k) == shorter);
                    }
                }
            }
            at = self.position(&id);
        }
        let ghost held = self.sessions@;
        let session = VerificationSession {
            id: id.clone(),
            min_age,
            callback_url: String::from_str(callback_url),
            status: Status::Pending,
            verified: None,
        };
        self.sessions.push(session);
        proof {
            let now = self.sessions@;
            assert forall|i: int, j: int|
                0 <= i < now.len() && 0 <= j < now.len() && now[i].id@ == now[j].id@ implies i
                == j by {
                if i < held.len() {
                    assert(held_at(held, i, now[i].id@));
                }
                if j < held.len() {
                    assert(held_at(held, j, now[j].id@));
                }
            }
            assert(self.wf());
            let want = before.insert(id@, pending_session(id@, min_age, callback_url@));
            assert forall|key: Seq<char>| #[trigger] self@.dom().contains(key) implies want.dom().contains(key)
                && self@[key] == want[key] by {
                let i = self.lemma_found(key);
                if i < held.len() {
                    assert(held_at(held, i, key));
                    let j = choose|j: int| held_at(held, j, key);
                    assert(held_at(held, j, key));
                }
            }
            assert forall|key: Seq<char>| #[trigger] want.dom().contains(key) implies self@.dom().contains(key) by {
                if key == id@ {
                    assert(held_at(now, held.len() as int, key));
                } else {
                    let j = choose|j: int| held_at(held, j, key);
                    assert(held_at(held, j, key));
                    assert(held_at(now, j, key));
                }
            }
            assert(self@ =~= want);
        }
        id
    }

    /// Files a new pending session under an identifier made from a token
    /// drawn at random. Never fails, and the identifier is one that the
    /// store has not handed out before, whatever was drawn.
    pub fn create(&mut self, min_age: u32, callback_url: &str) -> (id: String)
        requires
            old(self).wf(),
        ensures
            final(self).wf(),
            !old(self)@.dom().contains(id@),
            final(self)@ == old(self)@.insert(id@, pending_session(id@, min_age, callback_url@)),
            exists|token: Seq<char>| #[trigger]
                is_token(token) && assigned(old(self)@.dom(), id_of_token(token), id@),
    {
        let token = fresh_token();
        self.create_with_token(token.as_str(), min_age, callback_url)
    }

    /// Settles the session filed under `id`. This is the one place where a
    /// session leaves `Pending`: a session that has left it before is
    /// refused, and so is an unknown identifier. A refusal changes nothing.
    pub fn mark_resolved(&mut self, id: &str, outcome: Outcome) -> (done: Result<
        VerificationSession,
        Fault,
    >)
        requires
            old(self).wf(),
        ensures
            final(self).wf(),
            final(self)@ == after_settling(old(self)@, id@, outcome),
            match done {
                Ok(session) => can_settle(old(self)@, id@) && session@ == settled(
                    old(self)@[id@],
                    outcome,
                ),
                Err(fault) => !can_settle(old(self)@, id@) && fault@ == refusal(old(self)@, id@),
            },
    {
        let key = String::from_str(id);
        let ghost before = self@;
        let ghost held = self.sessions@;
        match self.position(&key) {
            None => Err(Fault::NotFound),
            Some(i) => {
                if self.sessions[i].status == Status::Pending {
                    let next = self.sessions[i].settle(outcome);
                    let copy = next.duplicate();
                    self.sessions.set(i, next);
                    proof {
                        let now = self.sessions@;
                        assert forall|a: int, b: int|
                            0 <= a < now.len() && 0 <= b < now.len() && now[a].id@ == now[b].id@ implies a
                            == b by {
                            assert(now[a].id@ == held[a].id@);
                            assert(now[b].id@ == held[b].id@);
                        }
                        assert(self.wf());
                        let want = before.insert(id@, copy@);
                        assert forall|k: Seq<char>| #[trigger] self@.dom().contains(k) implies want.dom().contains(k)
                            && self@[k] == want[k] by {
                            let j = self.lemma_found(k);
                            assert(held[j].id@ == now[j].id@);
                            assert(held_at(held, j, k));
                            let c = choose|c: int| held_at(held, c, k);
                            assert(held_at(held, c, k));
                        }
                        assert forall|k: Seq<char>| #[trigger] want.dom().contains(k) implies self@.dom().contains(k) by {
                            if k == id@ {
                                assert(held_at(now, i as int, k));
                            } else {
                                let j = choose|j: int| held_at(held, j, k);
                                assert(held_at(held, j, k));
                                assert(held[j].id@ == now[j].id@);
                                assert(held_at(now, j, k));
                            }
                        }
                        assert(self@ =~= want);
                    }
                    Ok(copy)
                } else {
                    Err(Fault::AlreadyResolved)
                }
            },
        }
    }
}

} // verus!
