//! The session store: sessions by identifier.

use vstd::prelude::*;
use crate::session::state::Session;
use crate::table::Table;

verus! {

/// The store of live sessions, each under the identifier it was created
/// with.
pub struct SessionManager {
    sessions: Table<Session>,
}

/// Ending a session twice is ending it once: after `destroy` the store has
/// no session under the identifier, so a second `destroy` reports that it
/// found none and leaves the store as it is. The same holds of an
/// identifier that never named a session.
pub proof fn lemma_destroy_is_idempotent(store: Map<Seq<char>, Session>, id: Seq<char>)
    ensures
        !store.remove(id).contains_key(id),
        store.remove(id).remove(id) == store.remove(id),
        !store.contains_key(id) ==> store.remove(id) == store,
{
    assert(store.remove(id).remove(id) =~= store.remove(id));
    if !store.contains_key(id) {
        assert(store.remove(id) =~= store);
    }
}

impl SessionManager {
    /// The store's internal invariant.
    pub closed spec fn wf(&self) -> bool {
        self.sessions.wf()
    }

    /// The store as a map from identifier to session.
    pub closed spec fn view(&self) -> Map<Seq<char>, Session> {
        self.sessions@
    }

    /// An empty store.
    pub fn new() -> (store: Self)
        ensures
            store.wf(),
            store@ == Map::<Seq<char>, Session>::empty(),
    {
        SessionManager { sessions: Table::new() }
    }

    /// Puts a session into the store under its own identifier, in place of
    /// any session that was there under it, and returns the identifier.
    pub fn create(&mut self, session: Session) -> (id: String)
        requires
            old(self).wf(),
        ensures
            final(self).wf(),
            id@ == session.id@,
            final(self)@ == old(self)@.insert(session.id@, session),
    {
        let id = session.id.clone();
        self.sessions.insert(id.clone(), session);
        id
    }

    /// Whether the store holds a session under `id`.
    pub fn contains(&self, id: &str) -> (found: bool)
        requires
            self.wf(),
        ensures
            found == self@.contains_key(id@),
    {
        self.sessions.get(id).is_some()
    }

    /// Runs `f` on the session under `id` and returns what it returns;
    /// `None` where there is no such session.
    pub fn with<F, R>(&self, id: &str, f: F) -> (outcome: Option<R>) where F: FnOnce(&Session) -> R
        requires
            self.wf(),
            self@.contains_key(id@) ==> f.requires((&self@[id@],)),
        ensures
            match outcome {
                Some(r) => self@.contains_key(id@) && f.ensures((&self@[id@],), r),
                None => !self@.contains_key(id@),
            },
    {
        match self.sessions.get(id) {
            Some(session) => Some(f(session)),
            None => None,
        }
    }

    /// Runs `f` on the session under `id`, which it may change, and returns
    /// what it returns; `None`, and no change, where there is no such
    /// session. No other session changes.
    pub fn with_mut<F, R>(&mut self, id: &str, f: F) -> (outcome: Option<R>) where
        F: FnOnce(&mut Session) -> R,

        requires
            old(self).wf(),
            old(self)@.contains_key(id@) ==> forall|s: &mut Session|
                *s == old(self)@[id@] ==> #[trigger] f.requires((s,)),
        ensures
            final(self).wf(),
            outcome is None ==> !old(self)@.contains_key(id@) && final(self)@ == old(self)@,
            outcome is Some ==> old(self)@.contains_key(id@),
            outcome is Some ==> exists|s: &mut Session|
                *s == old(self)@[id@] && #[trigger] f.ensures((s,), outcome->Some_0) && final(self)@
                    == old(self)@.insert(id@, *final(s)),
    {
        self.sessions.update(id, f)
    }

    /// Removes the session under `id`. Returns whether there was one.
    pub fn destroy(&mut self, id: &str) -> (found: bool)
        requires
            old(self).wf(),
        ensures
            final(self).wf(),
            found == old(self)@.contains_key(id@),
            final(self)@ == old(self)@.remove(id@),
    {
        self.sessions.remove(id).is_some()
    }
}

} // verus!
