//! The registry of live viewer sessions.

use vstd::prelude::*;

verus! {

/// One negotiated viewer connection. `C` is the handle of the connection
/// itself, which the registry only keeps and hands back.
#[derive(Debug, PartialEq, Eq)]
pub struct ViewerSession<C> {
    /// The session's id, made anew for each negotiation.
    pub id: String,
    /// The negotiated connection.
    pub connection: C,
    /// Name of the stream that the viewer watches.
    pub stream_name: String,
}

/// Whether some entry has the id given.
pub open spec fn holds_id<C>(entries: Seq<ViewerSession<C>>, id: Seq<char>) -> bool {
    exists|i: int| 0 <= i < entries.len() && #[trigger] entries[i].id@ == id
}

/// The place of an entry that has the id given.
pub open spec fn place_of<C>(entries: Seq<ViewerSession<C>>, id: Seq<char>) -> int {
    choose|i: int| 0 <= i < entries.len() && #[trigger] entries[i].id@ == id
}

/// No id occurs twice.
pub open spec fn ids_unique<C>(entries: Seq<ViewerSession<C>>) -> bool {
    forall|i: int, j: int|
        0 <= i < j < entries.len() ==> #[trigger] entries[i].id@ != #[trigger] entries[j].id@
}

/// The entries as a map from id to session.
pub open spec fn sessions_of<C>(entries: Seq<ViewerSession<C>>) -> Map<
    Seq<char>,
    ViewerSession<C>,
> {
    Map::new(
        |id: Seq<char>| holds_id(entries, id),
        |id: Seq<char>| entries[place_of(entries, id)],
    )
}

/// Each entry is what the map holds under the entry's id.
pub proof fn lemma_entry_in_map<C>(entries: Seq<ViewerSession<C>>, i: int)
    requires
        ids_unique(entries),
        0 <= i < entries.len(),
    ensures
        sessions_of(entries).contains_key(entries[i].id@),
        sessions_of(entries)[entries[i].id@] == entries[i],
{
    let id = entries[i].id@;
    assert(holds_id(entries, id));
    let k = place_of(entries, id);
    assert(k == i) by {
        if k < i {
            assert(entries[k].id@ != entries[i].id@);
        } else if i < k {
            assert(entries[i].id@ != entries[k].id@);
        }
    }
}

/// An entry with a new id, put at the end, is one more key of the map.
pub proof fn lemma_push_entry<C>(entries: Seq<ViewerSession<C>>, session: ViewerSession<C>)
    requires
        ids_unique(entries),
        !holds_id(entries, session.id@),
    ensures
        ids_unique(entries.push(session)),
        sessions_of(entries.push(session)) == sessions_of(entries).insert(session.id@, session),
{
    let after = entries.push(session);
    assert(ids_unique(after)) by {
        assert forall|i: int, j: int| 0 <= i < j < after.len() implies #[trigger] after[i].id@
            != #[trigger] after[j].id@ by {
            if j < entries.len() {
                assert(entries[i].id@ != entries[j].id@);
            } else {
                assert(entries[i].id@ != session.id@);
            }
        }
    }
    let want = sessions_of(entries).insert(session.id@, session);
    assert forall|id: Seq<char>| sessions_of(after).contains_key(id) <==> want.contains_key(
        id,
    ) by {
        if holds_id(after, id) {
            let k = place_of(after, id);
            if k < entries.len() {
                assert(entries[k].id@ == id);
            }
        }
        if holds_id(entries, id) {
            let k = place_of(entries, id);
            assert(after[k].id@ == id);
        }
        if id == session.id@ {
            assert(after[entries.len() as int].id@ == id);
        }
    }
    assert forall|id: Seq<char>| sessions_of(after).contains_key(id) implies sessions_of(after)[id]
        == want[id] by {
        let k = place_of(after, id);
        lemma_entry_in_map(after, k);
        if k < entries.len() {
            assert(entries[k].id@ == id);
            lemma_entry_in_map(entries, k);
        }
    }
    assert(sessions_of(after) =~= want);
}

/// Taking an entry out takes its id out of the map and leaves the rest.
pub proof fn lemma_remove_entry<C>(entries: Seq<ViewerSession<C>>, i: int)
    requires
        ids_unique(entries),
        0 <= i < entries.len(),
    ensures
        ids_unique(entries.remove(i)),
        sessions_of(entries.remove(i)) == sessions_of(entries).remove(entries[i].id@),
{
    let after = entries.remove(i);
    let gone = entries[i].id@;
    assert forall|a: int| 0 <= a < after.len() implies #[trigger] after[a] == entries[if a < i {
        a
    } else {
        a + 1
    }] by {}
    assert(ids_unique(after)) by {
        assert forall|a: int, b: int| 0 <= a < b < after.len() implies #[trigger] after[a].id@
            != #[trigger] after[b].id@ by {
            let a0 = if a < i { a } else { a + 1 };
            let b0 = if b < i { b } else { b + 1 };
            assert(entries[a0].id@ != entries[b0].id@);
        }
    }
    let want = sessions_of(entries).remove(gone);
    assert forall|id: Seq<char>| sessions_of(after).contains_key(id) <==> want.contains_key(
        id,
    ) by {
        if holds_id(after, id) {
            let k = place_of(after, id);
            let k0 = if k < i { k } else { k + 1 };
            assert(entries[k0].id@ == id);
            if k0 < i {
                assert(entries[k0].id@ != entries[i].id@);
            } else {
                assert(entries[i].id@ != entries[k0].id@);
            }
        }
        if holds_id(entries, id) && id != gone {
            let k = place_of(entries, id);
            let k1 = if k < i { k } else { k - 1 };
            assert(after[k1].id@ == id);
        }
    }
    assert forall|id: Seq<char>| sessions_of(after).contains_key(id) implies sessions_of(after)[id]
        == want[id] by {
        let k = place_of(after, id);
        let k0 = if k < i { k } else { k + 1 };
        lemma_entry_in_map(after, k);
        lemma_entry_in_map(entries, k0);
    }
    assert(sessions_of(after) =~= want);
}

/// The live viewer sessions, each under its id.
pub struct SessionRegistry<C> {
    entries: Vec<ViewerSession<C>>,
}

impl<C> View for SessionRegistry<C> {
    type V = Map<Seq<char>, ViewerSession<C>>;

    closed spec fn view(&self) -> Map<Seq<char>, ViewerSession<C>> {
        sessions_of(self.entries@)
    }
}

impl<C> SessionRegistry<C> {
    #[verifier::type_invariant]
    spec fn well_formed(&self) -> bool {
        ids_unique(self.entries@)
    }

    /// A registry without sessions.
    pub fn new() -> (registry: Self)
        ensures
            registry@ == Map::<Seq<char>, ViewerSession<C>>::empty(),
    {
        let registry = SessionRegistry { entries: Vec::new() };
        assert(registry@ =~= Map::<Seq<char>, ViewerSession<C>>::empty());
        registry
    }

    /// Where the session with the id given stands, if there is one.
    fn position(&self, id: &String) -> (place: Option<usize>)
        ensures
            match place {
                Some(i) => i < self.entries@.len() && self.entries@[i as int].id@ == id@,
                None => !holds_id(self.entries@, id@),
            },
    {
        let mut i: usize = 0;
        while i < self.entries.len()
            invariant
                i <= self.entries@.len(),
                forall|k: int| 0 <= k < i ==> (#[trigger] self.entries@[k]).id@ != id@,
            decreases self.entries@.len() - i,
        {
            if self.entries[i].id == *id {
                return Some(i);
            }
            i += 1;
        }
        None
    }

    /// Whether a session with the id given is live.
    pub fn contains(&self, id: &str) -> (found: bool)
        ensures
            found == self@.contains_key(id@),
    {
        let key: String = id.to_owned();
        self.position(&key).is_some()
    }

    /// The session with the id given, if it is live.
    pub fn get(&self, id: &str) -> (found: Option<&ViewerSession<C>>)
        ensures
            match found {
                Some(session) => self@.contains_key(id@) && *session == self@[id@],
                None => !self@.contains_key(id@),
            },
    {
        proof {
            use_type_invariant(&*self);
        }
        let key: String = id.to_owned();
        match self.position(&key) {
            Some(i) => {
                proof {
                    lemma_entry_in_map(self.entries@, i as int);
                }
                Some(&self.entries[i])
            },
            None => None,
        }
    }

    /// Puts a session under its id. A session that stood under the same id
    /// leaves the registry and is handed back.
    pub fn insert(&mut self, session: ViewerSession<C>) -> (replaced: Option<ViewerSession<C>>)
        ensures
            final(self)@ == old(self)@.insert(session.id@, session),
            replaced == if old(self)@.contains_key(session.id@) {
                Some(old(self)@[session.id@])
            } else {
                None
            },
    {
        proof {
            use_type_invariant(&*self);
        }
        let place = self.position(&session.id);
        let mut entries: Vec<ViewerSession<C>> = Vec::new();
        std::mem::swap(&mut entries, &mut self.entries);
        let ghost before = entries@;
        let replaced = match place {
            Some(i) => {
                proof {
                    lemma_entry_in_map(before, i as int);
                    lemma_remove_entry(before, i as int);
                }
                Some(entries.remove(i))
            },
            None => None,
        };
        proof {
            let mid = entries@;
            assert(!holds_id(mid, session.id@)) by {
                if place is Some {
                    assert(!sessions_of(before).remove(session.id@).contains_key(session.id@));
                }
            }
            lemma_push_entry(mid, session);
            assert(sessions_of(mid).insert(session.id@, session) =~= sessions_of(before).insert(
                session.id@,
                session,
            ));
        }
        entries.push(session);
        self.entries = entries;
        replaced
    }

    /// Takes the session with the id given out of the registry and hands it
    /// back. Where there is none, the registry stays as it is.
    pub fn remove(&mut self, id: &str) -> (removed: Option<ViewerSession<C>>)
        ensures
            final(self)@ == old(self)@.remove(id@),
            removed == if old(self)@.contains_key(id@) {
                Some(old(self)@[id@])
            } else {
                None
            },
    {
        proof {
            use_type_invariant(&*self);
        }
        let key: String = id.to_owned();
        match self.position(&key) {
            Some(i) => {
                let mut entries: Vec<ViewerSession<C>> = Vec::new();
                std::mem::swap(&mut entries, &mut self.entries);
                proof {
                    lemma_entry_in_map(entries@, i as int);
                    lemma_remove_entry(entries@, i as int);
                }
                let removed = entries.remove(i);
                self.entries = entries;
                Some(removed)
            },
            None => {
                assert(old(self)@.remove(id@) =~= old(self)@);
                None
            },
        }
    }

    /// The live sessions, each once.
    pub fn enumerate(&self) -> (sessions: &[ViewerSession<C>])
        ensures
            ids_unique(sessions@),
            self@ == sessions_of(sessions@),
    {
        proof {
            use_type_invariant(&*self);
        }
        self.entries.as_slice()
    }
}

} // verus!
