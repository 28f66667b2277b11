//! What the signalling layer works on: the configured streams, the address
//! of the ICE server, and the registry of live sessions.

use vstd::prelude::*;
use vstd::utf8::{decode_utf8, valid_utf8};
use crate::error::{NegotiationError, SessionNotFound};
use crate::registry::{SessionRegistry, ViewerSession};
use crate::streamdef::{find_stream, has_stream, is_first_named, StreamsDef};
use crate::trusted::{fresh_session_id, text_from_utf8};

verus! {

/// The gateway's shared state.
pub struct AppContext<B, T, C> {
    /// The configured streams. Where two have one name, the first is meant.
    pub streams: Vec<StreamsDef<B, T>>,
    /// Address of the ICE server that every viewer connection is set up with.
    pub stunurl: String,
    /// The live viewer sessions.
    pub connections: SessionRegistry<C>,
}

/// What an admitted negotiation goes on with.
pub struct CreatePlan<'a, B, T> {
    /// The stream whose track is attached to the new connection.
    pub stream: &'a StreamsDef<B, T>,
    /// The ICE servers to set the connection up with.
    pub ice_servers: Vec<String>,
    /// The remote offer, as text.
    pub offer: String,
}

/// What registering a session gave.
#[derive(Debug, PartialEq, Eq)]
pub struct Registration<C> {
    /// The id of the new session.
    pub id: String,
    /// The session that stood under the same id before, if there was one.
    pub replaced: Option<ViewerSession<C>>,
}

/// How an offer for a stream name is answered before any connection is
/// opened: the name is looked at first, then the offer.
pub open spec fn admission<B, T>(streams: Seq<StreamsDef<B, T>>, name: Seq<char>, offer: Seq<u8>) -> Result<
    (),
    NegotiationError,
> {
    if !has_stream(streams, name) {
        Err(NegotiationError::StreamNotFound)
    } else if !valid_utf8(offer) {
        Err(NegotiationError::MalformedOffer)
    } else {
        Ok(())
    }
}

impl<B, T, C> AppContext<B, T, C> {
    /// The shared state at start-up: the streams given and no session.
    pub fn new(streams: Vec<StreamsDef<B, T>>, stunurl: String) -> (ctx: Self)
        ensures
            ctx.streams == streams,
            ctx.stunurl == stunurl,
            ctx.connections@ == Map::<Seq<char>, ViewerSession<C>>::empty(),
    {
        AppContext { streams, stunurl, connections: SessionRegistry::new() }
    }

    /// First half of a Create: decides whether an offer for `stream_name` is
    /// taken up, and with what. The registry is not touched.
    pub fn begin_create(&self, stream_name: &str, offer: Vec<u8>) -> (result: Result<
        CreatePlan<'_, B, T>,
        NegotiationError,
    >)
        ensures
            match admission(self.streams@, stream_name@, offer@) {
                Err(e) => result is Err && result->Err_0 == e,
                Ok(_) => {
                    &&& result is Ok
                    &&& exists|i: int|
                        is_first_named(self.streams@, stream_name@, i) && *result->Ok_0.stream
                            == self.streams@[i]
                    &&& result->Ok_0.ice_servers@ == seq![self.stunurl]
                    &&& result->Ok_0.offer@ == decode_utf8(offer@)
                },
            },
    {
        let place = find_stream(self.streams.as_slice(), stream_name);
        match place {
            None => Err(NegotiationError::StreamNotFound),
            Some(i) => {
                assert(has_stream(self.streams@, stream_name@));
                match text_from_utf8(offer) {
                    None => Err(NegotiationError::MalformedOffer),
                    Some(text) => {
                        let mut ice_servers: Vec<String> = Vec::new();
                        ice_servers.push(self.stunurl.clone());
                        assert(ice_servers@ =~= seq![self.stunurl]);
                        Ok(CreatePlan { stream: &self.streams[i], ice_servers, offer: text })
                    },
                }
            },
        }
    }

    /// Puts a negotiated connection into the registry under the id given.
    /// A session that stood under that id leaves the registry and is handed
    /// back.
    pub fn register(&mut self, stream_name: String, id: String, connection: C) -> (replaced: Option<
        ViewerSession<C>,
    >)
        ensures
            final(self).connections@ == old(self).connections@.insert(
                id@,
                (ViewerSession { id, connection, stream_name }),
            ),
            replaced == if old(self).connections@.contains_key(id@) {
                Some(old(self).connections@[id@])
            } else {
                None
            },
            final(self).streams == old(self).streams,
            final(self).stunurl == old(self).stunurl,
    {
        self.connections.insert(ViewerSession { id, connection, stream_name })
    }

    /// Second half of a Create: gives the negotiated connection a fresh id
    /// and registers it under that id.
    pub fn finish_create(&mut self, stream_name: String, connection: C) -> (done: Registration<C>)
        ensures
            final(self).connections@ == old(self).connections@.insert(
                done.id@,
                (ViewerSession { id: done.id, connection, stream_name }),
            ),
            done.replaced == if old(self).connections@.contains_key(done.id@) {
                Some(old(self).connections@[done.id@])
            } else {
                None
            },
            final(self).streams == old(self).streams,
            final(self).stunurl == old(self).stunurl,
    {
        let id = fresh_session_id();
        let replaced = self.register(stream_name, id.clone(), connection);
        Registration { id, replaced }
    }

    /// Teardown: takes the session with the id given out of the registry and
    /// hands it back, for its connection to be closed. Where no session has
    /// that id, the registry stays as it is.
    pub fn teardown(&mut self, id: &str) -> (result: Result<ViewerSession<C>, SessionNotFound>)
        ensures
            match result {
                Ok(session) => old(self).connections@.contains_key(id@) && session == old(
                    self,
                ).connections@[id@] && final(self).connections@ == old(self).connections@.remove(
                    id@,
                ),
                Err(_) => !old(self).connections@.contains_key(id@) && final(self).connections@
                    == old(self).connections@,
            },
            final(self).streams == old(self).streams,
            final(self).stunurl == old(self).stunurl,
    {
        match self.connections.remove(id) {
            Some(session) => Ok(session),
            None => Err(SessionNotFound),
        }
    }

    /// Enumerate: the live sessions, each once.
    pub fn peers(&self) -> (sessions: &[ViewerSession<C>])
        ensures
            crate::registry::ids_unique(sessions@),
            self.connections@ == crate::registry::sessions_of(sessions@),
    {
        self.connections.enumerate()
    }
}

/// A Create for a name that no stream has is refused as `StreamNotFound`,
/// whatever the offer holds. It ends at `begin_create`, which cannot change
/// the registry.
pub proof fn lemma_unknown_stream_refused<B, T>(
    streams: Seq<StreamsDef<B, T>>,
    name: Seq<char>,
    offer: Seq<u8>,
)
    requires
        !has_stream(streams, name),
    ensures
        admission(streams, name, offer) == Err::<(), NegotiationError>(
            NegotiationError::StreamNotFound,
        ),
{
}

/// Registering a session under an id that was free, and tearing that id
/// down at once, gives the registry back as it was: empty where it was
/// empty. The teardown finds the session that was registered.
pub proof fn lemma_create_then_teardown<C>(
    sessions: Map<Seq<char>, ViewerSession<C>>,
    session: ViewerSession<C>,
)
    requires
        !sessions.contains_key(session.id@),
    ensures
        sessions.insert(session.id@, session).contains_key(session.id@),
        sessions.insert(session.id@, session)[session.id@] == session,
        sessions.insert(session.id@, session).remove(session.id@) == sessions,
{
    assert(sessions.insert(session.id@, session).remove(session.id@) =~= sessions);
}

/// Tearing down an id under which no session is live leaves the registry
/// as it was.
pub proof fn lemma_teardown_unknown<C>(sessions: Map<Seq<char>, ViewerSession<C>>, id: Seq<char>)
    requires
        !sessions.contains_key(id),
    ensures
        sessions.remove(id) == sessions,
{
    assert(sessions.remove(id) =~= sessions);
}

/// Two registrations under different ids give two entries, each holding its
/// own session, whichever of the two comes first; every other entry stays.
pub proof fn lemma_two_creates_distinct<C>(
    sessions: Map<Seq<char>, ViewerSession<C>>,
    first: ViewerSession<C>,
    second: ViewerSession<C>,
)
    requires
        first.id@ != second.id@,
    ensures
        sessions.insert(first.id@, first).insert(second.id@, second) == sessions.insert(
            second.id@,
            second,
        ).insert(first.id@, first),
        sessions.insert(first.id@, first).insert(second.id@, second).contains_key(first.id@),
        sessions.insert(first.id@, first).insert(second.id@, second).contains_key(second.id@),
        sessions.insert(first.id@, first).insert(second.id@, second)[first.id@] == first,
        sessions.insert(first.id@, first).insert(second.id@, second)[second.id@] == second,
        forall|id: Seq<char>|
            id != first.id@ && id != second.id@ ==> (sessions.insert(first.id@, first).insert(
                second.id@,
                second,
            ).contains_key(id) <==> sessions.contains_key(id)),
{
    assert(sessions.insert(first.id@, first).insert(second.id@, second) =~= sessions.insert(
        second.id@,
        second,
    ).insert(first.id@, first));
}

} // verus!
