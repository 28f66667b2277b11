//! The calls whose contracts are taken on trust.

use vstd::prelude::*;
use vstd::utf8::{decode_utf8, valid_utf8};
use crate::frame::{DataFrame, FrameView};
use crate::sink::BusEvent;
use crate::source::{transport_named, TransportKind};
use tokio::sync::broadcast::{Receiver, Sender};

verus! {

/// `uuid::Uuid::new_v4`, written out as text. The id is random, so nothing
/// is claimed of it.
#[verifier::external_body]
pub(crate) fn fresh_session_id() -> (id: String) {
    uuid::Uuid::new_v4().to_string()
}

/// `String::from_utf8`: the bytes as text where they are well-formed UTF-8,
/// and nothing where they are not.
#[verifier::external_body]
pub(crate) fn text_from_utf8(bytes: Vec<u8>) -> (text: Option<String>)
    ensures
        match text {
            Some(s) => valid_utf8(bytes@) && s@ == decode_utf8(bytes@),
            None => !valid_utf8(bytes@),
        },
{
    String::from_utf8(bytes).ok()
}

/// `retina::client::Transport::from_str`: `tcp` and `udp` name the two
/// transports, and no other text names one.
#[verifier::external_body]
pub(crate) fn parse_transport_name(name: &str) -> (kind: Option<TransportKind>)
    ensures
        kind == transport_named(name@),
{
    match name.parse::<retina::client::Transport>() {
        Ok(retina::client::Transport::Tcp(_)) => Some(TransportKind::Tcp),
        Ok(retina::client::Transport::Udp(_)) => Some(TransportKind::Udp),
        _ => None,
    }
}

/// `retina::client::Transport::default`: the transport asked for where none
/// is named, which is TCP.
#[verifier::external_body]
pub(crate) fn default_transport() -> (kind: TransportKind)
    ensures
        kind == TransportKind::Tcp,
{
    match retina::client::Transport::default() {
        retina::client::Transport::Udp(_) => TransportKind::Udp,
        _ => TransportKind::Tcp,
    }
}

/// The sending half of `tokio::sync::broadcast`'s channel.
#[verifier::external_type_specification]
#[verifier::external_body]
#[verifier::reject_recursive_types(T)]
pub struct ExBroadcastSender<T>(tokio::sync::broadcast::Sender<T>);

/// A receiving half of `tokio::sync::broadcast`'s channel.
#[verifier::external_type_specification]
#[verifier::external_body]
#[verifier::reject_recursive_types(T)]
pub struct ExBroadcastReceiver<T>(tokio::sync::broadcast::Receiver<T>);

/// Every frame that was sent on the channel, oldest first.
pub uninterp spec fn bus_published(tx: Sender<DataFrame>) -> Seq<FrameView>;

/// How many frames the channel keeps for receivers that lag.
pub uninterp spec fn bus_room(tx: Sender<DataFrame>) -> nat;

/// How many receivers were made for the channel.
pub uninterp spec fn bus_receivers(tx: Sender<DataFrame>) -> nat;

/// How many of the frames sent on its channel the receiver has passed.
pub uninterp spec fn bus_cursor(rx: Receiver<DataFrame>) -> nat;

/// Whether the receiver belongs to the sender's channel.
pub uninterp spec fn bus_feeds(tx: Sender<DataFrame>, rx: Receiver<DataFrame>) -> bool;

/// `tokio::sync::broadcast::channel`: a new channel and its first receiver.
/// Nothing has been sent on it; it keeps at least `capacity` frames, because
/// the capacity is rounded up to a power of two. The call panics on a
/// capacity of zero or of more than `usize::MAX / 2`.
#[verifier::external_body]
pub(crate) fn bus_channel(capacity: usize) -> (ends: (Sender<DataFrame>, Receiver<DataFrame>))
    requires
        0 < capacity <= usize::MAX / 2,
    ensures
        bus_published(ends.0) == Seq::<FrameView>::empty(),
        bus_room(ends.0) >= capacity,
        bus_receivers(ends.0) == 1,
        bus_cursor(ends.1) == 0,
        bus_feeds(ends.0, ends.1),
{
    tokio::sync::broadcast::channel(capacity)
}

/// `Sender::send`: the frame is the newest of the frames sent. No receiver
/// is touched. (Where the channel has no receiver the frame is dropped at
/// once; a receiver made later starts behind it either way.)
#[verifier::external_body]
pub(crate) fn bus_send(tx: &mut Sender<DataFrame>, frame: DataFrame)
    ensures
        bus_published(*final(tx)) == bus_published(*old(tx)).push(frame@),
        bus_room(*final(tx)) == bus_room(*old(tx)),
        bus_receivers(*final(tx)) == bus_receivers(*old(tx)),
        forall|rx: Receiver<DataFrame>| bus_feeds(*old(tx), rx) ==> bus_feeds(*final(tx), rx),
{
    let _ = tx.send(frame);
}

/// `Sender::subscribe`: a new receiver, which gets the frames that are sent
/// after this call. The call panics once `usize::MAX / 4` receivers exist.
#[verifier::external_body]
pub(crate) fn bus_subscribe(tx: &mut Sender<DataFrame>) -> (rx: Receiver<DataFrame>)
    requires
        bus_receivers(*old(tx)) < usize::MAX / 4,
    ensures
        bus_cursor(rx) == bus_published(*old(tx)).len(),
        bus_feeds(*final(tx), rx),
        bus_published(*final(tx)) == bus_published(*old(tx)),
        bus_room(*final(tx)) == bus_room(*old(tx)),
        bus_receivers(*final(tx)) == bus_receivers(*old(tx)) + 1,
        forall|other: Receiver<DataFrame>|
            bus_feeds(*old(tx), other) ==> bus_feeds(*final(tx), other),
{
    tx.subscribe()
}

/// `Receiver::try_recv`, on a receiver of the channel whose sender is given.
/// A receiver that has passed every frame gets nothing. One that is behind
/// by no more than the channel keeps gets a copy of the next frame and
/// passes it. One that is further behind is told how many frames it has
/// missed and stands at the oldest frame that is kept. While a sender
/// lives the channel is not closed.
#[verifier::external_body]
pub(crate) fn bus_try_recv(rx: &mut Receiver<DataFrame>, tx: &Sender<DataFrame>) -> (event: BusEvent)
    requires
        bus_feeds(*tx, *old(rx)),
        bus_cursor(*old(rx)) <= bus_published(*tx).len(),
    ensures
        bus_feeds(*tx, *final(rx)),
        bus_cursor(*old(rx)) == bus_published(*tx).len() ==> event is Empty && bus_cursor(
            *final(rx),
        ) == bus_cursor(*old(rx)),
        bus_cursor(*old(rx)) < bus_published(*tx).len() <= bus_cursor(*old(rx)) + bus_room(*tx)
            ==> event is Frame && event->frame@ == bus_published(*tx)[bus_cursor(*old(rx)) as int]
            && bus_cursor(*final(rx)) == bus_cursor(*old(rx)) + 1,
        bus_published(*tx).len() > bus_cursor(*old(rx)) + bus_room(*tx) ==> event is Lagged
            && event->skipped == bus_published(*tx).len() - bus_room(*tx) - bus_cursor(*old(rx))
            && bus_cursor(*final(rx)) == bus_published(*tx).len() - bus_room(*tx),
{
    match rx.try_recv() {
        Ok(frame) => BusEvent::Frame { frame },
        Err(tokio::sync::broadcast::error::TryRecvError::Empty) => BusEvent::Empty,
        Err(tokio::sync::broadcast::error::TryRecvError::Lagged(skipped)) => BusEvent::Lagged {
            skipped,
        },
        Err(tokio::sync::broadcast::error::TryRecvError::Closed) => BusEvent::Closed,
    }
}

/// Why `url::Url::parse` refused a text.
#[verifier::external_type_specification]
#[verifier::external_body]
pub struct ExUrlParseError(url::ParseError);

/// The serialization of the absolute URL that a text is parsed to, where it
/// is parsed to one.
pub uninterp spec fn url_serialization(input: Seq<char>) -> Option<Seq<char>>;

/// `url::Url::parse`, and the URL's serialization where there is one.
#[verifier::external_body]
pub(crate) fn parse_url(input: &str) -> (parsed: Result<String, url::ParseError>)
    ensures
        match parsed {
            Ok(text) => url_serialization(input@) == Some(text@),
            Err(_) => url_serialization(input@) is None,
        },
{
    url::Url::parse(input).map(String::from)
}

} // verus!
