//! Stream definitions: one per camera, fixed once made.

use vstd::prelude::*;

verus! {

/// How many frames a stream's bus keeps for subscribers that lag.
pub const BUS_CAPACITY: usize = 1048576;

/// One configured stream. `B` is the handle of its bus and `T` that of its
/// shared outbound track; both are only kept here.
#[derive(Debug, PartialEq, Eq)]
pub struct StreamsDef<B, T> {
    /// The stream's name, by which viewers ask for it.
    pub name: String,
    /// Address of the camera.
    pub url: String,
    /// The bus that frames are published on.
    pub tx: B,
    /// The track that every viewer of this stream is attached to.
    pub track: T,
}

impl<B, T> StreamsDef<B, T> {
    /// A stream definition made of its four parts.
    pub fn new(name: String, url: String, tx: B, track: T) -> (stream: Self)
        ensures
            stream.name == name,
            stream.url == url,
            stream.tx == tx,
            stream.track == track,
    {
        StreamsDef { name, url, tx, track }
    }
}

/// Whether some stream has the name given.
pub open spec fn has_stream<B, T>(streams: Seq<StreamsDef<B, T>>, name: Seq<char>) -> bool {
    exists|i: int| 0 <= i < streams.len() && #[trigger] streams[i].name@ == name
}

/// No stream before `i` has the name given, and the one at `i` has it.
pub open spec fn is_first_named<B, T>(streams: Seq<StreamsDef<B, T>>, name: Seq<char>, i: int) -> bool {
    &&& 0 <= i < streams.len()
    &&& streams[i].name@ == name
    &&& forall|k: int| 0 <= k < i ==> (#[trigger] streams[k]).name@ != name
}

/// Finds the first stream with the name given.
pub fn find_stream<'a, B, T>(streams: &'a [StreamsDef<B, T>], name: &str) -> (found: Option<usize>)
    ensures
        match found {
            Some(i) => is_first_named(streams@, name@, i as int),
            None => !has_stream(streams@, name@),
        },
{
    let key: String = name.to_owned();
    let mut i: usize = 0;
    while i < streams.len()
        invariant
            i <= streams@.len(),
            key@ == name@,
            forall|k: int| 0 <= k < i ==> (#[trigger] streams@[k]).name@ != name@,
        decreases streams@.len() - i,
    {
        if streams[i].name == key {
            return Some(i);
        }
        i += 1;
    }
    None
}

} // verus!
