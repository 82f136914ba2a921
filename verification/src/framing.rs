//! How a message is read off a connection: chunk by chunk, until a short
//! chunk ends it or an empty read shows the peer closed the connection.

use vstd::prelude::*;

verus! {

/// The size of the chunks in which messages are read.
pub const CHUNK_SIZE: usize = 64;

/// What a chunk means for the message being read.
#[derive(Debug, PartialEq, Eq, Structural)]
pub enum ChunkStep {
    /// Nothing came: the peer closed the connection.
    Closed,
    /// A short chunk came: the message is complete.
    Complete,
    /// A full chunk came: more may follow.
    More,
}

/// Adds the first `n` bytes of `chunk` to the message read so far, and says
/// whether the message is complete, may go on, or the peer closed.
pub fn take_chunk(buf: &mut Vec<u8>, chunk: &[u8], n: usize) -> (step: ChunkStep)
    requires
        n <= chunk@.len(),
    ensures
        n == 0 ==> step == ChunkStep::Closed && final(buf)@ == old(buf)@,
        n > 0 ==> final(buf)@ == old(buf)@ + chunk@.subrange(0, n as int),
        0 < n < CHUNK_SIZE ==> step == ChunkStep::Complete,
        n >= CHUNK_SIZE ==> step == ChunkStep::More,
{
    if n == 0 {
        return ChunkStep::Closed;
    }
    let ghost before = buf@;
    let mut i: usize = 0;
    while i < n
        invariant
            i <= n <= chunk@.len(),
            buf@ == before + chunk@.subrange(0, i as int),
        decreases n - i,
    {
        buf.push(chunk[i]);
        assert(chunk@.subrange(0, i + 1) =~= chunk@.subrange(0, i as int).push(chunk@[i as int]));
        i = i + 1;
    }
    if n < CHUNK_SIZE {
        ChunkStep::Complete
    } else {
        ChunkStep::More
    }
}

} // verus!
