//! The kernel's side of a named pipe, as far as the library relies on it:
//! who holds the pipe open, and which bytes wait in it. This is a model of
//! the rule that a reader sees the end of the stream only when the pipe is
//! empty and nobody holds it open for writing. The laws below say what the
//! library's way of opening the two ends gains under that rule.

use vstd::prelude::*;
use crate::pipe::Endpoint;
use crate::protocol::OpenMode;

verus! {

/// One named pipe: how many descriptors hold it open for reading and for
/// writing, and the bytes written but not yet read.
pub struct Channel {
    pub readers: nat,
    pub writers: nat,
    pub queued: Seq<u8>,
}

impl Channel {
    /// A pipe that nobody has opened yet.
    pub open spec fn fresh() -> Channel {
        Channel { readers: 0, writers: 0, queued: Seq::empty() }
    }

    /// The pipe after one more descriptor has been opened with `mode`.
    pub open spec fn opened(self, mode: OpenMode) -> Channel {
        Channel {
            readers: if mode.read {
                self.readers + 1
            } else {
                self.readers
            },
            writers: if mode.write {
                self.writers + 1
            } else {
                self.writers
            },
            queued: self.queued,
        }
    }

    /// The pipe after a descriptor that was opened with `mode` has been
    /// closed.
    pub open spec fn closed(self, mode: OpenMode) -> Channel {
        Channel {
            readers: if mode.read && self.readers > 0 {
                (self.readers - 1) as nat
            } else {
                self.readers
            },
            writers: if mode.write && self.writers > 0 {
                (self.writers - 1) as nat
            } else {
                self.writers
            },
            queued: self.queued,
        }
    }

    /// The pipe after `bytes` have been written to it.
    pub open spec fn written(self, bytes: Seq<u8>) -> Channel {
        Channel { queued: self.queued + bytes, ..self }
    }

    /// The pipe after a read of at most `count` bytes, and the bytes read:
    /// the oldest ones first.
    pub open spec fn taken(self, count: nat) -> (Channel, Seq<u8>) {
        if count >= self.queued.len() {
            (Channel { queued: Seq::empty(), ..self }, self.queued)
        } else {
            (
                Channel { queued: self.queued.subrange(count as int, self.queued.len() as int), ..self },
                self.queued.subrange(0, count as int),
            )
        }
    }

    /// Whether a read now reports the end of the stream: the pipe is empty
    /// and no descriptor holds it open for writing.
    pub open spec fn at_end(self) -> bool {
        self.writers == 0 && self.queued.len() == 0
    }

    /// The pipe after a writer has come, written `bytes` and gone.
    pub open spec fn visited(self, bytes: Seq<u8>) -> Channel {
        self.opened(Endpoint::Writer.spec_mode()).written(bytes).closed(
            Endpoint::Writer.spec_mode(),
        )
    }

    /// The pipe after one writer for each of `writes` has come, written it
    /// and gone, one after the other.
    pub open spec fn visited_each(self, writes: Seq<Seq<u8>>) -> Channel
        decreases writes.len(),
    {
        if writes.len() == 0 {
            self
        } else {
            self.visited_each(writes.drop_last()).visited(writes.last())
        }
    }
}

/// The bytes of `writes`, one write after the other.
pub open spec fn joined(writes: Seq<Seq<u8>>) -> Seq<u8>
    decreases writes.len(),
{
    if writes.len() == 0 {
        Seq::empty()
    } else {
        joined(writes.drop_last()) + writes.last()
    }
}

/// What a writer writes once a reader has opened the pipe, the reader
/// reads back in full and in order: a read of `count` bytes gives the first
/// `count` of them and leaves the rest waiting.
pub proof fn lemma_round_trip(pipe: Channel, bytes: Seq<u8>, count: nat)
    requires
        pipe.queued.len() == 0,
        count <= bytes.len(),
    ensures
        ({
            let sent = pipe.opened(Endpoint::Reader.spec_mode()).opened(
                Endpoint::Writer.spec_mode(),
            ).written(bytes);
            &&& sent.taken(bytes.len()).1 == bytes
            &&& sent.taken(bytes.len()).0.queued.len() == 0
            &&& sent.taken(count).1 == bytes.subrange(0, count as int)
            &&& sent.taken(count).0.queued == bytes.subrange(count as int, bytes.len() as int)
            &&& sent.taken(count).1 + sent.taken(count).0.queued == bytes
        }),
{
    let sent = pipe.opened(Endpoint::Reader.spec_mode()).opened(
        Endpoint::Writer.spec_mode(),
    ).written(bytes);
    assert(sent.queued == bytes);
    assert(bytes.subrange(0, bytes.len() as int) == bytes);
    assert(bytes.subrange(0, count as int) + bytes.subrange(count as int, bytes.len() as int)
        == bytes);
}

/// A reader that opened the pipe the library's way outlives its writers:
/// however many writers come, write and go, the pipe is still held open
/// for reading and for writing, so the reader is never told that the
/// stream has ended, and everything that was written waits for it in the
/// order of writing.
pub proof fn lemma_reader_outlives_writers(pipe: Channel, writes: Seq<Seq<u8>>)
    ensures
        ({
            let after = pipe.opened(Endpoint::Reader.spec_mode()).visited_each(writes);
            &&& after.readers == pipe.readers + 1
            &&& after.writers == pipe.writers + 1
            &&& !after.at_end()
            &&& after.queued == pipe.queued + joined(writes)
        }),
    decreases writes.len(),
{
    let open = pipe.opened(Endpoint::Reader.spec_mode());
    if writes.len() == 0 {
        assert(pipe.queued + joined(writes) == pipe.queued);
    } else {
        lemma_reader_outlives_writers(pipe, writes.drop_last());
        let before = open.visited_each(writes.drop_last());
        assert(before.queued + writes.last() == pipe.queued + joined(writes));
    }
}

/// Why the reader does not open the pipe for reading only: such a reader,
/// alone on a fresh pipe, is told that the stream has ended as soon as the
/// first writer has gone and its bytes are read.
pub proof fn lemma_plain_reader_meets_the_end(bytes: Seq<u8>)
    ensures
        Channel::fresh().opened(OpenMode { read: true, write: false }).visited(bytes).taken(
            bytes.len(),
        ).0.at_end(),
{
}

} // verus!
