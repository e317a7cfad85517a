use vstd::prelude::*;

verus! {

/// A direction of a full-duplex socket.
#[derive(Clone, Copy, Debug, PartialEq, Eq, Structural)]
pub enum Direction {
    Read,
    Write,
}

/// An operation on the shared socket under a pair of halves.
#[derive(Clone, Copy, Debug, PartialEq, Eq, Structural)]
pub enum SockOp {
    Shutdown(Direction),
    Close,
}

/// Which half of a shared stream socket an endpoint is. Both halves can read and
/// write; by convention one only reads and the other only writes, which nothing
/// here enforces.
#[derive(Clone, Copy, Debug, PartialEq, Eq, Structural)]
pub struct HalfTag {
    pub is_read_half: bool,
}

/// Operations when a half is dropped: the read half shuts down reading.
pub open spec fn drop_ops_of(is_read_half: bool) -> Seq<SockOp> {
    if is_read_half {
        seq![SockOp::Shutdown(Direction::Read)]
    } else {
        seq![]
    }
}

impl HalfTag {
    /// The direction shut down when the holder of either half is done writing.
    pub fn on_shutdown(&self) -> (r: Direction)
        ensures
            r == Direction::Write,
    {
        Direction::Write
    }

    /// The direction shut down, best effort, when this half is dropped.
    pub fn on_drop(&self) -> (r: Option<Direction>)
        ensures
            r == if self.is_read_half {
                Some(Direction::Read)
            } else {
                None
            },
    {
        if self.is_read_half {
            Some(Direction::Read)
        } else {
            None
        }
    }
}

/// Which halves of a pair over one shared stream socket are still alive. This
/// models the teardown that the runtime carries out through each half's drop
/// (`HalfTag::on_drop`) and the shared reference count, which closes the socket
/// when the last half goes.
pub struct DuplexPair {
    read_alive: bool,
    write_alive: bool,
}

/// Operations when a half is dropped while `other_alive` tells whether the other
/// half lives: its own shutdown, then a close if it was the last.
pub open spec fn teardown_ops(is_read_half: bool, other_alive: bool) -> Seq<SockOp> {
    drop_ops_of(is_read_half) + if other_alive {
        Seq::<SockOp>::empty()
    } else {
        seq![SockOp::Close]
    }
}

impl DuplexPair {
    pub closed spec fn alive(&self, is_read_half: bool) -> bool {
        if is_read_half {
            self.read_alive
        } else {
            self.write_alive
        }
    }

    /// A fresh pair: both halves alive over one socket.
    pub fn new() -> (r: DuplexPair)
        ensures
            r.alive(true),
            r.alive(false),
    {
        DuplexPair { read_alive: true, write_alive: true }
    }

    /// The tags of the two halves, read half first.
    pub fn tags(&self) -> (r: (HalfTag, HalfTag))
        ensures
            r.0.is_read_half,
            !r.1.is_read_half,
    {
        (HalfTag { is_read_half: true }, HalfTag { is_read_half: false })
    }

    /// Operations for a shutdown requested through a live half: one shutdown of
    /// writing, whichever half asks.
    pub fn shutdown(&self, h: HalfTag) -> (r: Vec<SockOp>)
        requires
            self.alive(h.is_read_half),
        ensures
            r@ == seq![SockOp::Shutdown(Direction::Write)],
    {
        let mut r: Vec<SockOp> = Vec::new();
        r.push(SockOp::Shutdown(h.on_shutdown()));
        r
    }

    /// Drops a live half and gives the operations that this performs on the socket.
    pub fn drop_half(&mut self, h: HalfTag) -> (r: Vec<SockOp>)
        requires
            old(self).alive(h.is_read_half),
        ensures
            !final(self).alive(h.is_read_half),
            final(self).alive(!h.is_read_half) == old(self).alive(!h.is_read_half),
            r@ == teardown_ops(h.is_read_half, old(self).alive(!h.is_read_half)),
    {
        let mut r: Vec<SockOp> = Vec::new();
        match h.on_drop() {
            Some(d) => r.push(SockOp::Shutdown(d)),
            None => {},
        }
        let other_alive = if h.is_read_half {
            self.read_alive = false;
            self.write_alive
        } else {
            self.write_alive = false;
            self.read_alive
        };
        if !other_alive {
            r.push(SockOp::Close);
        }
        assert(r@ =~= teardown_ops(h.is_read_half, other_alive));
        r
    }
}

/// Dropping both halves of a pair, in either order, shuts down reading once,
/// never shuts down writing, and closes the socket exactly once, at the second drop.
pub proof fn lemma_teardown_in_either_order(first_is_read: bool)
    ensures
        teardown_ops(first_is_read, true) + teardown_ops(!first_is_read, false) == seq![
            SockOp::Shutdown(Direction::Read),
            SockOp::Close,
        ],
        !teardown_ops(first_is_read, true).contains(SockOp::Close),
{
    assert(teardown_ops(first_is_read, true) + teardown_ops(!first_is_read, false) =~= seq![
        SockOp::Shutdown(Direction::Read),
        SockOp::Close,
    ]);
    if first_is_read {
        assert(teardown_ops(true, true) =~= seq![SockOp::Shutdown(Direction::Read)]);
        assert(teardown_ops(true, true)[0] != SockOp::Close);
    } else {
        assert(teardown_ops(false, true) =~= Seq::<SockOp>::empty());
    }
}

} // verus!
