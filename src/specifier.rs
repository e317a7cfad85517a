use vstd::prelude::*;
use vstd::string::StrSliceExecFns;
use vstd::utf8::encode_utf8;

use crate::addr::{abstract_path, copy_bytes, to_abstract};
use crate::builder::{is_dgram_plan, is_seqpacket_connect_plan, is_seqpacket_listen_plan, RawPlan};

verus! {

/// Options shared by every address scheme.
#[derive(Clone, Copy, Debug, PartialEq, Eq, Structural, Default)]
pub struct Options {
    /// Remove an existing file at a listener's path before binding.
    pub unlink_unix_socket: bool,
    /// Oneshot mode of datagram peers: carried into each datagram peer, not yet acted upon.
    pub udp_oneshot_mode: bool,
}

/// How to bring up a peer, or a stream of peers for a listener.
pub enum PeerPlan {
    /// Connect a stream socket to the path: one peer.
    StreamConnect(Vec<u8>),
    /// Bind and listen on the path, removing an existing file there first if
    /// `unlink_first`: one peer per accepted connection.
    StreamListen { path: Vec<u8>, unlink_first: bool },
    /// Bind a datagram socket to `bind` and connect it to `connect`: one peer.
    Dgram { bind: Vec<u8>, connect: Vec<u8>, oneshot: bool },
    /// Build a bound and connected datagram socket by system calls: one peer.
    RawDgram { plan: RawPlan, oneshot: bool },
    /// Build a connected sequenced-packet socket by system calls: one peer.
    RawConnect(RawPlan),
    /// Build a listening sequenced-packet socket by system calls: one peer per
    /// accepted connection.
    RawListen(RawPlan),
}

/// Stream connection to a filesystem path.
pub struct UnixConnect(pub Vec<u8>);

/// Stream listener on a filesystem path.
pub struct UnixListen(pub Vec<u8>);

/// Datagram socket bound to the first path and connected to the second.
pub struct UnixDgram(pub Vec<u8>, pub Vec<u8>);

/// Stream connection to an abstract name.
pub struct AbstractConnect(pub String);

/// Stream listener on an abstract name.
pub struct AbstractListen(pub String);

/// Datagram socket bound to the first abstract name and connected to the second.
pub struct AbstractDgram(pub String, pub String);

/// Sequenced-packet connection to a path; a leading `@` marks an abstract name.
pub struct SeqpacketConnect(pub Vec<u8>);

/// Sequenced-packet listener on a path; a leading `@` marks an abstract name.
pub struct SeqpacketListen(pub Vec<u8>);

/// A malformed address argument.
#[derive(Clone, Copy, Debug, PartialEq, Eq, Structural)]
pub enum AddrError {
    /// The argument is not two parts separated by exactly one colon.
    ExpectedTwoParts,
}

impl AddrError {
    /// A human-readable description.
    pub fn message(&self) -> (r: &'static str)
        ensures
            r@.len() > 0,
    {
        proof {
            reveal_strlit("Expected two colon-separated addresses");
        }
        match self {
            AddrError::ExpectedTwoParts => "Expected two colon-separated addresses",
        }
    }
}

/// Number of colons in `s`.
pub open spec fn colon_count(s: Seq<char>) -> nat
    decreases s.len(),
{
    if s.len() == 0 {
        0
    } else {
        colon_count(s.drop_last()) + if s.last() == ':' {
            1nat
        } else {
            0nat
        }
    }
}

/// Position of the first colon in `s` at `i` or later; the length when there is none.
pub open spec fn first_colon(s: Seq<char>, i: int) -> int
    decreases s.len() - i,
{
    if i >= s.len() {
        s.len() as int
    } else if s[i] == ':' {
        i
    } else {
        first_colon(s, i + 1)
    }
}

/// The parts of `s` before and after its first colon.
pub open spec fn split_pair(s: Seq<char>) -> (Seq<char>, Seq<char>) {
    let k = first_colon(s, 0);
    (s.subrange(0, k), s.subrange(k + 1, s.len() as int))
}

proof fn lemma_first_colon_bounds(s: Seq<char>, i: int)
    requires
        0 <= i <= s.len(),
    ensures
        i <= first_colon(s, i) <= s.len(),
        first_colon(s, i) < s.len() ==> s[first_colon(s, i)] == ':',
    decreases s.len() - i,
{
    if i < s.len() && s[i] != ':' {
        lemma_first_colon_bounds(s, i + 1);
    }
}

/// Splits an argument into the two parts around its only colon.
fn split_two(arg: &str) -> (r: Result<(&str, &str), AddrError>)
    ensures
        r is Ok <==> colon_count(arg@) == 1,
        r is Ok ==> r->Ok_0.0@ == split_pair(arg@).0 && r->Ok_0.1@ == split_pair(arg@).1,
        r is Err ==> r->Err_0 == AddrError::ExpectedTwoParts,
{
    let n = arg.unicode_len();
    let mut count: usize = 0;
    let mut first: usize = n;
    let mut i: usize = 0;
    while i < n
        invariant
            n == arg@.len(),
            i <= n,
            count == colon_count(arg@.subrange(0, i as int)),
            count <= i,
            count == 0 ==> first == n && first_colon(arg@, 0) == first_colon(arg@, i as int),
            count > 0 ==> first == first_colon(arg@, 0) && first < i,
        decreases n - i,
    {
        proof {
            assert(arg@.subrange(0, i + 1).drop_last() =~= arg@.subrange(0, i as int));
            lemma_first_colon_bounds(arg@, i as int);
        }
        if arg.get_char(i) == ':' {
            if count == 0 {
                first = i;
            }
            count = count + 1;
        }
        i = i + 1;
    }
    assert(arg@.subrange(0, n as int) =~= arg@);
    proof {
        lemma_first_colon_bounds(arg@, 0);
    }
    if count != 1 {
        return Err(AddrError::ExpectedTwoParts);
    }
    let a = arg.substring_char(0, first);
    let b = arg.substring_char(first + 1, n);
    Ok((a, b))
}

impl UnixDgram {
    /// Parses `bind-path:connect-path`.
    pub fn parse(arg: &str) -> (r: Result<UnixDgram, AddrError>)
        ensures
            r is Ok <==> colon_count(arg@) == 1,
            r is Ok ==> r->Ok_0.0@ == encode_utf8(split_pair(arg@).0) && r->Ok_0.1@
                == encode_utf8(split_pair(arg@).1),
            r is Err ==> r->Err_0 == AddrError::ExpectedTwoParts,
    {
        match split_two(arg) {
            Ok((a, b)) => Ok(UnixDgram(a.as_bytes_vec(), b.as_bytes_vec())),
            Err(e) => Err(e),
        }
    }

    /// A datagram peer bound to the first path and connected to the second.
    pub fn construct(&self, opts: &Options) -> (r: PeerPlan)
        ensures
            r is Dgram,
            r->Dgram_bind@ == self.0@,
            r->Dgram_connect@ == self.1@,
            r->Dgram_oneshot == opts.udp_oneshot_mode,
    {
        PeerPlan::Dgram {
            bind: copy_bytes(self.0.as_slice()),
            connect: copy_bytes(self.1.as_slice()),
            oneshot: opts.udp_oneshot_mode,
        }
    }
}

impl AbstractDgram {
    /// Parses `bind-name:connect-name`.
    pub fn parse(arg: &str) -> (r: Result<AbstractDgram, AddrError>)
        ensures
            r is Ok <==> colon_count(arg@) == 1,
            r is Ok ==> r->Ok_0.0@ == split_pair(arg@).0 && r->Ok_0.1@ == split_pair(arg@).1,
            r is Err ==> r->Err_0 == AddrError::ExpectedTwoParts,
    {
        match split_two(arg) {
            Ok((a, b)) => Ok(AbstractDgram(a.to_owned(), b.to_owned())),
            Err(e) => Err(e),
        }
    }

    /// A datagram peer on two abstract names; with `workaround` the socket is built
    /// by system calls instead of by the runtime.
    pub fn construct(&self, opts: &Options, workaround: bool) -> (r: PeerPlan)
        ensures
            !workaround ==> r is Dgram && r->Dgram_bind@ == abstract_path(encode_utf8(self.0@))
                && r->Dgram_connect@ == abstract_path(encode_utf8(self.1@))
                && r->Dgram_oneshot == opts.udp_oneshot_mode,
            workaround ==> r is RawDgram && is_dgram_plan(
                r->RawDgram_plan,
                abstract_path(encode_utf8(self.0@)),
                abstract_path(encode_utf8(self.1@)),
            ) && r->RawDgram_oneshot == opts.udp_oneshot_mode,
    {
        let bind = to_abstract(self.0.as_str());
        let connect = to_abstract(self.1.as_str());
        if workaround {
            PeerPlan::RawDgram {
                plan: RawPlan::dgram(bind.as_slice(), connect.as_slice()),
                oneshot: opts.udp_oneshot_mode,
            }
        } else {
            PeerPlan::Dgram { bind, connect, oneshot: opts.udp_oneshot_mode }
        }
    }
}

impl UnixConnect {
    /// One stream connection to the path.
    pub fn construct(&self) -> (r: PeerPlan)
        ensures
            r is StreamConnect,
            r->StreamConnect_0@ == self.0@,
    {
        PeerPlan::StreamConnect(copy_bytes(self.0.as_slice()))
    }
}

impl UnixListen {
    /// A listener on the path, removing an existing file first when the options ask.
    pub fn construct(&self, opts: &Options) -> (r: PeerPlan)
        ensures
            r is StreamListen,
            r->StreamListen_path@ == self.0@,
            r->StreamListen_unlink_first == opts.unlink_unix_socket,
    {
        PeerPlan::StreamListen {
            path: copy_bytes(self.0.as_slice()),
            unlink_first: opts.unlink_unix_socket,
        }
    }
}

impl AbstractConnect {
    /// One stream connection to the abstract name.
    pub fn construct(&self) -> (r: PeerPlan)
        ensures
            r is StreamConnect,
            r->StreamConnect_0@ == abstract_path(encode_utf8(self.0@)),
    {
        PeerPlan::StreamConnect(to_abstract(self.0.as_str()))
    }
}

impl AbstractListen {
    /// A listener on the abstract name; there is no file to remove.
    pub fn construct(&self) -> (r: PeerPlan)
        ensures
            r is StreamListen,
            r->StreamListen_path@ == abstract_path(encode_utf8(self.0@)),
            !r->StreamListen_unlink_first,
    {
        PeerPlan::StreamListen { path: to_abstract(self.0.as_str()), unlink_first: false }
    }
}

impl SeqpacketConnect {
    /// One sequenced-packet connection, built by system calls.
    pub fn construct(&self) -> (r: PeerPlan)
        ensures
            r is RawConnect,
            is_seqpacket_connect_plan(r->RawConnect_0, self.0@),
    {
        PeerPlan::RawConnect(RawPlan::seqpacket_connect(self.0.as_slice()))
    }
}

impl SeqpacketListen {
    /// A sequenced-packet listener, built by system calls.
    pub fn construct(&self, opts: &Options) -> (r: PeerPlan)
        ensures
            r is RawListen,
            is_seqpacket_listen_plan(r->RawListen_0, self.0@, opts.unlink_unix_socket),
    {
        PeerPlan::RawListen(RawPlan::seqpacket_listen(self.0.as_slice(), opts.unlink_unix_socket))
    }
}

} // verus!
