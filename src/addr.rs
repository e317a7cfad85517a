use vstd::prelude::*;
use vstd::string::StringSliceAdditionalSpecFns;

verus! {

/// Capacity of the path field of a Unix-domain socket address, terminator included.
pub const SUN_PATH_LEN: usize = 108;

/// Size of the address-family field that precedes the path in a socket address.
pub const FAMILY_LEN: usize = 2;

/// The byte `@`, which marks an abstract name in sequenced-packet addresses.
pub const ABSTRACT_MARKER: u8 = 64;

/// The path bytes that fit into the address: at most the first `SUN_PATH_LEN`.
pub open spec fn truncated(b: Seq<u8>) -> Seq<u8> {
    if b.len() <= SUN_PATH_LEN {
        b
    } else {
        b.subrange(0, SUN_PATH_LEN as int)
    }
}

/// The whole path field: the truncated bytes, padded with zeros to the capacity.
pub open spec fn path_field(b: Seq<u8>) -> Seq<u8> {
    truncated(b) + Seq::new((SUN_PATH_LEN - truncated(b).len()) as nat, |i: int| 0u8)
}

/// Encoding of a path: the path field and the number of bytes in use.
pub open spec fn encoded(b: Seq<u8>) -> (Seq<u8>, nat) {
    (path_field(b), truncated(b).len())
}

/// Encoding where a leading `@` stands for the zero byte of an abstract name.
pub open spec fn marked_encoded(b: Seq<u8>) -> (Seq<u8>, nat) {
    let f = path_field(b);
    if f[0] == ABSTRACT_MARKER {
        (f.update(0, 0u8), truncated(b).len())
    } else {
        (f, truncated(b).len())
    }
}

/// An abstract name as a path: one zero byte, then the name.
pub open spec fn abstract_path(name: Seq<u8>) -> Seq<u8> {
    seq![0u8] + name
}

/// A socket address of the Unix family, as handed to `bind` or `connect`.
pub struct PackedAddr {
    sun_path: Vec<u8>,
    used: usize,
}

impl View for PackedAddr {
    type V = (Seq<u8>, nat);

    closed spec fn view(&self) -> (Seq<u8>, nat) {
        (self.sun_path@, self.used as nat)
    }
}

impl PackedAddr {
    pub open spec fn wf(&self) -> bool {
        &&& self@.0.len() == SUN_PATH_LEN
        &&& self@.1 <= SUN_PATH_LEN
    }

    /// The full path field, zero-padded.
    pub fn path_bytes(&self) -> (r: &[u8])
        ensures
            r@ == self@.0,
    {
        self.sun_path.as_slice()
    }

    /// Number of path bytes in use.
    pub fn used_len(&self) -> (r: usize)
        ensures
            r == self@.1,
    {
        self.used
    }

    /// Length of the address structure handed to the kernel: family plus used path bytes.
    pub fn socklen(&self) -> (r: u32)
        requires
            self.wf(),
        ensures
            r == self@.1 + FAMILY_LEN,
    {
        (self.used + FAMILY_LEN) as u32
    }

    /// A copy of the address.
    pub fn duplicate(&self) -> (r: PackedAddr)
        ensures
            r@ == self@,
    {
        PackedAddr { sun_path: copy_bytes(self.sun_path.as_slice()), used: self.used }
    }

    /// Whether the address names the abstract namespace (leading zero byte).
    pub fn is_abstract(&self) -> (r: bool)
        requires
            self.wf(),
        ensures
            r == (self@.0[0] == 0u8),
    {
        self.sun_path[0] == 0u8
    }
}

/// A fresh vector holding the given bytes.
pub fn copy_bytes(b: &[u8]) -> (r: Vec<u8>)
    ensures
        r@ == b@,
{
    let mut r: Vec<u8> = Vec::new();
    let mut i: usize = 0;
    while i < b.len()
        invariant
            i <= b@.len(),
            r@ =~= b@.subrange(0, i as int),
        decreases b@.len() - i,
    {
        r.push(b[i]);
        i = i + 1;
    }
    assert(b@.subrange(0, b@.len() as int) =~= b@);
    r
}

/// Position of the first zero byte at `i` or later; the length when there is none.
pub open spec fn first_zero(s: Seq<u8>, i: int) -> int
    decreases s.len() - i,
{
    if i >= s.len() {
        s.len() as int
    } else if s[i] == 0 {
        i
    } else {
        first_zero(s, i + 1)
    }
}

/// The bytes of a C string held in `s`: those before the first zero.
pub open spec fn c_string(s: Seq<u8>) -> Seq<u8> {
    s.subrange(0, first_zero(s, 0))
}

/// The bytes before the first zero byte.
pub fn c_string_of(b: &[u8]) -> (r: Vec<u8>)
    ensures
        r@ == c_string(b@),
{
    let mut r: Vec<u8> = Vec::new();
    let mut i: usize = 0;
    while i < b.len() && b[i] != 0
        invariant
            i <= b@.len(),
            first_zero(b@, 0) == first_zero(b@, i as int),
            r@ =~= b@.subrange(0, i as int),
        decreases b@.len() - i,
    {
        r.push(b[i]);
        i = i + 1;
    }
    r
}

/// Packs path bytes into a socket address, silently dropping what exceeds the capacity.
pub fn pack_path(bytes: &[u8]) -> (r: PackedAddr)
    ensures
        r.wf(),
        r@ == encoded(bytes@),
{
    let n: usize = if bytes.len() < SUN_PATH_LEN {
        bytes.len()
    } else {
        SUN_PATH_LEN
    };
    let mut sun_path: Vec<u8> = Vec::with_capacity(SUN_PATH_LEN);
    let mut i: usize = 0;
    while i < SUN_PATH_LEN
        invariant
            i <= SUN_PATH_LEN,
            n == truncated(bytes@).len(),
            sun_path@.len() == i,
            forall|j: int| 0 <= j < i ==> #[trigger] sun_path@[j] == path_field(bytes@)[j],
        decreases SUN_PATH_LEN - i,
    {
        if i < n {
            sun_path.push(bytes[i]);
        } else {
            sun_path.push(0u8);
        }
        i = i + 1;
    }
    assert(sun_path@ =~= path_field(bytes@));
    PackedAddr { sun_path, used: n }
}

/// Turns an abstract name into its path form: a zero byte followed by the name.
pub fn to_abstract(x: &str) -> (r: Vec<u8>)
    ensures
        r@ == abstract_path(x.spec_bytes()),
{
    let name = x.as_bytes();
    let mut r: Vec<u8> = Vec::new();
    r.push(0u8);
    let mut i: usize = 0;
    while i < name.len()
        invariant
            name@ == x.spec_bytes(),
            i <= name@.len(),
            r@ =~= seq![0u8] + name@.subrange(0, i as int),
        decreases name@.len() - i,
    {
        r.push(name[i]);
        i = i + 1;
    }
    assert(name@.subrange(0, name@.len() as int) =~= name@);
    r
}

/// Packs an abstract name: the name behind one zero byte, truncated to the capacity.
pub fn pack_abstract(name: &str) -> (r: PackedAddr)
    ensures
        r.wf(),
        r@ == encoded(abstract_path(name.spec_bytes())),
{
    let p = to_abstract(name);
    pack_path(p.as_slice())
}

/// Packs path bytes where a leading `@` requests the abstract namespace.
pub fn pack_marked(bytes: &[u8]) -> (r: PackedAddr)
    ensures
        r.wf(),
        r@ == marked_encoded(bytes@),
{
    let mut r = pack_path(bytes);
    if r.sun_path[0] == ABSTRACT_MARKER {
        r.sun_path.set(0, 0u8);
    }
    r
}

/// An encoded address depends only on the first `SUN_PATH_LEN` bytes of its path:
/// a longer path encodes exactly as its truncation does, in both conventions.
pub proof fn lemma_truncation(b: Seq<u8>)
    requires
        b.len() > SUN_PATH_LEN,
    ensures
        encoded(b) == encoded(b.subrange(0, SUN_PATH_LEN as int)),
        marked_encoded(b) == marked_encoded(b.subrange(0, SUN_PATH_LEN as int)),
{
    let t = b.subrange(0, SUN_PATH_LEN as int);
    assert(truncated(t) =~= truncated(b));
}

/// Packing a name in the abstract namespace gives the same address as packing the
/// name behind the `@` marker.
pub proof fn lemma_marker_matches_abstract(name: Seq<u8>)
    ensures
        marked_encoded(seq![ABSTRACT_MARKER] + name) == encoded(abstract_path(name)),
{
    let m = seq![ABSTRACT_MARKER] + name;
    let a = abstract_path(name);
    assert(truncated(m).len() == truncated(a).len());
    assert(path_field(m)[0] == ABSTRACT_MARKER);
    assert(path_field(m).update(0, 0u8) =~= path_field(a));
}

} // verus!
