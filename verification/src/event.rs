//! Globally unique event-stream keys and the handles that count their
//! events.

use vstd::prelude::*;
use crate::address::AccountAddress;
use crate::codec::{read_bytes, read_u64, ser_bytes, ser_u64, lemma_read_ser_bytes,
    lemma_read_ser_u64};

verus! {

/// Size of an event key.
pub const EVENT_KEY_LENGTH: usize = 32;

/// The digest that the SHA3-256 function assigns to a byte sequence: a
/// function of the bytes alone.
pub uninterp spec fn sha3_of(data: Seq<u8>) -> Seq<u8>;

/// Relies on tiny_keccak::sha3_256: the SHA3-256 digest of the input, a
/// function of the input bytes alone.
#[verifier::external_body]
fn sha3_256(data: &[u8]) -> (r: [u8; 32])
    ensures
        r@ == sha3_of(data@),
{
    tiny_keccak::sha3_256(data)
}

/// The lowercase hexadecimal digit of a value below sixteen.
pub open spec fn hex_digit(n: u8) -> char
    recommends
        n < 16,
{
    if n < 10 {
        ((48 + n) as u8) as char
    } else {
        ((87 + n) as u8) as char
    }
}

/// The lowercase hexadecimal spelling of a byte sequence: two digits per
/// byte, high nibble first.
pub open spec fn spec_hex(b: Seq<u8>) -> Seq<char>
    decreases b.len(),
{
    if b.len() == 0 {
        Seq::empty()
    } else {
        seq![hex_digit(b[0] / 16), hex_digit(b[0] % 16)] + spec_hex(b.drop_first())
    }
}

/// Relies on hex::encode: two lowercase hexadecimal digits for each input
/// byte, in input order.
#[verifier::external_body]
fn hex_encode(data: &[u8]) -> (r: String)
    ensures
        r@ == spec_hex(data@),
{
    hex::encode(data)
}

/// Relies on rand::random: a value drawn from the standard distribution.
/// Nothing can be promised of it.
pub assume_specification<T> [ rand::random::<T> ]() -> (r: T)
    where
        rand::distributions::Standard: rand::distributions::Distribution<T>,
;

/// A globally unique id for an event stream a user can listen to.
#[derive(Clone, Copy, Debug, PartialEq, Eq, Hash)]
pub struct EventKey {
    bytes: [u8; 32],
}

impl View for EventKey {
    type V = Seq<u8>;

    closed spec fn view(&self) -> Seq<u8> {
        self.bytes@
    }
}

impl EventKey {
    /// Construct a new key from a byte array.
    pub fn new(key: [u8; 32]) -> (r: Self)
        ensures
            r@ == key@,
    {
        EventKey { bytes: key }
    }

    /// The byte representation of the key.
    pub fn as_bytes(&self) -> (r: &[u8])
        ensures
            r@ == self@,
    {
        self.bytes.as_slice()
    }

    /// The key as a freshly allocated byte vector.
    pub fn to_vec(&self) -> (r: Vec<u8>)
        ensures
            r@ == self@,
    {
        vstd::slice::slice_to_vec(self.bytes.as_slice())
    }

    /// A random key.  Each call may return anything of the right width.
    pub fn random() -> (r: Self)
        ensures
            r@.len() == 32,
    {
        let bytes = rand::random::<[u8; 32]>();
        EventKey { bytes }
    }

    /// A key derived from an address and a counter: the digest of the
    /// canonical encoding of the counter followed by the address bytes.
    pub fn new_from_address(addr: &AccountAddress, salt: u64) -> (r: Self)
        ensures
            r@ == sha3_of(ser_u64(salt) + ser_bytes(addr@)),
    {
        let mut input: Vec<u8> = Vec::new();
        let ghost i0 = input@;
        crate::codec::write_u64(&mut input, salt);
        crate::codec::write_bytes(&mut input, &addr.to_vec());
        proof {
            assert(i0 =~= Seq::<u8>::empty());
            assert(input@ =~= ser_u64(salt) + ser_bytes(addr@));
        }
        let bytes = sha3_256(input.as_slice());
        EventKey { bytes }
    }

    /// The key a byte slice stands for: exactly the slices of the key width
    /// are accepted.
    pub fn try_from(bytes: &[u8]) -> (r: Option<EventKey>)
        ensures
            match r {
                Option::Some(k) => bytes@.len() == 32 && k@ == bytes@,
                Option::None => bytes@.len() != 32,
            },
    {
        if bytes.len() != 32 {
            return Option::None;
        }
        let mut key: [u8; 32] = [0u8; 32];
        let mut i: usize = 0;
        while i < 32
            invariant
                0 <= i <= 32,
                bytes@.len() == 32,
                key@.len() == 32,
                forall|j: int| 0 <= j < i ==> key@[j] == bytes@[j],
            decreases 32 - i,
        {
            key[i] = bytes[i];
            i += 1;
        }
        proof {
            assert(key@ =~= bytes@);
        }
        Option::Some(EventKey { bytes: key })
    }

    /// The lowercase hexadecimal spelling of the key.
    pub fn to_hex(&self) -> (r: String)
        ensures
            r@ == spec_hex(self@),
    {
        hex_encode(self.bytes.as_slice())
    }

    /// The canonical encoding of a key: its bytes, length-prefixed.
    pub fn to_canonical_bytes(&self) -> (r: Vec<u8>)
        ensures
            r@ == ser_bytes(self@),
    {
        let mut out: Vec<u8> = Vec::new();
        let ghost o0 = out@;
        crate::codec::write_bytes(&mut out, &self.to_vec());
        proof {
            assert(o0 =~= Seq::<u8>::empty());
            assert(out@ =~= ser_bytes(self@));
        }
        out
    }
}

/// The key a byte sequence is the canonical encoding of, if any.
pub open spec fn spec_deser_key(b: Seq<u8>) -> Option<Seq<u8>> {
    match read_bytes(b) {
        Option::None => Option::None,
        Option::Some((key, rest)) => if key.len() == 32 && rest.len() == 0 {
            Option::Some(key)
        } else {
            Option::None
        },
    }
}

impl EventKey {
    /// Decode a key from its canonical bytes.  Returns exactly the key
    /// `spec_deser_key` gives, and nothing on the byte sequences it rejects.
    pub fn from_canonical_bytes(b: &[u8]) -> (r: Option<EventKey>)
        ensures
            match r {
                Option::Some(k) => spec_deser_key(b@) == Option::Some(k@),
                Option::None => spec_deser_key(b@) is None,
            },
    {
        proof {
            assert(b@.skip(0) =~= b@);
        }
        let (key_bytes, p1) = match crate::codec::read_bytes_at(b, 0) {
            Option::Some(p) => p,
            Option::None => {
                return Option::None;
            },
        };
        if p1 != b.len() {
            proof {
                assert(b@.skip(p1 as int).len() != 0);
            }
            return Option::None;
        }
        proof {
            assert(b@.skip(p1 as int).len() == 0);
        }
        EventKey::try_from(key_bytes.as_slice())
    }
}

/// Round-trip: decoding the canonical bytes of any event key yields the key
/// itself.
pub proof fn lemma_key_round_trip(key: Seq<u8>)
    requires
        key.len() == 32,
    ensures
        spec_deser_key(ser_bytes(key)) == Option::Some(key),
{
    assert(ser_bytes(key) =~= ser_bytes(key) + Seq::<u8>::empty());
    lemma_read_ser_bytes(key, Seq::<u8>::empty());
}

/// The mathematical value of an event handle.
pub struct EventHandleV {
    pub key: Seq<u8>,
    pub count: u64,
}

/// An event-handle resource: a key and the number of events in its stream.
#[derive(Clone, Debug, PartialEq, Eq)]
pub struct EventHandle {
    /// The globally unique key of the event stream.
    key: EventKey,
    /// Number of events in the event stream.
    count: u64,
}

impl View for EventHandle {
    type V = EventHandleV;

    closed spec fn view(&self) -> EventHandleV {
        EventHandleV { key: self.key@, count: self.count }
    }
}

/// The canonical encoding of an event handle: the count, then the key's
/// bytes length-prefixed.
pub open spec fn spec_ser_handle(h: EventHandleV) -> Seq<u8> {
    ser_u64(h.count) + ser_bytes(h.key)
}

/// The handle a byte sequence is the canonical encoding of, if any.
pub open spec fn spec_deser_handle(b: Seq<u8>) -> Option<EventHandleV> {
    match read_u64(b) {
        Option::None => Option::None,
        Option::Some((count, r1)) => match read_bytes(r1) {
            Option::None => Option::None,
            Option::Some((key, r2)) => if key.len() == 32 && r2.len() == 0 {
                Option::Some(EventHandleV { key, count })
            } else {
                Option::None
            },
        },
    }
}

impl EventHandle {
    /// Construct a new handle.
    pub fn new(key: EventKey, count: u64) -> (r: Self)
        ensures
            r@.key == key@,
            r@.count == count,
    {
        EventHandle { key, count }
    }

    /// The key the handle's events are stored under.
    pub fn key(&self) -> (r: &EventKey)
        ensures
            r@ == self@.key,
    {
        &self.key
    }

    /// The counter of the handle.
    pub fn count(&self) -> (r: u64)
        ensures
            r == self@.count,
    {
        self.count
    }

    /// A handle with a random key and the given count.
    pub fn random_handle(count: u64) -> (r: Self)
        ensures
            r@.count == count,
            r@.key.len() == 32,
    {
        EventHandle { key: EventKey::random(), count }
    }

    /// A fresh handle derived from an address and a counter: its stream is
    /// empty.
    pub fn new_from_address(addr: &AccountAddress, salt: u64) -> (r: Self)
        ensures
            r@.key == sha3_of(ser_u64(salt) + ser_bytes(addr@)),
            r@.count == 0,
    {
        EventHandle { key: EventKey::new_from_address(addr, salt), count: 0 }
    }

    /// The canonical encoding of the handle.
    pub fn to_canonical_bytes(&self) -> (r: Vec<u8>)
        ensures
            r@ == spec_ser_handle(self@),
    {
        let mut out: Vec<u8> = Vec::new();
        let ghost o0 = out@;
        crate::codec::write_u64(&mut out, self.count);
        crate::codec::write_bytes(&mut out, &self.key.to_vec());
        proof {
            assert(o0 =~= Seq::<u8>::empty());
            assert(out@ =~= spec_ser_handle(self@));
        }
        out
    }

    /// Decode a handle from its canonical bytes.  Returns exactly the handle
    /// `spec_deser_handle` gives, and nothing on the byte sequences it
    /// rejects.
    pub fn from_canonical_bytes(b: &[u8]) -> (r: Option<EventHandle>)
        ensures
            match r {
                Option::Some(h) => spec_deser_handle(b@) == Option::Some(h@),
                Option::None => spec_deser_handle(b@) is None,
            },
    {
        let (count, p1) = match crate::codec::read_u64_at(b, 0) {
            Option::Some(p) => p,
            Option::None => {
                proof {
                    assert(b@.skip(0) =~= b@);
                }
                return Option::None;
            },
        };
        proof {
            assert(b@.skip(0) =~= b@);
        }
        let (key_bytes, p2) = match crate::codec::read_bytes_at(b, p1) {
            Option::Some(p) => p,
            Option::None => {
                return Option::None;
            },
        };
        if p2 != b.len() {
            proof {
                assert(b@.skip(p2 as int).len() != 0);
            }
            return Option::None;
        }
        proof {
            assert(b@.skip(p2 as int).len() == 0);
        }
        let key = match EventKey::try_from(key_bytes.as_slice()) {
            Option::Some(k) => k,
            Option::None => {
                return Option::None;
            },
        };
        Option::Some(EventHandle { key, count })
    }
}

/// Round-trip: decoding the canonical bytes of any event handle yields the
/// handle itself.
pub proof fn lemma_handle_round_trip(h: EventHandleV)
    requires
        h.key.len() == 32,
    ensures
        spec_deser_handle(spec_ser_handle(h)) == Option::Some(h),
{
    let b = spec_ser_handle(h);
    lemma_read_ser_u64(h.count, ser_bytes(h.key));
    assert(ser_bytes(h.key) =~= ser_bytes(h.key) + Seq::<u8>::empty());
    lemma_read_ser_bytes(h.key, Seq::<u8>::empty());
}

} // verus!
