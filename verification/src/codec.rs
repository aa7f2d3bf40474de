//! The artifact encoder: a canonical byte encoding of compiled scripts and
//! modules, and its decoder.
//!
//! Every length is a little-endian 64-bit count; an address contributes its
//! 32 bytes directly.  A module is `address ++ name ++ reference count ++
//! references`, a script the same without the name; names and references are
//! length-prefixed byte strings.  The encoding is a pure function of the
//! artifact, so identical artifacts always yield identical bytes.

use vstd::prelude::*;
use crate::address::AccountAddress;
use crate::artifact::{
    CompiledModule, CompiledModuleV, CompiledScript, CompiledScriptV, compiled_views,
};
use crate::ast::tok_views;
use crate::errors::CompilerError;
use crate::transaction::{Program, TransactionArgument, arg_views};

verus! {

broadcast use vstd::array::group_array_axioms;

/// The eight little-endian bytes of a 64-bit count.
pub open spec fn ser_u64(n: u64) -> Seq<u8> {
    seq![
        (n & 0xff) as u8,
        ((n >> 8) & 0xff) as u8,
        ((n >> 16) & 0xff) as u8,
        ((n >> 24) & 0xff) as u8,
        ((n >> 32) & 0xff) as u8,
        ((n >> 40) & 0xff) as u8,
        ((n >> 48) & 0xff) as u8,
        ((n >> 56) & 0xff) as u8,
    ]
}

/// The 64-bit count eight little-endian bytes stand for.
#[verifier::opaque]
pub open spec fn combine_u64(b: Seq<u8>) -> u64
    recommends
        b.len() == 8,
{
    ((b[0] as u64) | ((b[1] as u64) << 8) | ((b[2] as u64) << 16) | ((b[3] as u64) << 24) | ((
    b[4] as u64) << 32) | ((b[5] as u64) << 40) | ((b[6] as u64) << 48) | ((b[7] as u64) << 56))
}

/// A length-prefixed byte string.
pub open spec fn ser_bytes(x: Seq<u8>) -> Seq<u8>
    recommends
        x.len() <= u64::MAX,
{
    ser_u64(x.len() as u64) + x
}

/// Length-prefixed byte strings, one after the other.
pub open spec fn ser_bytes_list(l: Seq<Seq<u8>>) -> Seq<u8>
    decreases l.len(),
{
    if l.len() == 0 {
        Seq::empty()
    } else {
        ser_bytes(l[0]) + ser_bytes_list(l.drop_first())
    }
}

/// Read a 64-bit count off the front of `b`, returning it with the rest.
pub open spec fn read_u64(b: Seq<u8>) -> Option<(u64, Seq<u8>)> {
    if b.len() >= 8 {
        Option::Some((combine_u64(b.take(8)), b.skip(8)))
    } else {
        Option::None
    }
}

/// Read a length-prefixed byte string off the front of `b`.
pub open spec fn read_bytes(b: Seq<u8>) -> Option<(Seq<u8>, Seq<u8>)> {
    match read_u64(b) {
        Option::None => Option::None,
        Option::Some((n, rest)) => if rest.len() >= n {
            Option::Some((rest.take(n as int), rest.skip(n as int)))
        } else {
            Option::None
        },
    }
}

/// Read `count` length-prefixed byte strings off the front of `b`.
pub open spec fn read_bytes_list(b: Seq<u8>, count: nat) -> Option<(Seq<Seq<u8>>, Seq<u8>)>
    decreases count,
{
    if count == 0 {
        Option::Some((Seq::empty(), b))
    } else {
        match read_bytes(b) {
            Option::None => Option::None,
            Option::Some((x, rest)) => match read_bytes_list(rest, (count - 1) as nat) {
                Option::None => Option::None,
                Option::Some((l, r2)) => Option::Some((seq![x] + l, r2)),
            },
        }
    }
}

/// A compiled module's canonical bytes.
pub open spec fn spec_ser_module(m: CompiledModuleV) -> Seq<u8> {
    m.address + ser_bytes(m.name) + ser_u64(m.calls.len() as u64) + ser_bytes_list(m.calls)
}

/// A compiled script's canonical bytes.
pub open spec fn spec_ser_script(s: CompiledScriptV) -> Seq<u8> {
    s.address + ser_u64(s.calls.len() as u64) + ser_bytes_list(s.calls)
}

/// The canonical bytes of each module of a list, in the list's order.
pub open spec fn spec_ser_modules(ms: Seq<CompiledModuleV>) -> Seq<Seq<u8>> {
    Seq::new(ms.len(), |i: int| spec_ser_module(ms[i]))
}

/// The module a byte sequence is the canonical encoding of, if any: the
/// decoder accepts exactly the encoder's outputs, with nothing left over.
pub open spec fn spec_deser_module(b: Seq<u8>) -> Option<CompiledModuleV> {
    if b.len() < 32 {
        Option::None
    } else {
        match read_bytes(b.skip(32)) {
            Option::None => Option::None,
            Option::Some((name, r1)) => match read_u64(r1) {
                Option::None => Option::None,
                Option::Some((cnt, r2)) => match read_bytes_list(r2, cnt as nat) {
                    Option::None => Option::None,
                    Option::Some((calls, r3)) => if r3.len() == 0 {
                        Option::Some(
                            CompiledModuleV { address: b.take(32), name, calls },
                        )
                    } else {
                        Option::None
                    },
                },
            },
        }
    }
}

/// Reading back the count that was written recovers it and leaves the rest.
pub proof fn lemma_read_ser_u64(n: u64, rest: Seq<u8>)
    ensures
        read_u64(ser_u64(n) + rest) == Option::Some((n, rest)),
{
    reveal(combine_u64);
    let b = ser_u64(n) + rest;
    assert(b.take(8) =~= ser_u64(n));
    assert(b.skip(8) =~= rest);
    assert(((n & 0xff) | (((n >> 8) & 0xff) << 8) | (((n >> 16) & 0xff) << 16) | (((n >> 24)
        & 0xff) << 24) | (((n >> 32) & 0xff) << 32) | (((n >> 40) & 0xff) << 40) | (((n >> 48)
        & 0xff) << 48) | (((n >> 56) & 0xff) << 56)) == n) by (bit_vector);
    assert((n & 0xff) < 256 && ((n >> 8) & 0xff) < 256 && ((n >> 16) & 0xff) < 256 && ((n >> 24)
        & 0xff) < 256 && ((n >> 32) & 0xff) < 256 && ((n >> 40) & 0xff) < 256 && ((n >> 48)
        & 0xff) < 256 && ((n >> 56) & 0xff) < 256) by (bit_vector);
    assert(combine_u64(ser_u64(n)) == n);
}

/// Reading back a byte string that was written recovers it and leaves the
/// rest.
pub proof fn lemma_read_ser_bytes(x: Seq<u8>, rest: Seq<u8>)
    requires
        x.len() <= u64::MAX,
    ensures
        read_bytes(ser_bytes(x) + rest) == Option::Some((x, rest)),
{
    let n = x.len() as u64;
    assert(ser_bytes(x) + rest =~= ser_u64(n) + (x + rest));
    lemma_read_ser_u64(n, x + rest);
    assert((x + rest).take(n as int) =~= x);
    assert((x + rest).skip(n as int) =~= rest);
}

/// Reading back a list of byte strings that was written recovers it and
/// leaves the rest.
#[verifier::rlimit(100)]
#[verifier::spinoff_prover]
pub proof fn lemma_read_ser_list(l: Seq<Seq<u8>>, rest: Seq<u8>)
    requires
        forall|i: int| 0 <= i < l.len() ==> #[trigger] l[i].len() <= u64::MAX,
    ensures
        read_bytes_list(ser_bytes_list(l) + rest, l.len()) == Option::Some((l, rest)),
    decreases l.len(),
{
    if l.len() == 0 {
        assert(ser_bytes_list(l) + rest =~= rest);
        assert(read_bytes_list(rest, 0) == Option::Some((Seq::<Seq<u8>>::empty(), rest)));
        assert(l =~= Seq::<Seq<u8>>::empty());
    } else {
        let tail = l.drop_first();
        let b_all = ser_bytes_list(l) + rest;
        assert(b_all =~= ser_bytes(l[0]) + (ser_bytes_list(tail) + rest));
        lemma_read_ser_bytes(l[0], ser_bytes_list(tail) + rest);
        assert(read_bytes(b_all) == Option::Some((l[0], ser_bytes_list(tail) + rest)));
        assert(forall|i: int| 0 <= i < tail.len() ==> #[trigger] tail[i].len() <= u64::MAX);
        lemma_read_ser_list(tail, rest);
        assert(read_bytes_list(ser_bytes_list(tail) + rest, tail.len()) == Option::Some(
            (tail, rest),
        ));
        assert(read_bytes_list(b_all, l.len()) == Option::Some((seq![l[0]] + tail, rest)));
        assert(seq![l[0]] + tail =~= l);
    }
}

/// Round-trip: decoding the canonical bytes of any well-formed compiled
/// module yields the module itself, structurally.
pub proof fn lemma_module_round_trip(m: CompiledModuleV)
    requires
        m.address.len() == 32,
        m.name.len() <= u64::MAX,
        m.calls.len() <= u64::MAX,
        forall|i: int| 0 <= i < m.calls.len() ==> #[trigger] m.calls[i].len() <= u64::MAX,
    ensures
        spec_deser_module(spec_ser_module(m)) == Option::Some(m),
{
    let b = spec_ser_module(m);
    let tail1 = ser_bytes(m.name) + (ser_u64(m.calls.len() as u64) + ser_bytes_list(m.calls));
    assert(b.len() >= 32);
    assert(b.take(32) =~= m.address);
    assert(b.skip(32) =~= tail1);
    lemma_read_ser_bytes(m.name, ser_u64(m.calls.len() as u64) + ser_bytes_list(m.calls));
    lemma_read_ser_u64(m.calls.len() as u64, ser_bytes_list(m.calls));
    assert(ser_bytes_list(m.calls) =~= ser_bytes_list(m.calls) + Seq::<u8>::empty());
    lemma_read_ser_list(m.calls, Seq::<u8>::empty());
    assert(spec_deser_module(b) == Option::Some(
        CompiledModuleV { address: b.take(32), name: m.name, calls: m.calls },
    ));
}

/// Appending one more byte string extends the encoding at its end.
pub proof fn lemma_ser_list_push(l: Seq<Seq<u8>>, x: Seq<u8>)
    ensures
        ser_bytes_list(l.push(x)) == ser_bytes_list(l) + ser_bytes(x),
    decreases l.len(),
{
    if l.len() == 0 {
        assert(l.push(x)[0] == x);
        assert(l.push(x).drop_first() =~= Seq::<Seq<u8>>::empty());
        assert(ser_bytes_list(Seq::<Seq<u8>>::empty()) == Seq::<u8>::empty());
        assert(ser_bytes_list(l.push(x)) == ser_bytes(x) + Seq::<u8>::empty());
        assert(ser_bytes(x) + Seq::<u8>::empty() =~= ser_bytes(x));
        assert(ser_bytes_list(l) + ser_bytes(x) =~= ser_bytes(x));
    } else {
        assert(l.push(x)[0] == l[0]);
        assert(l.push(x).drop_first() =~= l.drop_first().push(x));
        lemma_ser_list_push(l.drop_first(), x);
        assert(ser_bytes_list(l) + ser_bytes(x) =~= ser_bytes(l[0]) + (ser_bytes_list(
            l.drop_first(),
        ) + ser_bytes(x)));
    }
}

/// Append the eight little-endian bytes of a count.
pub fn write_u64(out: &mut Vec<u8>, n: u64)
    ensures
        final(out)@ == old(out)@ + ser_u64(n),
{
    proof {
        assert((n & 0xff) < 256 && ((n >> 8) & 0xff) < 256 && ((n >> 16) & 0xff) < 256 && ((n
            >> 24) & 0xff) < 256 && ((n >> 32) & 0xff) < 256 && ((n >> 40) & 0xff) < 256 && ((n
            >> 48) & 0xff) < 256 && ((n >> 56) & 0xff) < 256) by (bit_vector);
    }
    let ghost o0 = out@;
    out.push((n & 0xff) as u8);
    out.push(((n >> 8) & 0xff) as u8);
    out.push(((n >> 16) & 0xff) as u8);
    out.push(((n >> 24) & 0xff) as u8);
    out.push(((n >> 32) & 0xff) as u8);
    out.push(((n >> 40) & 0xff) as u8);
    out.push(((n >> 48) & 0xff) as u8);
    out.push(((n >> 56) & 0xff) as u8);
    proof {
        assert(out@ =~= o0 + ser_u64(n));
    }
}

/// Append a length-prefixed byte string.
pub fn write_bytes(out: &mut Vec<u8>, x: &Vec<u8>)
    ensures
        final(out)@ == old(out)@ + ser_bytes(x@),
{
    let ghost o0 = out@;
    write_u64(out, x.len() as u64);
    out.extend_from_slice(x.as_slice());
    proof {
        assert(out@ =~= o0 + ser_bytes(x@));
    }
}

/// Serialize a compiled script into its canonical bytes.
pub fn serialize_script(s: &CompiledScript) -> (r: Vec<u8>)
    ensures
        r@ == spec_ser_script(s@),
{
    let mut out: Vec<u8> = Vec::new();
    out.extend_from_slice(s.address.as_bytes());
    write_u64(&mut out, s.calls.len() as u64);
    let ghost head = s@.address + ser_u64(s@.calls.len() as u64);
    proof {
        assert(out@ =~= head);
        assert(tok_views(s.calls).take(0) =~= Seq::<Seq<u8>>::empty());
        assert(out@ =~= head + ser_bytes_list(tok_views(s.calls).take(0)));
    }
    let mut i: usize = 0;
    while i < s.calls.len()
        invariant
            0 <= i <= s.calls@.len(),
            out@ == head + ser_bytes_list(tok_views(s.calls).take(i as int)),
        decreases s.calls@.len() - i,
    {
        write_bytes(&mut out, &s.calls[i]);
        proof {
            lemma_ser_list_push(tok_views(s.calls).take(i as int), tok_views(s.calls)[i as int]);
            assert(tok_views(s.calls).take(i as int).push(tok_views(s.calls)[i as int])
                =~= tok_views(s.calls).take(i as int + 1));
            assert(out@ =~= head + ser_bytes_list(tok_views(s.calls).take(i as int + 1)));
        }
        i += 1;
    }
    proof {
        assert(tok_views(s.calls).take(s.calls@.len() as int) =~= tok_views(s.calls));
        assert(out@ =~= spec_ser_script(s@));
    }
    out
}

/// Serialize a compiled module into its canonical bytes.
pub fn serialize_module(m: &CompiledModule) -> (r: Vec<u8>)
    ensures
        r@ == spec_ser_module(m@),
{
    let mut out: Vec<u8> = Vec::new();
    out.extend_from_slice(m.address.as_bytes());
    write_bytes(&mut out, &m.name);
    write_u64(&mut out, m.calls.len() as u64);
    let ghost head = m@.address + ser_bytes(m@.name) + ser_u64(m@.calls.len() as u64);
    proof {
        assert(out@ =~= head);
        assert(tok_views(m.calls).take(0) =~= Seq::<Seq<u8>>::empty());
        assert(out@ =~= head + ser_bytes_list(tok_views(m.calls).take(0)));
    }
    let mut i: usize = 0;
    while i < m.calls.len()
        invariant
            0 <= i <= m.calls@.len(),
            out@ == head + ser_bytes_list(tok_views(m.calls).take(i as int)),
        decreases m.calls@.len() - i,
    {
        write_bytes(&mut out, &m.calls[i]);
        proof {
            lemma_ser_list_push(tok_views(m.calls).take(i as int), tok_views(m.calls)[i as int]);
            assert(tok_views(m.calls).take(i as int).push(tok_views(m.calls)[i as int])
                =~= tok_views(m.calls).take(i as int + 1));
            assert(out@ =~= head + ser_bytes_list(tok_views(m.calls).take(i as int + 1)));
        }
        i += 1;
    }
    proof {
        assert(tok_views(m.calls).take(m.calls@.len() as int) =~= tok_views(m.calls));
        assert(out@ =~= spec_ser_module(m@));
    }
    out
}

/// Serialize each module of a list, preserving the list's order.
pub fn serialize_modules(ms: &Vec<CompiledModule>) -> (r: Vec<Vec<u8>>)
    ensures
        tok_views(r) == spec_ser_modules(compiled_views(*ms)),
{
    let mut r: Vec<Vec<u8>> = Vec::new();
    let ghost target = spec_ser_modules(compiled_views(*ms));
    proof {
        assert(tok_views(r) =~= target.take(0));
    }
    let mut i: usize = 0;
    while i < ms.len()
        invariant
            0 <= i <= ms@.len(),
            target == spec_ser_modules(compiled_views(*ms)),
            tok_views(r) == target.take(i as int),
        decreases ms@.len() - i,
    {
        let ghost r0 = tok_views(r);
        r.push(serialize_module(&ms[i]));
        proof {
            assert(tok_views(r) =~= r0.push(target[i as int]));
            assert(r0.push(target[i as int]) =~= target.take(i as int + 1));
        }
        i += 1;
    }
    proof {
        assert(target.take(ms@.len() as int) =~= target);
    }
    r
}

/// Assemble a transaction payload from already-serialized parts: pure
/// assembly.  The payload's module-byte list is exactly the input list in
/// the same order, and the arguments are passed through unchanged.
pub fn build_payload(
    serialized_script: Vec<u8>,
    serialized_modules: Vec<Vec<u8>>,
    args: Vec<TransactionArgument>,
) -> (r: Program)
    ensures
        r@.code == serialized_script@,
        r@.modules == tok_views(serialized_modules),
        r@.args == arg_views(args),
{
    Program::new(serialized_script, serialized_modules, args)
}

/// Read a count at a position of a byte slice.
pub fn read_u64_at(b: &[u8], pos: usize) -> (r: Option<(u64, usize)>)
    requires
        pos <= b@.len(),
    ensures
        match r {
            Option::Some(p) => read_u64(b@.skip(pos as int)) == Option::Some(
                (p.0, b@.skip(p.1 as int)),
            ) && pos < p.1 <= b@.len(),
            Option::None => read_u64(b@.skip(pos as int)) is None,
        },
{
    if b.len() - pos < 8 {
        return Option::None;
    }
    let n: u64 = (b[pos] as u64) | ((b[pos + 1] as u64) << 8u64) | ((b[pos + 2] as u64) << 16u64)
        | ((b[pos + 3] as u64) << 24u64) | ((b[pos + 4] as u64) << 32u64) | ((b[pos + 5] as u64)
        << 40u64) | ((b[pos + 6] as u64) << 48u64) | ((b[pos + 7] as u64) << 56u64);
    proof {
        reveal(combine_u64);
        let s = b@.skip(pos as int);
        assert(s.take(8)[0] == b@[pos as int]);
        assert(s.take(8)[1] == b@[pos as int + 1]);
        assert(s.take(8)[2] == b@[pos as int + 2]);
        assert(s.take(8)[3] == b@[pos as int + 3]);
        assert(s.take(8)[4] == b@[pos as int + 4]);
        assert(s.take(8)[5] == b@[pos as int + 5]);
        assert(s.take(8)[6] == b@[pos as int + 6]);
        assert(s.take(8)[7] == b@[pos as int + 7]);
        assert(combine_u64(s.take(8)) == n);
        assert(s.skip(8) =~= b@.skip(pos as int + 8));
    }
    Option::Some((n, pos + 8))
}

/// Read a length-prefixed byte string at a position of a byte slice.
pub fn read_bytes_at(b: &[u8], pos: usize) -> (r: Option<(Vec<u8>, usize)>)
    requires
        pos <= b@.len(),
    ensures
        match r {
            Option::Some(p) => read_bytes(b@.skip(pos as int)) == Option::Some(
                (p.0@, b@.skip(p.1 as int)),
            ) && pos < p.1 <= b@.len(),
            Option::None => read_bytes(b@.skip(pos as int)) is None,
        },
{
    let (n, p1) = match read_u64_at(b, pos) {
        Option::Some(p) => p,
        Option::None => {
            return Option::None;
        },
    };
    let rem = b.len() - p1;
    if n > rem as u64 {
        proof {
            assert(b@.skip(pos as int).skip(8) =~= b@.skip(p1 as int));
        }
        return Option::None;
    }
    let nn = n as usize;
    let piece = vstd::slice::slice_subrange(b, p1, p1 + nn);
    let out = vstd::slice::slice_to_vec(piece);
    proof {
        assert(b@.skip(p1 as int).take(n as int) =~= b@.subrange(p1 as int, p1 as int + n));
        assert(b@.skip(p1 as int).skip(n as int) =~= b@.skip(p1 as int + n));
    }
    Option::Some((out, p1 + nn))
}

/// How a prefix already read combines with the outcome of the reads still
/// to do.
pub open spec fn map_prepend(pre: Seq<Seq<u8>>, o: Option<(Seq<Seq<u8>>, Seq<u8>)>) -> Option<
    (Seq<Seq<u8>>, Seq<u8>),
> {
    match o {
        Option::None => Option::None,
        Option::Some((l, r)) => Option::Some((pre + l, r)),
    }
}

proof fn lemma_map_prepend_step(pre: Seq<Seq<u8>>, x: Seq<u8>, o: Option<(Seq<Seq<u8>>, Seq<u8>)>)
    ensures
        map_prepend(pre, map_prepend(seq![x], o)) == map_prepend(pre.push(x), o),
{
    match o {
        Option::None => {},
        Option::Some((l, r)) => {
            assert(pre + (seq![x] + l) =~= pre.push(x) + l);
        },
    }
}

/// Decode a compiled module from its canonical bytes.  Returns exactly the
/// module `spec_deser_module` gives, and `SerializationError` exactly on the
/// byte sequences it rejects.
pub fn deserialize_module(b: &[u8]) -> (r: Result<CompiledModule, CompilerError>)
    ensures
        match r {
            Ok(m) => spec_deser_module(b@) == Option::Some(m@),
            Err(e) => spec_deser_module(b@) is None && e is SerializationError,
        },
{
    if b.len() < 32 {
        return Err(CompilerError::SerializationError);
    }
    let mut addr_bytes: [u8; 32] = [0u8; 32];
    let mut i: usize = 0;
    while i < 32
        invariant
            0 <= i <= 32,
            b@.len() >= 32,
            addr_bytes@.len() == 32,
            forall|j: int| 0 <= j < i ==> addr_bytes@[j] == b@[j],
        decreases 32 - i,
    {
        addr_bytes[i] = b[i];
        i += 1;
    }
    proof {
        assert(addr_bytes@ =~= b@.take(32));
    }
    let address = AccountAddress::new(addr_bytes);
    let (name, p1) = match read_bytes_at(b, 32) {
        Option::Some(p) => p,
        Option::None => {
            return Err(CompilerError::SerializationError);
        },
    };
    let (cnt, p2) = match read_u64_at(b, p1) {
        Option::Some(p) => p,
        Option::None => {
            return Err(CompilerError::SerializationError);
        },
    };
    let ghost full = read_bytes_list(b@.skip(p2 as int), cnt as nat);
    let mut calls: Vec<Vec<u8>> = Vec::new();
    let mut pos: usize = p2;
    let mut k: u64 = 0;
    proof {
        assert(tok_views(calls) =~= Seq::<Seq<u8>>::empty());
        assert(full == map_prepend(tok_views(calls), read_bytes_list(
            b@.skip(pos as int),
            (cnt - k) as nat,
        )));
    }
    while k < cnt
        invariant
            0 <= k <= cnt,
            b@.len() >= 32,
            32 < p1 <= b@.len(),
            p1 < p2 <= b@.len(),
            p2 <= pos <= b@.len(),
            read_bytes(b@.skip(32)) == Option::Some((name@, b@.skip(p1 as int))),
            read_u64(b@.skip(p1 as int)) == Option::Some((cnt, b@.skip(p2 as int))),
            full == read_bytes_list(b@.skip(p2 as int), cnt as nat),
            full == map_prepend(tok_views(calls), read_bytes_list(
                b@.skip(pos as int),
                (cnt - k) as nat,
            )),
        decreases cnt - k,
    {
        let ghost c0 = tok_views(calls);
        let (x, p3) = match read_bytes_at(b, pos) {
            Option::Some(p) => p,
            Option::None => {
                proof {
                    assert(read_bytes_list(b@.skip(pos as int), (cnt - k) as nat) is None);
                    assert(read_bytes(b@.skip(32)) == Option::Some((name@, b@.skip(p1 as int))));
                    assert(read_u64(b@.skip(p1 as int)) == Option::Some(
                        (cnt, b@.skip(p2 as int)),
                    ));
                    assert(read_bytes_list(b@.skip(p2 as int), cnt as nat) is None);
                    assert(spec_deser_module(b@) is None);
                }
                return Err(CompilerError::SerializationError);
            },
        };
        proof {
            assert(read_bytes_list(b@.skip(pos as int), (cnt - k) as nat) == map_prepend(
                seq![x@],
                read_bytes_list(b@.skip(p3 as int), (cnt - k - 1) as nat),
            ));
            lemma_map_prepend_step(c0, x@, read_bytes_list(
                b@.skip(p3 as int),
                (cnt - k - 1) as nat,
            ));
        }
        calls.push(x);
        proof {
            assert(tok_views(calls) =~= c0.push(tok_views(calls)[c0.len() as int]));
            assert(tok_views(calls) =~= c0.push(calls@[c0.len() as int]@));
        }
        pos = p3;
        k += 1;
    }
    proof {
        assert(read_bytes_list(b@.skip(pos as int), 0) == Option::Some(
            (Seq::<Seq<u8>>::empty(), b@.skip(pos as int)),
        ));
        assert(tok_views(calls) + Seq::<Seq<u8>>::empty() =~= tok_views(calls));
        assert(full == Option::Some((tok_views(calls), b@.skip(pos as int))));
    }
    if pos != b.len() {
        proof {
            assert(b@.skip(pos as int).len() != 0);
            assert(read_bytes(b@.skip(32)) == Option::Some((name@, b@.skip(p1 as int))));
            assert(read_u64(b@.skip(p1 as int)) == Option::Some((cnt, b@.skip(p2 as int))));
            assert(read_bytes_list(b@.skip(p2 as int), cnt as nat) == Option::Some(
                (tok_views(calls), b@.skip(pos as int)),
            ));
            assert(spec_deser_module(b@) is None);
        }
        return Err(CompilerError::SerializationError);
    }
    let m = CompiledModule { address, name, calls };
    proof {
        assert(b@.skip(pos as int).len() == 0);
        assert(m@.address =~= b@.take(32));
        assert(spec_deser_module(b@) == Option::Some(m@));
    }
    Ok(m)
}

} // verus!
