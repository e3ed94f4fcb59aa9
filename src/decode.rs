//! An OSC 1.0 reader, stated as spec functions, and the proof that it reads
//! back exactly what the encoder wrote.

use vstd::prelude::*;
use vstd::utf8::{decode_utf8, encode_scalar, encode_utf8, encode_utf8_decode_utf8};
use crate::osc::{
    ArgModel, BundleModel, MessageModel, arg_bytes, arg_tag, args_bytes, be32, bundle_bytes,
    bundle_magic, element_bytes, elements_bytes, encodable, message_bytes, osc_string, type_tags,
};

verus! {

/// The big-endian value of the first four bytes.
pub open spec fn be32_value(b: Seq<u8>) -> u32 {
    (b[0] as int * 0x100_0000 + b[1] as int * 0x1_0000 + b[2] as int * 0x100 + b[3] as int) as u32
}

/// A 32-bit big-endian word, and what follows it.
pub open spec fn read_be32(b: Seq<u8>) -> Option<(u32, Seq<u8>)> {
    if b.len() >= 4 {
        Some((be32_value(b), b.skip(4)))
    } else {
        None
    }
}

/// The index of the first NUL byte.
pub open spec fn first_nul(b: Seq<u8>) -> Option<nat>
    decreases b.len(),
{
    if b.len() == 0 {
        None
    } else if b[0] == 0 {
        Some(0)
    } else {
        match first_nul(b.drop_first()) {
            Some(n) => Some(n + 1),
            None => None,
        }
    }
}

/// The bytes of an OSC string up to its NUL, and what follows its padding.
pub open spec fn read_raw_string(b: Seq<u8>) -> Option<(Seq<u8>, Seq<u8>)> {
    match first_nul(b) {
        Some(n) => {
            let end = (n / 4 + 1) * 4;
            if end <= b.len() {
                Some((b.take(n as int), b.skip(end as int)))
            } else {
                None
            }
        },
        None => None,
    }
}

/// One argument of the given type tag, and what follows it.
pub open spec fn read_arg(tag: u8, b: Seq<u8>) -> Option<(ArgModel, Seq<u8>)> {
    if tag == 0x69 {
        match read_be32(b) {
            Some((v, r)) => Some((ArgModel::Int(v as i32), r)),
            None => None,
        }
    } else if tag == 0x66 {
        match read_be32(b) {
            Some((v, r)) => Some((ArgModel::Float(v), r)),
            None => None,
        }
    } else if tag == 0x73 {
        match read_raw_string(b) {
            Some((s, r)) => Some((ArgModel::Str(decode_utf8(s)), r)),
            None => None,
        }
    } else if tag == 0x74 {
        match read_be32(b) {
            Some((s, r)) => match read_be32(r) {
                Some((f, r2)) => Some((ArgModel::Time(s, f), r2)),
                None => None,
            },
            None => None,
        }
    } else {
        None
    }
}

/// The arguments of the given type tags, in order, and what follows them.
pub open spec fn read_args(tags: Seq<u8>, b: Seq<u8>) -> Option<(Seq<ArgModel>, Seq<u8>)>
    decreases tags.len(),
{
    if tags.len() == 0 {
        Some((Seq::empty(), b))
    } else {
        match read_arg(tags[0], b) {
            Some((a, r)) => match read_args(tags.drop_first(), r) {
                Some((more, r2)) => Some((seq![a] + more, r2)),
                None => None,
            },
            None => None,
        }
    }
}

/// A message that fills `b` exactly.
#[verifier::opaque]
pub open spec fn decode_message(b: Seq<u8>) -> Option<MessageModel> {
    match read_raw_string(b) {
        Some((addr, r)) => match read_raw_string(r) {
            Some((tags, r2)) => if tags.len() >= 1 && tags[0] == 0x2c {
                match read_args(tags.drop_first(), r2) {
                    Some((args, r3)) => if r3.len() == 0 {
                        Some(MessageModel { addr: decode_utf8(addr), args })
                    } else {
                        None
                    },
                    None => None,
                }
            } else {
                None
            },
            None => None,
        },
        None => None,
    }
}

/// Size-prefixed elements that fill `b` exactly.
pub open spec fn read_elements(b: Seq<u8>) -> Option<Seq<MessageModel>>
    decreases b.len(),
{
    if b.len() == 0 {
        Some(Seq::empty())
    } else if b.len() < 4 {
        None
    } else {
        let size = be32_value(b) as int;
        let r = b.skip(4);
        if size <= r.len() {
            match decode_message(r.take(size)) {
                Some(m) => match read_elements(r.skip(size)) {
                    Some(ms) => Some(seq![m] + ms),
                    None => None,
                },
                None => None,
            }
        } else {
            None
        }
    }
}

/// A bundle that fills `b` exactly.
pub open spec fn decode_bundle(b: Seq<u8>) -> Option<BundleModel> {
    if b.len() >= 16 && b.take(8) == bundle_magic() {
        match read_elements(b.skip(16)) {
            Some(content) => Some(
                BundleModel { timetag: (be32_value(b.skip(8)), be32_value(b.skip(12))), content },
            ),
            None => None,
        }
    } else {
        None
    }
}

/// No character of `s` is NUL, which would end an OSC string early.
pub open spec fn nul_free_chars(s: Seq<char>) -> bool {
    forall|i: int| 0 <= i < s.len() ==> (#[trigger] s[i]) as u32 != 0
}

/// No byte of `b` is zero.
pub open spec fn nul_free(b: Seq<u8>) -> bool {
    forall|i: int| 0 <= i < b.len() ==> #[trigger] b[i] != 0
}

/// An argument that can be read back: a string holds no NUL.
pub open spec fn arg_wf(a: ArgModel) -> bool {
    match a {
        ArgModel::Str(s) => nul_free_chars(s),
        _ => true,
    }
}

/// A message that can be read back: its address and strings hold no NUL.
pub open spec fn message_wf(m: MessageModel) -> bool {
    nul_free_chars(m.addr) && forall|i: int| 0 <= i < m.args.len() ==> arg_wf(#[trigger] m.args[i])
}

/// A bundle that can be read back.
pub open spec fn bundle_wf(b: BundleModel) -> bool {
    encodable(b) && forall|i: int| 0 <= i < b.content.len() ==> message_wf(#[trigger] b.content[i])
}

pub proof fn lemma_read_be32(v: u32, rest: Seq<u8>)
    ensures
        read_be32(be32(v) + rest) == Some((v, rest)),
{
    let b = be32(v) + rest;
    assert((v / 0x100_0000) * 0x100_0000 + ((v / 0x1_0000) % 0x100) * 0x1_0000 + ((v / 0x100)
        % 0x100) * 0x100 + v % 0x100 == v) by (bit_vector);
    assert(v / 0x100_0000 < 0x100) by (bit_vector);
    assert(b.skip(4) =~= rest);
}

proof fn lemma_scalar_nul_free(c: char)
    requires
        c as u32 != 0,
    ensures
        nul_free(encode_scalar(c as u32)),
{
    let v = c as u32;
    assert((v & 0x7F) as u8 != 0 || !(v <= 0x7F) || v == 0) by (bit_vector);
    assert((0xC0u8 | ((v >> 6u32) & 0x1F) as u8) != 0) by (bit_vector);
    assert((0xE0u8 | ((v >> 12u32) & 0x0F) as u8) != 0) by (bit_vector);
    assert((0xF0u8 | ((v >> 18u32) & 0x7) as u8) != 0) by (bit_vector);
    assert((0x80u8 | (v & 0x3F) as u8) != 0) by (bit_vector);
    assert((0x80u8 | ((v >> 6u32) & 0x3F) as u8) != 0) by (bit_vector);
    assert((0x80u8 | ((v >> 12u32) & 0x3F) as u8) != 0) by (bit_vector);
}

proof fn lemma_utf8_nul_free(s: Seq<char>)
    requires
        nul_free_chars(s),
    ensures
        nul_free(encode_utf8(s)),
    decreases s.len(),
{
    if s.len() > 0 {
        assert(s[0] as u32 != 0);
        lemma_scalar_nul_free(s[0]);
        assert(nul_free_chars(s.drop_first())) by {
            assert forall|i: int| 0 <= i < s.drop_first().len() implies (#[trigger] s.drop_first()[i]) as u32 != 0 by {
                assert(s.drop_first()[i] == s[i + 1]);
            }
        }
        lemma_utf8_nul_free(s.drop_first());
        let a = encode_scalar(s[0] as u32);
        let t = encode_utf8(s.drop_first());
        assert(encode_utf8(s) == a + t);
        assert forall|i: int| 0 <= i < (a + t).len() implies #[trigger] (a + t)[i] != 0 by {
            if i < a.len() {
                assert((a + t)[i] == a[i]);
            } else {
                assert((a + t)[i] == t[i - a.len()]);
            }
        }
    }
}

proof fn lemma_first_nul(bs: Seq<u8>, tail: Seq<u8>)
    requires
        nul_free(bs),
        tail.len() > 0,
        tail[0] == 0,
    ensures
        first_nul(bs + tail) == Some(bs.len()),
    decreases bs.len(),
{
    if bs.len() == 0 {
        assert(bs + tail =~= tail);
    } else {
        assert((bs + tail).drop_first() =~= bs.drop_first() + tail);
        assert((bs + tail)[0] == bs[0]);
        lemma_first_nul(bs.drop_first(), tail);
    }
}

pub proof fn lemma_read_raw_string(bs: Seq<u8>, rest: Seq<u8>)
    requires
        nul_free(bs),
    ensures
        read_raw_string(osc_string(bs) + rest) == Some((bs, rest)),
{
    let n = bs.len();
    let pad = Seq::new((4 - n % 4) as nat, |i: int| 0u8);
    let b = osc_string(bs) + rest;
    assert(b =~= bs + (pad + rest));
    lemma_first_nul(bs, pad + rest);
    let end = (n / 4 + 1) * 4;
    assert(end == n + (4 - n % 4)) by (nonlinear_arith)
        requires end == (n / 4 + 1) * 4;
    assert(b.take(n as int) =~= bs);
    assert(b.skip(end as int) =~= rest);
}

proof fn lemma_int_round_trip(i: i32)
    ensures
        ((i as u32) as i32) == i,
{
    assert(((i as u32) as i32) == i) by (bit_vector);
}

pub proof fn lemma_read_arg(a: ArgModel, rest: Seq<u8>)
    requires
        arg_wf(a),
    ensures
        read_arg(arg_tag(a), arg_bytes(a) + rest) == Some((a, rest)),
{
    match a {
        ArgModel::Int(i) => {
            lemma_read_be32(i as u32, rest);
            lemma_int_round_trip(i);
        },
        ArgModel::Float(v) => {
            lemma_read_be32(v, rest);
        },
        ArgModel::Str(s) => {
            lemma_utf8_nul_free(s);
            lemma_read_raw_string(encode_utf8(s), rest);
            encode_utf8_decode_utf8(s);
        },
        ArgModel::Time(s, f) => {
            assert(arg_bytes(a) + rest =~= be32(s) + (be32(f) + rest));
            lemma_read_be32(s, be32(f) + rest);
            lemma_read_be32(f, rest);
        },
    }
}

proof fn lemma_args_bytes_front(args: Seq<ArgModel>)
    requires
        args.len() > 0,
    ensures
        args_bytes(args) == arg_bytes(args[0]) + args_bytes(args.drop_first()),
    decreases args.len(),
{
    if args.len() == 1 {
        assert(args.drop_last() =~= Seq::<ArgModel>::empty());
        assert(args.drop_first() =~= Seq::<ArgModel>::empty());
        assert(args_bytes(args) =~= arg_bytes(args[0]) + args_bytes(args.drop_first()));
    } else {
        let dl = args.drop_last();
        lemma_args_bytes_front(dl);
        assert(dl.drop_first() =~= args.drop_first().drop_last());
        assert(args.drop_first().last() == args.last());
        assert(args_bytes(args) =~= arg_bytes(args[0]) + args_bytes(args.drop_first()));
    }
}

pub proof fn lemma_read_args(args: Seq<ArgModel>, rest: Seq<u8>)
    requires
        forall|i: int| 0 <= i < args.len() ==> arg_wf(#[trigger] args[i]),
    ensures
        read_args(args.map_values(|a: ArgModel| arg_tag(a)), args_bytes(args) + rest) == Some(
            (args, rest),
        ),
    decreases args.len(),
{
    let tags = args.map_values(|a: ArgModel| arg_tag(a));
    if args.len() == 0 {
        assert(args_bytes(args) + rest =~= rest);
        assert(args =~= Seq::<ArgModel>::empty());
    } else {
        lemma_args_bytes_front(args);
        let tail = args.drop_first();
        assert(args_bytes(args) + rest =~= arg_bytes(args[0]) + (args_bytes(tail) + rest));
        assert(arg_wf(args[0]));
        lemma_read_arg(args[0], args_bytes(tail) + rest);
        assert(tags.drop_first() =~= tail.map_values(|a: ArgModel| arg_tag(a)));
        assert forall|i: int| 0 <= i < tail.len() implies arg_wf(#[trigger] tail[i]) by {
            assert(tail[i] == args[i + 1]);
        }
        lemma_read_args(tail, rest);
        assert(seq![args[0]] + tail =~= args);
    }
}

pub proof fn lemma_decode_message(m: MessageModel)
    requires
        message_wf(m),
    ensures
        decode_message(message_bytes(m)) == Some(m),
{
    reveal(decode_message);
    let addr = encode_utf8(m.addr);
    let tags = type_tags(m.args);
    let body = args_bytes(m.args);
    lemma_utf8_nul_free(m.addr);
    assert(message_bytes(m) =~= osc_string(addr) + (osc_string(tags) + body));
    lemma_read_raw_string(addr, osc_string(tags) + body);
    assert(nul_free(tags)) by {
        assert forall|i: int| 0 <= i < tags.len() implies #[trigger] tags[i] != 0 by {
            if i > 0 {
                assert(tags[i] == arg_tag(m.args[i - 1]));
            }
        }
    }
    lemma_read_raw_string(tags, body);
    assert(tags.drop_first() =~= m.args.map_values(|a: ArgModel| arg_tag(a)));
    assert(body =~= body + Seq::<u8>::empty());
    lemma_read_args(m.args, Seq::<u8>::empty());
    encode_utf8_decode_utf8(m.addr);
}

proof fn lemma_elements_bytes_front(c: Seq<MessageModel>)
    requires
        c.len() > 0,
    ensures
        elements_bytes(c) == element_bytes(c[0]) + elements_bytes(c.drop_first()),
    decreases c.len(),
{
    if c.len() == 1 {
        assert(c.drop_last() =~= Seq::<MessageModel>::empty());
        assert(c.drop_first() =~= Seq::<MessageModel>::empty());
        assert(elements_bytes(c) =~= element_bytes(c[0]) + elements_bytes(c.drop_first()));
    } else {
        let dl = c.drop_last();
        lemma_elements_bytes_front(dl);
        assert(dl.drop_first() =~= c.drop_first().drop_last());
        assert(c.drop_first().last() == c.last());
        assert(elements_bytes(c) =~= element_bytes(c[0]) + elements_bytes(c.drop_first()));
    }
}

proof fn lemma_read_elements(c: Seq<MessageModel>)
    requires
        forall|i: int| 0 <= i < c.len() ==> message_wf(#[trigger] c[i]),
        forall|i: int| 0 <= i < c.len() ==> message_bytes(#[trigger] c[i]).len() <= u32::MAX,
    ensures
        read_elements(elements_bytes(c)) == Some(c),
    decreases c.len(),
{
    if c.len() == 0 {
    } else {
        lemma_elements_bytes_front(c);
        let m = c[0];
        let mb = message_bytes(m);
        let tail = c.drop_first();
        let b = elements_bytes(c);
        assert(mb.len() <= u32::MAX);
        assert(b =~= be32(mb.len() as u32) + (mb + elements_bytes(tail)));
        lemma_read_be32(mb.len() as u32, mb + elements_bytes(tail));
        assert(be32_value(b) == mb.len());
        let r = b.skip(4);
        assert(r =~= mb + elements_bytes(tail));
        assert(r.take(mb.len() as int) =~= mb);
        assert(r.skip(mb.len() as int) =~= elements_bytes(tail));
        assert(message_wf(c[0]));
        lemma_decode_message(m);
        assert forall|i: int| 0 <= i < tail.len() implies message_wf(#[trigger] tail[i]) by {
            assert(tail[i] == c[i + 1]);
        }
        assert forall|i: int| 0 <= i < tail.len() implies message_bytes(#[trigger] tail[i]).len() <= u32::MAX by {
            assert(tail[i] == c[i + 1]);
        }
        lemma_read_elements(tail);
        assert(seq![m] + tail =~= c);
    }
}

/// Reading a bundle's encoding gives the bundle back, when its strings hold
/// no NUL and each element fits its size prefix.
pub proof fn lemma_decode_bundle(b: BundleModel)
    requires
        bundle_wf(b),
    ensures
        decode_bundle(bundle_bytes(b)) == Some(b),
{
    let bytes = bundle_bytes(b);
    let els = elements_bytes(b.content);
    assert(bytes =~= bundle_magic() + (be32(b.timetag.0) + (be32(b.timetag.1) + els)));
    assert(bytes.take(8) =~= bundle_magic());
    assert(bytes.skip(8) =~= be32(b.timetag.0) + (be32(b.timetag.1) + els));
    lemma_read_be32(b.timetag.0, be32(b.timetag.1) + els);
    assert(bytes.skip(12) =~= be32(b.timetag.1) + els);
    lemma_read_be32(b.timetag.1, els);
    assert(bytes.skip(16) =~= els);
    lemma_read_elements(b.content);
}

} // verus!
