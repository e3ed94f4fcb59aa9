//! OSC 1.0 values, messages and bundles, and their binary encoding.

use vstd::prelude::*;
use vstd::utf8::encode_utf8;

verus! {

/// An OSC time tag: NTP seconds and a 32-bit binary fraction.
#[derive(Clone, Copy, Debug, PartialEq, Eq, Structural)]
pub struct OscTime {
    pub seconds: u32,
    pub fractional: u32,
}

/// One OSC argument. A float is held as its IEEE-754 bit pattern.
#[derive(Clone, Debug)]
pub enum OscType {
    Int(i32),
    Float(u32),
    Str(String),
    Time(OscTime),
}

/// An OSC message: an address pattern and a typed argument list.
#[derive(Clone, Debug)]
pub struct OscMessage {
    pub addr: String,
    pub args: Vec<OscType>,
}

/// An OSC bundle whose elements are messages.
#[derive(Clone, Debug)]
pub struct OscBundle {
    pub timetag: OscTime,
    pub content: Vec<OscMessage>,
}

/// The only failure of encoding: an element too long for its 32-bit size prefix.
#[derive(Clone, Copy, Debug, PartialEq, Eq, Structural)]
pub enum EncodeError {
    ElementTooLarge,
}

/// What an argument means.
pub enum ArgModel {
    Int(i32),
    Float(u32),
    Str(Seq<char>),
    Time(u32, u32),
}

/// What a message means.
pub struct MessageModel {
    pub addr: Seq<char>,
    pub args: Seq<ArgModel>,
}

/// What a bundle means.
pub struct BundleModel {
    pub timetag: (u32, u32),
    pub content: Seq<MessageModel>,
}

impl View for OscType {
    type V = ArgModel;

    open spec fn view(&self) -> ArgModel {
        match self {
            OscType::Int(i) => ArgModel::Int(*i),
            OscType::Float(b) => ArgModel::Float(*b),
            OscType::Str(s) => ArgModel::Str(s@),
            OscType::Time(t) => ArgModel::Time(t.seconds, t.fractional),
        }
    }
}

pub open spec fn args_model(args: Seq<OscType>) -> Seq<ArgModel> {
    args.map_values(|a: OscType| a@)
}

impl View for OscMessage {
    type V = MessageModel;

    open spec fn view(&self) -> MessageModel {
        MessageModel { addr: self.addr@, args: args_model(self.args@) }
    }
}

pub open spec fn messages_model(content: Seq<OscMessage>) -> Seq<MessageModel> {
    content.map_values(|m: OscMessage| m@)
}

impl View for OscBundle {
    type V = BundleModel;

    open spec fn view(&self) -> BundleModel {
        BundleModel {
            timetag: (self.timetag.seconds, self.timetag.fractional),
            content: messages_model(self.content@),
        }
    }
}

/// The four bytes of `v`, most significant first.
pub open spec fn be32(v: u32) -> Seq<u8> {
    seq![
        (v / 0x100_0000) as u8,
        ((v / 0x1_0000) % 0x100) as u8,
        ((v / 0x100) % 0x100) as u8,
        (v % 0x100) as u8,
    ]
}

/// An OSC string: the bytes, a terminating NUL, and NULs up to a multiple of four.
pub open spec fn osc_string(b: Seq<u8>) -> Seq<u8> {
    b + Seq::new((4 - b.len() % 4) as nat, |i: int| 0u8)
}

/// The type-tag character of an argument: `i`, `f`, `s` or `t`.
pub open spec fn arg_tag(a: ArgModel) -> u8 {
    match a {
        ArgModel::Int(_) => 0x69u8,
        ArgModel::Float(_) => 0x66u8,
        ArgModel::Str(_) => 0x73u8,
        ArgModel::Time(_, _) => 0x74u8,
    }
}

/// The type-tag string of an argument list: a comma and one tag per argument.
pub open spec fn type_tags(args: Seq<ArgModel>) -> Seq<u8> {
    seq![0x2cu8] + args.map_values(|a: ArgModel| arg_tag(a))
}

/// The payload of one argument.
pub open spec fn arg_bytes(a: ArgModel) -> Seq<u8> {
    match a {
        ArgModel::Int(i) => be32(i as u32),
        ArgModel::Float(b) => be32(b),
        ArgModel::Str(s) => osc_string(encode_utf8(s)),
        ArgModel::Time(s, f) => be32(s) + be32(f),
    }
}

/// The payloads of an argument list, in order.
pub open spec fn args_bytes(args: Seq<ArgModel>) -> Seq<u8>
    decreases args.len(),
{
    if args.len() == 0 {
        Seq::empty()
    } else {
        args_bytes(args.drop_last()) + arg_bytes(args.last())
    }
}

/// The OSC encoding of a message.
pub open spec fn message_bytes(m: MessageModel) -> Seq<u8> {
    osc_string(encode_utf8(m.addr)) + osc_string(type_tags(m.args)) + args_bytes(m.args)
}

/// A bundle element: the size of the message's encoding, then the encoding.
pub open spec fn element_bytes(m: MessageModel) -> Seq<u8> {
    be32(message_bytes(m).len() as u32) + message_bytes(m)
}

/// The elements of a bundle, in order.
pub open spec fn elements_bytes(content: Seq<MessageModel>) -> Seq<u8>
    decreases content.len(),
{
    if content.len() == 0 {
        Seq::empty()
    } else {
        elements_bytes(content.drop_last()) + element_bytes(content.last())
    }
}

/// The bundle marker `#bundle` and its NUL.
pub open spec fn bundle_magic() -> Seq<u8> {
    seq![0x23u8, 0x62u8, 0x75u8, 0x6eu8, 0x64u8, 0x6cu8, 0x65u8, 0x00u8]
}

/// The OSC encoding of a bundle.
pub open spec fn bundle_bytes(b: BundleModel) -> Seq<u8> {
    bundle_magic() + be32(b.timetag.0) + be32(b.timetag.1) + elements_bytes(b.content)
}

/// Each element's encoding fits its 32-bit size prefix.
pub open spec fn encodable(b: BundleModel) -> bool {
    forall|i: int| 0 <= i < b.content.len() ==> message_bytes(#[trigger] b.content[i]).len() <= u32::MAX
}

fn push_be32(out: &mut Vec<u8>, v: u32)
    ensures
        final(out)@ == old(out)@ + be32(v),
{
    assert(v / 0x100_0000 < 0x100) by (nonlinear_arith)
        requires v <= u32::MAX;
    out.push((v / 0x100_0000) as u8);
    out.push(((v / 0x1_0000) % 0x100) as u8);
    out.push(((v / 0x100) % 0x100) as u8);
    out.push((v % 0x100) as u8);
    assert(out@ =~= old(out)@ + be32(v));
}

fn push_osc_string(out: &mut Vec<u8>, b: &[u8])
    ensures
        final(out)@ == old(out)@ + osc_string(b@),
{
    let ghost start = out@;
    let mut i: usize = 0;
    while i < b.len()
        invariant
            i <= b@.len(),
            out@ == start + b@.subrange(0, i as int),
        decreases b@.len() - i,
    {
        out.push(b[i]);
        i = i + 1;
        assert(out@ =~= start + b@.subrange(0, i as int));
    }
    let pad: usize = 4 - b.len() % 4;
    let mut j: usize = 0;
    while j < pad
        invariant
            j <= pad,
            pad == 4 - b@.len() % 4,
            out@ == start + b@ + Seq::new(j as nat, |k: int| 0u8),
        decreases pad - j,
    {
        out.push(0u8);
        j = j + 1;
        assert(out@ =~= start + b@ + Seq::new(j as nat, |k: int| 0u8));
    }
    assert(b@.subrange(0, b@.len() as int) =~= b@);
    assert(out@ =~= start + osc_string(b@));
}

fn push_arg(out: &mut Vec<u8>, a: &OscType)
    ensures
        final(out)@ == old(out)@ + arg_bytes(a@),
{
    match a {
        OscType::Int(i) => push_be32(out, *i as u32),
        OscType::Float(b) => push_be32(out, *b),
        OscType::Str(s) => push_osc_string(out, s.as_str().as_bytes()),
        OscType::Time(t) => {
            push_be32(out, t.seconds);
            push_be32(out, t.fractional);
            assert(out@ =~= old(out)@ + arg_bytes(a@));
        },
    }
}

fn tag_of(a: &OscType) -> (r: u8)
    ensures
        r == arg_tag(a@),
{
    match a {
        OscType::Int(_) => 0x69u8,
        OscType::Float(_) => 0x66u8,
        OscType::Str(_) => 0x73u8,
        OscType::Time(_) => 0x74u8,
    }
}

/// Encodes a message as OSC 1.0 bytes.
pub fn encode_message(m: &OscMessage) -> (r: Vec<u8>)
    ensures
        r@ == message_bytes(m@),
{
    let mut out: Vec<u8> = Vec::new();
    push_osc_string(&mut out, m.addr.as_str().as_bytes());
    let ghost after_addr = out@;
    let mut tags: Vec<u8> = Vec::new();
    tags.push(0x2cu8);
    let mut i: usize = 0;
    while i < m.args.len()
        invariant
            i <= m.args@.len(),
            tags@ == type_tags(args_model(m.args@).take(i as int)),
        decreases m.args@.len() - i,
    {
        tags.push(tag_of(&m.args[i]));
        i = i + 1;
        assert(tags@ =~= type_tags(args_model(m.args@).take(i as int)));
    }
    assert(args_model(m.args@).take(m.args@.len() as int) =~= args_model(m.args@));
    push_osc_string(&mut out, tags.as_slice());
    let ghost after_tags = out@;
    let mut k: usize = 0;
    while k < m.args.len()
        invariant
            k <= m.args@.len(),
            out@ == after_tags + args_bytes(args_model(m.args@).take(k as int)),
        decreases m.args@.len() - k,
    {
        push_arg(&mut out, &m.args[k]);
        proof {
            let s = args_model(m.args@).take(k + 1);
            assert(s.drop_last() =~= args_model(m.args@).take(k as int));
        }
        k = k + 1;
    }
    assert(out@ =~= message_bytes(m@));
    out
}

/// Encodes a bundle as OSC 1.0 bytes; fails only when an element's encoding
/// does not fit its 32-bit size prefix.
pub fn encode_bundle(b: &OscBundle) -> (r: Result<Vec<u8>, EncodeError>)
    ensures
        r is Ok <==> encodable(b@),
        r matches Ok(bytes) ==> bytes@ == bundle_bytes(b@),
{
    let mut out: Vec<u8> = Vec::new();
    out.push(0x23u8);
    out.push(0x62u8);
    out.push(0x75u8);
    out.push(0x6eu8);
    out.push(0x64u8);
    out.push(0x6cu8);
    out.push(0x65u8);
    out.push(0x00u8);
    push_be32(&mut out, b.timetag.seconds);
    push_be32(&mut out, b.timetag.fractional);
    let ghost head = out@;
    assert(head =~= bundle_magic() + be32(b@.timetag.0) + be32(b@.timetag.1));
    let mut i: usize = 0;
    while i < b.content.len()
        invariant
            i <= b.content@.len(),
            out@ == head + elements_bytes(messages_model(b.content@).take(i as int)),
            forall|j: int| 0 <= j < i ==> message_bytes(#[trigger] b@.content[j]).len() <= u32::MAX,
        decreases b.content@.len() - i,
    {
        let m = encode_message(&b.content[i]);
        if m.len() > 0xffff_ffffusize {
            return Err(EncodeError::ElementTooLarge);
        }
        push_be32(&mut out, m.len() as u32);
        let mut j: usize = 0;
        let ghost mid = out@;
        while j < m.len()
            invariant
                j <= m@.len(),
                out@ == mid + m@.subrange(0, j as int),
            decreases m@.len() - j,
        {
            out.push(m[j]);
            j = j + 1;
            assert(out@ =~= mid + m@.subrange(0, j as int));
        }
        proof {
            assert(m@.subrange(0, m@.len() as int) =~= m@);
            let s = messages_model(b.content@).take(i + 1);
            assert(s.drop_last() =~= messages_model(b.content@).take(i as int));
        }
        i = i + 1;
    }
    assert(messages_model(b.content@).take(b.content@.len() as int) =~= messages_model(b.content@));
    assert(out@ =~= bundle_bytes(b@));
    Ok(out)
}

} // verus!
