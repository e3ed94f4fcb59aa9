//! The TUIO 2.0 messages (FRM, ALV, TOK, PTR) as OSC messages, and the bundle
//! that carries one frame.

use vstd::prelude::*;
use vstd::arithmetic::div_mod::lemma_fundamental_div_mod_converse;
use crate::osc::{
    ArgModel, BundleModel, EncodeError, MessageModel, OscBundle, OscMessage, OscTime, OscType,
    args_model, bundle_bytes, encodable, encode_bundle, messages_model,
};
use crate::state::{ONE_BITS, TuioObject};

verus! {

/// Which message describes each object of a frame.
#[derive(Clone, Copy, Debug, PartialEq, Eq, Structural)]
pub enum MessageType {
    /// TOK: a tagged tangible object.
    Token,
    /// PTR: a pointer such as a touch.
    Pointer,
}

/// Two 16-bit values packed as `(hi << 16) | lo`.
pub open spec fn pack16(hi: u16, lo: u16) -> u32 {
    (hi * 0x1_0000 + lo) as u32
}

/// The NTP time tag of a timestamp in milliseconds: the seconds, and the
/// remaining milliseconds as a binary fraction of a second, rounded down.
pub open spec fn timetag_of(ms: i64) -> (u32, u32) {
    ((ms / 1000) as u32, ((ms % 1000) * 0x1_0000_0000 / 1000) as u32)
}

/// The FRM message of a frame.
pub open spec fn frm_model(frame_id: u32, timestamp: i64, width: u16, height: u16, source: Seq<char>) -> MessageModel {
    MessageModel {
        addr: "/tuio2/frm"@,
        args: seq![
            ArgModel::Int(frame_id as i32),
            ArgModel::Time(timetag_of(timestamp).0, timetag_of(timestamp).1),
            ArgModel::Int(pack16(width, height) as i32),
            ArgModel::Str(source),
        ],
    }
}

/// The ALV message listing these session ids.
pub open spec fn alv_model(ids: Seq<u32>) -> MessageModel {
    MessageModel { addr: "/tuio2/alv"@, args: ids.map_values(|id: u32| ArgModel::Int(id as i32)) }
}

/// The TOK message of a token.
pub open spec fn tok_model(t: TokenMessage) -> MessageModel {
    MessageModel {
        addr: "/tuio2/tok"@,
        args: seq![
            ArgModel::Int(t.session_id as i32),
            ArgModel::Int(pack16(t.type_id, t.user_id) as i32),
            ArgModel::Int(t.component_id as i32),
            ArgModel::Float(t.x),
            ArgModel::Float(t.y),
            ArgModel::Float(t.angle),
            ArgModel::Float(t.x_vel),
            ArgModel::Float(t.y_vel),
            ArgModel::Float(t.angle_vel),
        ],
    }
}

/// The PTR message of a pointer.
pub open spec fn ptr_model(p: PointerMessage) -> MessageModel {
    MessageModel {
        addr: "/tuio2/ptr"@,
        args: seq![
            ArgModel::Int(p.session_id as i32),
            ArgModel::Int(pack16(p.type_id, p.user_id) as i32),
            ArgModel::Int(p.component_id as i32),
            ArgModel::Float(p.x),
            ArgModel::Float(p.y),
            ArgModel::Float(p.angle),
            ArgModel::Float(p.shear),
            ArgModel::Float(p.radius),
            ArgModel::Float(p.pressure),
            ArgModel::Float(p.x_vel),
            ArgModel::Float(p.y_vel),
            ArgModel::Float(p.pressure_vel),
            ArgModel::Float(p.accel),
        ],
    }
}

/// The token that describes an object.
pub open spec fn token_of(o: TuioObject) -> TokenMessage {
    TokenMessage {
        session_id: o.session_id,
        type_id: o.type_id,
        user_id: o.user_id,
        component_id: o.component_id,
        x: o.x,
        y: o.y,
        angle: o.angle,
        x_vel: o.x_vel,
        y_vel: o.y_vel,
        angle_vel: o.angle_vel,
    }
}

/// The pointer that describes an object: not sheared, no radius, touching
/// with pressure one, no change of pressure, no acceleration.
pub open spec fn pointer_of(o: TuioObject) -> PointerMessage {
    PointerMessage {
        session_id: o.session_id,
        type_id: o.type_id,
        user_id: o.user_id,
        component_id: o.component_id,
        x: o.x,
        y: o.y,
        angle: o.angle,
        shear: 0,
        radius: 0,
        pressure: ONE_BITS,
        x_vel: o.x_vel,
        y_vel: o.y_vel,
        pressure_vel: 0,
        accel: 0,
    }
}

/// The message that describes an object in a frame.
pub open spec fn object_model(o: TuioObject, ty: MessageType) -> MessageModel {
    match ty {
        MessageType::Token => tok_model(token_of(o)),
        MessageType::Pointer => ptr_model(pointer_of(o)),
    }
}

/// The session ids of a list of objects, in order.
pub open spec fn session_ids(objects: Seq<TuioObject>) -> Seq<u32> {
    objects.map_values(|o: TuioObject| o.session_id)
}

/// The "immediate" time tag `{0, 1}`.
pub open spec fn immediate() -> (u32, u32) {
    (0, 1)
}

/// The bundle of one frame: FRM, one message per object in the given order,
/// then ALV with the objects' session ids; time tag immediate.
pub open spec fn tuio_bundle_model(
    frame_id: u32,
    timestamp: i64,
    width: u16,
    height: u16,
    source: Seq<char>,
    objects: Seq<TuioObject>,
    ty: MessageType,
) -> BundleModel {
    BundleModel {
        timetag: immediate(),
        content: seq![frm_model(frame_id, timestamp, width, height, source)] + objects.map_values(
            |o: TuioObject| object_model(o, ty),
        ) + seq![alv_model(session_ids(objects))],
    }
}

/// The encoded bytes of one frame, when every element fits its size prefix.
pub open spec fn frame_bytes(
    frame_id: u32,
    timestamp: i64,
    width: u16,
    height: u16,
    source: Seq<char>,
    objects: Seq<TuioObject>,
) -> Seq<u8> {
    bundle_bytes(tuio_bundle_model(frame_id, timestamp, width, height, source, objects, MessageType::Token))
}

fn pack_dimension(hi: u16, lo: u16) -> (r: u32)
    ensures
        r == pack16(hi, lo),
{
    (hi as u32) * 0x1_0000 + (lo as u32)
}

fn timetag_from_millis(ms: i64) -> (r: OscTime)
    ensures
        (r.seconds, r.fractional) == timetag_of(ms),
{
    let (q, rem): (i64, u64) = if ms >= 0 {
        let u = ms as u64;
        ((u / 1000) as i64, u % 1000)
    } else {
        let n = (-(ms + 1)) as u64;
        proof {
            let q = n as int / 1000;
            let r = n as int % 1000;
            assert(ms == (-q - 1) * 1000 + (999 - r)) by (nonlinear_arith)
                requires
                    n as int == q * 1000 + r,
                    ms == -(n as int) - 1;
            lemma_fundamental_div_mod_converse(ms as int, 1000, -q - 1, 999 - r);
        }
        (-((n / 1000) as i64) - 1, 999 - n % 1000)
    };
    assert(rem * 0x1_0000_0000 <= 999 * 0x1_0000_0000) by (nonlinear_arith)
        requires rem < 1000;
    OscTime { seconds: q as u32, fractional: ((rem * 0x1_0000_0000) / 1000) as u32 }
}

/// FRM: opens a frame with its id, time, canvas size and source.
pub struct FrameMessage {
    pub frame_id: u32,
    pub timestamp: i64,
    pub width: u16,
    pub height: u16,
    pub source: String,
}

impl FrameMessage {
    pub fn new(frame_id: u32, timestamp: i64, width: u16, height: u16, source: String) -> (r: FrameMessage)
        ensures
            r.frame_id == frame_id,
            r.timestamp == timestamp,
            r.width == width,
            r.height == height,
            r.source == source,
    {
        FrameMessage { frame_id, timestamp, width, height, source }
    }

    /// `/tuio2/frm` with the frame id, the time tag, `(width << 16) | height`
    /// and the source.
    pub fn to_osc(&self) -> (r: OscMessage)
        ensures
            r@ == frm_model(self.frame_id, self.timestamp, self.width, self.height, self.source@),
    {
        let dimension = pack_dimension(self.width, self.height);
        let args = vec![
            OscType::Int(self.frame_id as i32),
            OscType::Time(timetag_from_millis(self.timestamp)),
            OscType::Int(dimension as i32),
            OscType::Str(self.source.clone()),
        ];
        let r = OscMessage { addr: "/tuio2/frm".to_string(), args };
        assert(r@.args =~= frm_model(self.frame_id, self.timestamp, self.width, self.height, self.source@).args);
        r
    }
}

/// ALV: closes a frame with the session ids of the objects present.
pub struct AliveMessage {
    pub session_ids: Vec<u32>,
}

impl AliveMessage {
    pub fn new(session_ids: Vec<u32>) -> (r: AliveMessage)
        ensures
            r.session_ids@ == session_ids@,
    {
        AliveMessage { session_ids }
    }

    /// `/tuio2/alv` with one integer per session id; no arguments when empty.
    pub fn to_osc(&self) -> (r: OscMessage)
        ensures
            r@ == alv_model(self.session_ids@),
    {
        let mut args: Vec<OscType> = Vec::new();
        let mut i: usize = 0;
        while i < self.session_ids.len()
            invariant
                i <= self.session_ids@.len(),
                args@.len() == i,
                forall|j: int| 0 <= j < i ==> (#[trigger] args@[j])@ == ArgModel::Int(self.session_ids@[j] as i32),
            decreases self.session_ids@.len() - i,
        {
            args.push(OscType::Int(self.session_ids[i] as i32));
            i = i + 1;
        }
        let r = OscMessage { addr: "/tuio2/alv".to_string(), args };
        assert(r@.args =~= alv_model(self.session_ids@).args);
        r
    }
}

/// TOK: a tagged tangible object.
#[derive(Clone, Copy, Debug, PartialEq, Eq, Structural)]
pub struct TokenMessage {
    pub session_id: u32,
    pub type_id: u16,
    pub user_id: u16,
    pub component_id: u16,
    pub x: u32,
    pub y: u32,
    pub angle: u32,
    pub x_vel: u32,
    pub y_vel: u32,
    pub angle_vel: u32,
}

impl TokenMessage {
    pub fn new(
        session_id: u32,
        type_id: u16,
        user_id: u16,
        component_id: u16,
        x: u32,
        y: u32,
        angle: u32,
        x_vel: u32,
        y_vel: u32,
        angle_vel: u32,
    ) -> (r: TokenMessage)
        ensures
            r == (TokenMessage {
                session_id,
                type_id,
                user_id,
                component_id,
                x,
                y,
                angle,
                x_vel,
                y_vel,
                angle_vel,
            }),
    {
        TokenMessage { session_id, type_id, user_id, component_id, x, y, angle, x_vel, y_vel, angle_vel }
    }

    /// `/tuio2/tok` with the session id, `(type_id << 16) | user_id`, the
    /// component id, then position, angle and velocities as floats.
    pub fn to_osc(&self) -> (r: OscMessage)
        ensures
            r@ == tok_model(*self),
    {
        let args = vec![
            OscType::Int(self.session_id as i32),
            OscType::Int(pack_dimension(self.type_id, self.user_id) as i32),
            OscType::Int(self.component_id as i32),
            OscType::Float(self.x),
            OscType::Float(self.y),
            OscType::Float(self.angle),
            OscType::Float(self.x_vel),
            OscType::Float(self.y_vel),
            OscType::Float(self.angle_vel),
        ];
        let r = OscMessage { addr: "/tuio2/tok".to_string(), args };
        assert(r@.args =~= tok_model(*self).args);
        r
    }
}

/// PTR: a pointing gesture such as a touch.
#[derive(Clone, Copy, Debug, PartialEq, Eq, Structural)]
pub struct PointerMessage {
    pub session_id: u32,
    pub type_id: u16,
    pub user_id: u16,
    pub component_id: u16,
    pub x: u32,
    pub y: u32,
    pub angle: u32,
    pub shear: u32,
    pub radius: u32,
    pub pressure: u32,
    pub x_vel: u32,
    pub y_vel: u32,
    pub pressure_vel: u32,
    pub accel: u32,
}

impl PointerMessage {
    /// A touching pointer: shear and radius zero, pressure one, no change of
    /// pressure, no acceleration.
    pub fn new(
        session_id: u32,
        type_id: u16,
        user_id: u16,
        component_id: u16,
        x: u32,
        y: u32,
        angle: u32,
        x_vel: u32,
        y_vel: u32,
    ) -> (r: PointerMessage)
        ensures
            r == (PointerMessage {
                session_id,
                type_id,
                user_id,
                component_id,
                x,
                y,
                angle,
                shear: 0,
                radius: 0,
                pressure: ONE_BITS,
                x_vel,
                y_vel,
                pressure_vel: 0,
                accel: 0,
            }),
    {
        PointerMessage {
            session_id,
            type_id,
            user_id,
            component_id,
            x,
            y,
            angle,
            shear: 0,
            radius: 0,
            pressure: ONE_BITS,
            x_vel,
            y_vel,
            pressure_vel: 0,
            accel: 0,
        }
    }

    /// `/tuio2/ptr` with the session id, `(type_id << 16) | user_id`, the
    /// component id, then ten floats.
    pub fn to_osc(&self) -> (r: OscMessage)
        ensures
            r@ == ptr_model(*self),
    {
        let args = vec![
            OscType::Int(self.session_id as i32),
            OscType::Int(pack_dimension(self.type_id, self.user_id) as i32),
            OscType::Int(self.component_id as i32),
            OscType::Float(self.x),
            OscType::Float(self.y),
            OscType::Float(self.angle),
            OscType::Float(self.shear),
            OscType::Float(self.radius),
            OscType::Float(self.pressure),
            OscType::Float(self.x_vel),
            OscType::Float(self.y_vel),
            OscType::Float(self.pressure_vel),
            OscType::Float(self.accel),
        ];
        let r = OscMessage { addr: "/tuio2/ptr".to_string(), args };
        assert(r@.args =~= ptr_model(*self).args);
        r
    }
}

fn object_message(o: &TuioObject, ty: MessageType) -> (r: OscMessage)
    ensures
        r@ == object_model(*o, ty),
{
    match ty {
        MessageType::Token => TokenMessage::new(
            o.session_id,
            o.type_id,
            o.user_id,
            o.component_id,
            o.x,
            o.y,
            o.angle,
            o.x_vel,
            o.y_vel,
            o.angle_vel,
        ).to_osc(),
        MessageType::Pointer => PointerMessage::new(
            o.session_id,
            o.type_id,
            o.user_id,
            o.component_id,
            o.x,
            o.y,
            o.angle,
            o.x_vel,
            o.y_vel,
        ).to_osc(),
    }
}

/// The bundle of one frame in which each object is a TOK message.
pub fn create_tuio_bundle(
    frame_id: u32,
    timestamp: i64,
    width: u16,
    height: u16,
    source: &str,
    objects: &[TuioObject],
) -> (r: OscBundle)
    ensures
        r@ == tuio_bundle_model(frame_id, timestamp, width, height, source@, objects@, MessageType::Token),
{
    create_tuio_bundle_with_type(frame_id, timestamp, width, height, source, objects, MessageType::Token)
}

/// The bundle of one frame: FRM, one message of the given type per object in
/// the order given, ALV; time tag immediate.
pub fn create_tuio_bundle_with_type(
    frame_id: u32,
    timestamp: i64,
    width: u16,
    height: u16,
    source: &str,
    objects: &[TuioObject],
    message_type: MessageType,
) -> (r: OscBundle)
    ensures
        r@ == tuio_bundle_model(frame_id, timestamp, width, height, source@, objects@, message_type),
{
    let ghost model = tuio_bundle_model(frame_id, timestamp, width, height, source@, objects@, message_type);
    let mut content: Vec<OscMessage> = Vec::new();
    let frm = FrameMessage::new(frame_id, timestamp, width, height, source.to_string());
    content.push(frm.to_osc());
    let mut ids: Vec<u32> = Vec::new();
    let mut i: usize = 0;
    while i < objects.len()
        invariant
            i <= objects@.len(),
            model == tuio_bundle_model(frame_id, timestamp, width, height, source@, objects@, message_type),
            content@.len() == i + 1,
            content@[0]@ == frm_model(frame_id, timestamp, width, height, source@),
            forall|j: int| 1 <= j <= i ==> (#[trigger] content@[j])@ == object_model(objects@[j - 1], message_type),
            ids@ == session_ids(objects@.take(i as int)),
        decreases objects@.len() - i,
    {
        content.push(object_message(&objects[i], message_type));
        ids.push(objects[i].session_id);
        i = i + 1;
        assert(ids@ =~= session_ids(objects@.take(i as int)));
    }
    assert(objects@.take(i as int) =~= objects@);
    let alv = AliveMessage::new(ids);
    content.push(alv.to_osc());
    let r = OscBundle { timetag: OscTime { seconds: 0, fractional: 1 }, content };
    assert forall|j: int| 0 <= j < model.content.len() implies (#[trigger] messages_model(r.content@)[j]) == model.content[j] by {
        if 1 <= j <= objects@.len() {
            assert(model.content[j] == object_model(objects@[j - 1], message_type));
        }
    }
    assert(messages_model(r.content@) =~= model.content);
    r
}

/// Builds the bundle of one frame with TOK messages and encodes it.
pub fn create_and_encode_tuio_bundle(
    frame_id: u32,
    timestamp: i64,
    width: u16,
    height: u16,
    source: &str,
    objects: &[TuioObject],
) -> (r: Result<Vec<u8>, EncodeError>)
    ensures
        r is Ok <==> encodable(
            tuio_bundle_model(frame_id, timestamp, width, height, source@, objects@, MessageType::Token),
        ),
        r matches Ok(bytes) ==> bytes@ == frame_bytes(frame_id, timestamp, width, height, source@, objects@),
{
    let bundle = create_tuio_bundle(frame_id, timestamp, width, height, source, objects);
    encode_bundle(&bundle)
}

} // verus!
