//! Properties that hold of every state and every frame.

use vstd::prelude::*;
use crate::decode::{arg_wf, bundle_wf, decode_bundle, lemma_decode_bundle, message_wf, nul_free_chars};
use crate::osc::{ArgModel, BundleModel, bundle_bytes, bundle_magic, encodable};
use crate::state::{AppState, TuioObject, store_wf, unit_interval};
use crate::tuio::{
    MessageType, alv_model, frm_model, object_model, pack16, session_ids, tuio_bundle_model,
};

verus! {

/// Every object of a well-formed state lies on the unit square: its `x` and
/// `y` are in `[0, 1]`. Every operation on the state keeps it well formed.
pub proof fn lemma_objects_on_canvas(state: &AppState)
    requires
        state.wf(),
    ensures
        forall|i: int|
            0 <= i < state.objects@.len() ==> unit_interval((#[trigger] state.objects@[i]).x)
                && unit_interval(state.objects@[i].y),
{
}

/// The address of each element of a frame's bundle, in order: `frm`, one
/// `tok` (or `ptr`) per object, `alv`.
pub open spec fn object_address(ty: MessageType) -> Seq<char> {
    match ty {
        MessageType::Token => "/tuio2/tok"@,
        MessageType::Pointer => "/tuio2/ptr"@,
    }
}

/// Every frame's bytes begin with `#bundle` and a NUL; its elements are FRM,
/// then one TOK (or PTR) per object, then ALV, whose argument count is the
/// number of objects.
pub proof fn lemma_frame_shape(
    frame_id: u32,
    timestamp: i64,
    width: u16,
    height: u16,
    source: Seq<char>,
    objects: Seq<TuioObject>,
    ty: MessageType,
)
    ensures
        ({
            let b = tuio_bundle_model(frame_id, timestamp, width, height, source, objects, ty);
            &&& bundle_bytes(b).take(8) == bundle_magic()
            &&& b.content.len() == objects.len() + 2
            &&& b.content[0].addr == "/tuio2/frm"@
            &&& forall|i: int|
                1 <= i <= objects.len() ==> (#[trigger] b.content[i]).addr == object_address(ty)
            &&& b.content[objects.len() as int + 1].addr == "/tuio2/alv"@
            &&& b.content[objects.len() as int + 1].args.len() == objects.len()
        }),
{
    let b = tuio_bundle_model(frame_id, timestamp, width, height, source, objects, ty);
    assert(bundle_bytes(b).take(8) =~= bundle_magic());
    assert forall|i: int| 1 <= i <= objects.len() implies (#[trigger] b.content[i]).addr == object_address(ty) by {
        assert(b.content[i] == crate::tuio::object_model(objects[i - 1], ty));
    }
}

/// The dimension argument of a frame is `(width << 16) | height`, and the
/// configured width and height are read back from its upper and lower halves.
pub proof fn lemma_dimension_packing(
    frame_id: u32,
    timestamp: i64,
    width: u16,
    height: u16,
    source: Seq<char>,
)
    ensures
        frm_model(frame_id, timestamp, width, height, source).args[2] == ArgModel::Int(
            pack16(width, height) as i32,
        ),
        pack16(width, height) == ((width as u32) << 16u32) | (height as u32),
        (pack16(width, height) as i32) as u32 / 0x1_0000 == width,
        (pack16(width, height) as i32) as u32 % 0x1_0000 == height,
{
    let w = width as u32;
    let h = height as u32;
    assert(w * 0x1_0000 + h <= u32::MAX) by (nonlinear_arith)
        requires w <= 0xffff, h <= 0xffff;
    let p = pack16(width, height);
    assert(p == w * 0x1_0000 + h);
    assert((w << 16u32) | h == w * 0x1_0000 + h) by (bit_vector)
        requires w <= 0xffff, h <= 0xffff;
    assert(((p as i32) as u32) == p) by (bit_vector);
    assert(p / 0x1_0000 == w && p % 0x1_0000 == h) by (nonlinear_arith)
        requires p == w * 0x1_0000 + h, h < 0x1_0000;
}

/// Two frames of the same canvas, source and objects differ only in the frame
/// id and the time tag of their FRM message.
pub proof fn lemma_frames_differ_only_in_id_and_time(
    frame_a: u32,
    time_a: i64,
    frame_b: u32,
    time_b: i64,
    width: u16,
    height: u16,
    source: Seq<char>,
    objects: Seq<TuioObject>,
    ty: MessageType,
)
    ensures
        ({
            let a = tuio_bundle_model(frame_a, time_a, width, height, source, objects, ty);
            let b = tuio_bundle_model(frame_b, time_b, width, height, source, objects, ty);
            &&& b == (BundleModel {
                content: a.content.update(0, frm_model(frame_b, time_b, width, height, source)),
                ..a
            })
            &&& frm_model(frame_b, time_b, width, height, source).addr == a.content[0].addr
            &&& frm_model(frame_b, time_b, width, height, source).args.len() == a.content[0].args.len()
            &&& frm_model(frame_b, time_b, width, height, source).args.subrange(2, 4)
                == a.content[0].args.subrange(2, 4)
        }),
{
    let a = tuio_bundle_model(frame_a, time_a, width, height, source, objects, ty);
    let b = tuio_bundle_model(frame_b, time_b, width, height, source, objects, ty);
    assert(b.content =~= a.content.update(0, frm_model(frame_b, time_b, width, height, source)));
    assert(frm_model(frame_b, time_b, width, height, source).args.subrange(2, 4)
        =~= a.content[0].args.subrange(2, 4));
}

/// Removing the object that was just added gives back the objects as they
/// were; from an empty store, no object is left and the next ALV is empty.
pub proof fn lemma_add_then_remove(before: Seq<TuioObject>, obj: TuioObject, i: int, after: Seq<TuioObject>)
    requires
        store_wf(before.push(obj)),
        0 <= i < before.len() + 1,
        before.push(obj)[i].session_id == obj.session_id,
        after == before.push(obj).remove(i),
    ensures
        after == before,
        before.len() == 0 ==> after.len() == 0 && alv_model(session_ids(after)).args.len() == 0,
{
    let s = before.push(obj);
    if i != before.len() as int {
        assert(s[i].session_id == s[before.len() as int].session_id);
    }
    assert(after =~= before);
}

/// A frame read back by an OSC reader gives the same addresses, type tags and
/// argument values, when its source holds no NUL and each element fits its
/// size prefix.
pub proof fn lemma_frame_round_trip(
    frame_id: u32,
    timestamp: i64,
    width: u16,
    height: u16,
    source: Seq<char>,
    objects: Seq<TuioObject>,
    ty: MessageType,
)
    requires
        nul_free_chars(source),
        encodable(tuio_bundle_model(frame_id, timestamp, width, height, source, objects, ty)),
    ensures
        decode_bundle(bundle_bytes(tuio_bundle_model(frame_id, timestamp, width, height, source, objects, ty)))
            == Some(tuio_bundle_model(frame_id, timestamp, width, height, source, objects, ty)),
{
    let b = tuio_bundle_model(frame_id, timestamp, width, height, source, objects, ty);
    reveal_strlit("/tuio2/frm");
    reveal_strlit("/tuio2/tok");
    reveal_strlit("/tuio2/ptr");
    reveal_strlit("/tuio2/alv");
    assert forall|i: int| 0 <= i < b.content.len() implies message_wf(#[trigger] b.content[i]) by {
        let m = b.content[i];
        if i == 0 {
            assert(arg_wf(m.args[3]));
        } else if i <= objects.len() {
            assert(m == object_model(objects[i - 1], ty));
        } else {
            assert(m == alv_model(session_ids(objects)));
        }
        assert forall|j: int| 0 <= j < m.addr.len() implies (#[trigger] m.addr[j]) as u32 != 0 by {}
    }
    assert(bundle_wf(b));
    lemma_decode_bundle(b);
}

} // verus!
