//! Frame production: the frame counter, the frame's bundle and its pacing.

use vstd::prelude::*;
use crate::osc::{EncodeError, encodable};
use crate::state::{AppState, wrap_add};
use crate::tuio::{MessageType, create_and_encode_tuio_bundle, frame_bytes, tuio_bundle_model};

verus! {

/// Relies on chrono's `Utc::now` and `DateTime::timestamp_millis`: the wall
/// clock in milliseconds since the Unix epoch. Nothing is assumed of its value.
#[verifier::external_body]
pub(crate) fn now_millis() -> (r: i64) {
    chrono::Utc::now().timestamp_millis()
}

/// Milliseconds between frames at `fps` frames per second: `1000 / max(1, fps)`.
pub open spec fn interval_of(fps: u32) -> u64 {
    if fps <= 1 {
        1000
    } else {
        (1000u32 / fps) as u64
    }
}

/// The pause after a frame, rounded down to whole milliseconds.
pub fn frame_interval_ms(fps: u32) -> (r: u64)
    ensures
        r == interval_of(fps),
{
    let f: u32 = if fps <= 1 {
        1
    } else {
        fps
    };
    (1000 / f) as u64
}

/// Produces the frame stamped `now`: the frame counter advances by one modulo
/// 2^32, and the bytes are the bundle of the new frame id, the configured
/// canvas and source, and the live objects as TOK messages in the store's
/// order. Nothing else changes.
pub fn generate_frame_at(state: &mut AppState, now: i64) -> (r: Result<Vec<u8>, EncodeError>)
    requires
        old(state).wf(),
    ensures
        final(state).frame_counter == wrap_add(old(state).frame_counter, 1),
        final(state).objects == old(state).objects,
        final(state).config == old(state).config,
        final(state).server_running == old(state).server_running,
        final(state).connected_clients == old(state).connected_clients,
        final(state).wf(),
        r is Ok <==> encodable(
            tuio_bundle_model(
                final(state).frame_counter,
                now,
                old(state).config.width,
                old(state).config.height,
                old(state).config.source@,
                old(state).objects@,
                MessageType::Token,
            ),
        ),
        r matches Ok(bytes) ==> bytes@ == frame_bytes(
            final(state).frame_counter,
            now,
            old(state).config.width,
            old(state).config.height,
            old(state).config.source@,
            old(state).objects@,
        ),
{
    let frame_id = state.increment_frame_counter();
    let objects = state.objects.snapshot();
    create_and_encode_tuio_bundle(
        frame_id,
        now,
        state.config.width,
        state.config.height,
        state.config.source.as_str(),
        objects.as_slice(),
    )
}

/// Produces a frame stamped with the wall clock: as `generate_frame_at`, for
/// whatever time the clock gave.
pub fn generate_frame(state: &mut AppState) -> (r: Result<Vec<u8>, EncodeError>)
    requires
        old(state).wf(),
    ensures
        final(state).frame_counter == wrap_add(old(state).frame_counter, 1),
        final(state).objects == old(state).objects,
        final(state).config == old(state).config,
        final(state).server_running == old(state).server_running,
        final(state).connected_clients == old(state).connected_clients,
        final(state).wf(),
        exists|now: i64|
            {
                &&& (r is Ok <==> encodable(
                    tuio_bundle_model(
                        final(state).frame_counter,
                        now,
                        old(state).config.width,
                        old(state).config.height,
                        old(state).config.source@,
                        old(state).objects@,
                        MessageType::Token,
                    ),
                ))
                &&& (r matches Ok(bytes) ==> bytes@ == frame_bytes(
                    final(state).frame_counter,
                    now,
                    old(state).config.width,
                    old(state).config.height,
                    old(state).config.source@,
                    old(state).objects@,
                ))
            },
{
    let now = now_millis();
    generate_frame_at(state, now)
}

} // verus!
