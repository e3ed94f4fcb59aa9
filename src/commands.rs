//! The command surface: validated operations on the simulator's state.
//!
//! Starting the server is split around the bind, which the caller performs:
//! `start_server` checks and records the port, `complete_start` takes the
//! outcome of the bind.

use vstd::prelude::*;
use crate::frame::now_millis;
use crate::state::{
    AppState, Config, ServerStatus, StoreError, TuioObject, has_component, has_id, live_run, moved,
    unit_interval, wrap_add, in_unit_interval,
};

verus! {

/// Why a command was refused.
#[derive(Clone, Copy, Debug, PartialEq, Eq, Structural)]
pub enum CommandError {
    /// The server is already running.
    AlreadyRunning,
    /// The listener could not be bound.
    BindFailed,
    /// The component id lies outside `[1, 24]`.
    InvalidComponent,
    /// A coordinate lies outside `[0, 1]`.
    InvalidCoordinates,
    /// A live object already has this component id.
    ComponentInUse(u16),
    /// Every session id is live.
    StoreFull,
    /// No live object has this session id.
    NotFound(u32),
    /// The frame rate lies outside `[1, 120]`.
    InvalidFrameRate,
    /// The width or the height is zero.
    InvalidDimensions,
}

/// The lowest component id that commands accept.
pub const MIN_COMPONENT_ID: u16 = 1;

/// The highest component id that commands accept.
pub const MAX_COMPONENT_ID: u16 = 24;

/// The lowest frame rate.
pub const MIN_FPS: u32 = 1;

/// The highest frame rate.
pub const MAX_FPS: u32 = 120;

/// A new object at `(x, y)`: its component id doubles as its type id, user
/// zero, angle and velocities zero, its history at its position, stamped `now`.
pub open spec fn placed_object(session_id: u32, component_id: u16, x: u32, y: u32, now: i64) -> TuioObject {
    TuioObject {
        session_id,
        type_id: component_id,
        user_id: 0,
        component_id,
        x,
        y,
        angle: 0,
        x_vel: 0,
        y_vel: 0,
        angle_vel: 0,
        last_x: x,
        last_y: y,
        last_angle: 0,
        last_update: now,
    }
}

/// `after` is `before` with the object `id` moved to `(x, y)` with `angle`
/// at `now`.
pub open spec fn moved_in(
    before: Seq<TuioObject>,
    after: Seq<TuioObject>,
    id: u32,
    x: u32,
    y: u32,
    angle: u32,
    now: i64,
) -> bool {
    &&& after.len() == before.len()
    &&& forall|i: int|
        0 <= i < before.len() ==> (#[trigger] after[i]) == if before[i].session_id == id {
            moved(before[i], x, y, angle, now)
        } else {
            before[i]
        }
}

/// A component id that commands accept.
pub open spec fn valid_component(c: u16) -> bool {
    MIN_COMPONENT_ID <= c <= MAX_COMPONENT_ID
}

/// Checks that the server is stopped and records the port to bind.
pub fn start_server(state: &mut AppState, port: u16) -> (r: Result<(), CommandError>)
    requires
        old(state).wf(),
    ensures
        final(state).wf(),
        r is Err <==> old(state).server_running,
        r is Err ==> r == Err::<(), CommandError>(CommandError::AlreadyRunning) && *final(state)
            == *old(state),
        r is Ok ==> *final(state) == (AppState {
            config: Config { port, ..old(state).config },
            ..*old(state)
        }),
{
    if state.server_running {
        return Err(CommandError::AlreadyRunning);
    }
    state.config.port = port;
    Ok(())
}

/// Takes the outcome of the bind: on success the server is running; on
/// failure it stays stopped. A start that another one overtook is refused.
pub fn complete_start(state: &mut AppState, bound: bool) -> (r: Result<(), CommandError>)
    requires
        old(state).wf(),
    ensures
        final(state).wf(),
        r == Err::<(), CommandError>(CommandError::AlreadyRunning) <==> old(state).server_running,
        r == Err::<(), CommandError>(CommandError::BindFailed) <==> !old(state).server_running
            && !bound,
        r is Ok <==> !old(state).server_running && bound,
        r is Err ==> *final(state) == *old(state),
        r is Ok ==> *final(state) == (AppState { server_running: true, ..*old(state) }),
{
    if state.server_running {
        return Err(CommandError::AlreadyRunning);
    }
    if !bound {
        return Err(CommandError::BindFailed);
    }
    state.server_running = true;
    Ok(())
}

/// Stops the server: not running, no clients. Stopping a stopped server is
/// no error.
pub fn stop_server(state: &mut AppState) -> (r: Result<(), CommandError>)
    requires
        old(state).wf(),
    ensures
        r is Ok,
        *final(state) == (AppState { server_running: false, connected_clients: 0, ..*old(state) }),
        final(state).wf(),
{
    state.server_running = false;
    state.connected_clients = 0;
    Ok(())
}

/// Adds an object with a component id in `[1, 24]` that no live object has,
/// at `(x, y)` on the unit square, stamped `now`; returns its fresh session id.
pub fn add_object_at(state: &mut AppState, component_id: u16, x: u32, y: u32, now: i64) -> (r:
    Result<u32, CommandError>)
    requires
        old(state).wf(),
    ensures
        final(state).wf(),
        r == Err::<u32, CommandError>(CommandError::InvalidComponent) <==> !valid_component(
            component_id,
        ),
        r == Err::<u32, CommandError>(CommandError::InvalidCoordinates) <==> valid_component(
            component_id,
        ) && !(unit_interval(x) && unit_interval(y)),
        r == Err::<u32, CommandError>(CommandError::ComponentInUse(component_id)) <==> valid_component(
            component_id,
        ) && unit_interval(x) && unit_interval(y) && has_component(old(state).objects@, component_id),
        r == Err::<u32, CommandError>(CommandError::StoreFull) <==> valid_component(component_id)
            && unit_interval(x) && unit_interval(y) && !has_component(old(state).objects@, component_id)
            && old(state).objects@.len() == u32::MAX,
        r is Ok <==> valid_component(component_id) && unit_interval(x) && unit_interval(y)
            && !has_component(old(state).objects@, component_id) && old(state).objects@.len()
            < u32::MAX,
        r is Err ==> *final(state) == *old(state),
        r matches Ok(id) ==> {
            &&& !has_id(old(state).objects@, id)
            &&& exists|k: int|
                0 <= k <= old(state).objects@.len() && id == wrap_add(old(state).objects.next_id(), k)
                    && live_run(old(state).objects@, old(state).objects.next_id(), k)
            &&& final(state).objects.next_id() == wrap_add(id, 1)
            &&& final(state).objects@ == old(state).objects@.push(
                placed_object(id, component_id, x, y, now),
            )
            &&& final(state).frame_counter == old(state).frame_counter
            &&& final(state).config == old(state).config
            &&& final(state).server_running == old(state).server_running
            &&& final(state).connected_clients == old(state).connected_clients
        },
{
    if !(MIN_COMPONENT_ID <= component_id && component_id <= MAX_COMPONENT_ID) {
        return Err(CommandError::InvalidComponent);
    }
    if !(in_unit_interval(x) && in_unit_interval(y)) {
        return Err(CommandError::InvalidCoordinates);
    }
    if state.objects.component_in_use(component_id) {
        return Err(CommandError::ComponentInUse(component_id));
    }
    if state.objects.len() >= 0xffff_ffffusize {
        return Err(CommandError::StoreFull);
    }
    let session_id = state.allocate_session_id();
    let object = TuioObject {
        session_id,
        type_id: component_id,
        user_id: 0,
        component_id,
        x,
        y,
        angle: 0,
        x_vel: 0,
        y_vel: 0,
        angle_vel: 0,
        last_x: x,
        last_y: y,
        last_angle: 0,
        last_update: now,
    };
    let added = state.objects.add(object);
    assert(added is Ok);
    Ok(session_id)
}

/// Adds an object stamped with the wall clock: as `add_object_at`, for
/// whatever time the clock gave.
pub fn add_object(state: &mut AppState, component_id: u16, x: u32, y: u32) -> (r: Result<
    u32,
    CommandError,
>)
    requires
        old(state).wf(),
    ensures
        final(state).wf(),
        r == Err::<u32, CommandError>(CommandError::InvalidComponent) <==> !valid_component(
            component_id,
        ),
        r == Err::<u32, CommandError>(CommandError::InvalidCoordinates) <==> valid_component(
            component_id,
        ) && !(unit_interval(x) && unit_interval(y)),
        r == Err::<u32, CommandError>(CommandError::ComponentInUse(component_id)) <==> valid_component(
            component_id,
        ) && unit_interval(x) && unit_interval(y) && has_component(old(state).objects@, component_id),
        r == Err::<u32, CommandError>(CommandError::StoreFull) <==> valid_component(component_id)
            && unit_interval(x) && unit_interval(y) && !has_component(old(state).objects@, component_id)
            && old(state).objects@.len() == u32::MAX,
        r is Ok <==> valid_component(component_id) && unit_interval(x) && unit_interval(y)
            && !has_component(old(state).objects@, component_id) && old(state).objects@.len()
            < u32::MAX,
        r is Err ==> *final(state) == *old(state),
        r matches Ok(id) ==> {
            &&& !has_id(old(state).objects@, id)
            &&& exists|now: i64|
                final(state).objects@ == old(state).objects@.push(
                    placed_object(id, component_id, x, y, now),
                )
            &&& final(state).objects.next_id() == wrap_add(id, 1)
            &&& final(state).frame_counter == old(state).frame_counter
            &&& final(state).config == old(state).config
            &&& final(state).server_running == old(state).server_running
            &&& final(state).connected_clients == old(state).connected_clients
        },
{
    let now = now_millis();
    add_object_at(state, component_id, x, y, now)
}

/// Moves the live object `session_id` to `(x, y)` on the unit square with
/// `angle`, stamped `now`; its motion history is left to the next frame.
pub fn update_object_at(
    state: &mut AppState,
    session_id: u32,
    x: u32,
    y: u32,
    angle: u32,
    now: i64,
) -> (r: Result<(), CommandError>)
    requires
        old(state).wf(),
    ensures
        final(state).wf(),
        r == Err::<(), CommandError>(CommandError::InvalidCoordinates) <==> !(unit_interval(x)
            && unit_interval(y)),
        r == Err::<(), CommandError>(CommandError::NotFound(session_id)) <==> unit_interval(x)
            && unit_interval(y) && !has_id(old(state).objects@, session_id),
        r is Ok <==> unit_interval(x) && unit_interval(y) && has_id(old(state).objects@, session_id),
        r is Err ==> *final(state) == *old(state),
        r is Ok ==> {
            &&& moved_in(old(state).objects@, final(state).objects@, session_id, x, y, angle, now)
            &&& final(state).objects.next_id() == old(state).objects.next_id()
            &&& final(state).frame_counter == old(state).frame_counter
            &&& final(state).config == old(state).config
            &&& final(state).server_running == old(state).server_running
            &&& final(state).connected_clients == old(state).connected_clients
        },
{
    match state.objects.update(session_id, x, y, angle, now) {
        Ok(()) => Ok(()),
        Err(StoreError::OutOfRange) => Err(CommandError::InvalidCoordinates),
        Err(_) => Err(CommandError::NotFound(session_id)),
    }
}

/// Moves an object, stamped with the wall clock: as `update_object_at`, for
/// whatever time the clock gave.
pub fn update_object(state: &mut AppState, session_id: u32, x: u32, y: u32, angle: u32) -> (r:
    Result<(), CommandError>)
    requires
        old(state).wf(),
    ensures
        final(state).wf(),
        r == Err::<(), CommandError>(CommandError::InvalidCoordinates) <==> !(unit_interval(x)
            && unit_interval(y)),
        r == Err::<(), CommandError>(CommandError::NotFound(session_id)) <==> unit_interval(x)
            && unit_interval(y) && !has_id(old(state).objects@, session_id),
        r is Ok <==> unit_interval(x) && unit_interval(y) && has_id(old(state).objects@, session_id),
        r is Err ==> *final(state) == *old(state),
        r is Ok ==> exists|now: i64|
            #[trigger] moved_in(old(state).objects@, final(state).objects@, session_id, x, y, angle, now),
        r is Ok ==> final(state).frame_counter == old(state).frame_counter && final(state).config
            == old(state).config && final(state).server_running == old(state).server_running
            && final(state).connected_clients == old(state).connected_clients,
{
    let now = now_millis();
    update_object_at(state, session_id, x, y, angle, now)
}

/// Removes the live object `session_id`.
pub fn remove_object(state: &mut AppState, session_id: u32) -> (r: Result<(), CommandError>)
    requires
        old(state).wf(),
    ensures
        final(state).wf(),
        r is Err <==> !has_id(old(state).objects@, session_id),
        r is Err ==> r == Err::<(), CommandError>(CommandError::NotFound(session_id))
            && *final(state) == *old(state),
        r is Ok ==> {
            &&& exists|i: int|
                0 <= i < old(state).objects@.len() && old(state).objects@[i].session_id == session_id
                    && final(state).objects@ == old(state).objects@.remove(i)
            &&& final(state).objects.next_id() == old(state).objects.next_id()
            &&& final(state).frame_counter == old(state).frame_counter
            &&& final(state).config == old(state).config
            &&& final(state).server_running == old(state).server_running
            &&& final(state).connected_clients == old(state).connected_clients
        },
        !has_id(final(state).objects@, session_id),
{
    match state.objects.remove(session_id) {
        Ok(_) => Ok(()),
        Err(_) => Err(CommandError::NotFound(session_id)),
    }
}

/// Sets the frame rate, which must lie in `[1, 120]`; the next pause uses it.
pub fn set_frame_rate(state: &mut AppState, fps: u32) -> (r: Result<(), CommandError>)
    requires
        old(state).wf(),
    ensures
        final(state).wf(),
        r is Err <==> !(MIN_FPS <= fps <= MAX_FPS),
        r is Err ==> r == Err::<(), CommandError>(CommandError::InvalidFrameRate) && *final(state)
            == *old(state),
        r is Ok ==> *final(state) == (AppState {
            config: Config { fps, ..old(state).config },
            ..*old(state)
        }),
{
    if !(MIN_FPS <= fps && fps <= MAX_FPS) {
        return Err(CommandError::InvalidFrameRate);
    }
    state.config.fps = fps;
    Ok(())
}

/// Sets the canvas size; both sides must be at least one.
pub fn set_canvas_dimensions(state: &mut AppState, width: u16, height: u16) -> (r: Result<
    (),
    CommandError,
>)
    requires
        old(state).wf(),
    ensures
        final(state).wf(),
        r is Err <==> width == 0 || height == 0,
        r is Err ==> r == Err::<(), CommandError>(CommandError::InvalidDimensions) && *final(state)
            == *old(state),
        r is Ok ==> *final(state) == (AppState {
            config: Config { width, height, ..old(state).config },
            ..*old(state)
        }),
{
    if width == 0 || height == 0 {
        return Err(CommandError::InvalidDimensions);
    }
    state.config.width = width;
    state.config.height = height;
    Ok(())
}

/// The server's status.
pub fn get_server_status(state: &AppState) -> (r: Result<ServerStatus, CommandError>)
    ensures
        r == Ok::<ServerStatus, CommandError>(
            ServerStatus {
                running: state.server_running,
                port: state.config.port,
                fps: state.config.fps,
                connected_clients: state.connected_clients,
                frame_count: state.frame_counter,
                object_count: state.objects@.len() as usize,
            },
        ),
{
    Ok(
        ServerStatus {
            running: state.server_running,
            port: state.config.port,
            fps: state.config.fps,
            connected_clients: state.connected_clients,
            frame_count: state.frame_counter,
            object_count: state.objects.len(),
        },
    )
}

/// Counts a client in; the count saturates.
pub fn client_connected(state: &mut AppState)
    ensures
        final(state).connected_clients == if old(state).connected_clients == usize::MAX {
            usize::MAX
        } else {
            (old(state).connected_clients + 1) as usize
        },
        *final(state) == (AppState { connected_clients: final(state).connected_clients, ..*old(state) }),
{
    state.connected_clients = state.connected_clients.saturating_add(1);
}

/// Counts a client out; the count stays at zero when it is zero.
pub fn client_disconnected(state: &mut AppState)
    ensures
        final(state).connected_clients == if old(state).connected_clients == 0 {
            0
        } else {
            (old(state).connected_clients - 1) as usize
        },
        *final(state) == (AppState { connected_clients: final(state).connected_clients, ..*old(state) }),
{
    state.connected_clients = state.connected_clients.saturating_sub(1);
}

} // verus!
