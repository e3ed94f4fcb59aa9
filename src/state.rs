//! Objects, configuration, the object store and the shared simulator state.

use vstd::prelude::*;

verus! {

/// One live object. Position, angle, the three velocities and the three
/// motion-history values hold IEEE-754 single-precision bit patterns.
#[derive(Clone, Copy, Debug, PartialEq, Eq, Structural)]
pub struct TuioObject {
    pub session_id: u32,
    pub type_id: u16,
    pub user_id: u16,
    pub component_id: u16,
    pub x: u32,
    pub y: u32,
    pub angle: u32,
    pub x_vel: u32,
    pub y_vel: u32,
    pub angle_vel: u32,
    pub last_x: u32,
    pub last_y: u32,
    pub last_angle: u32,
    pub last_update: i64,
}

/// The bit pattern of `1.0f32`.
pub const ONE_BITS: u32 = 0x3f80_0000;

/// The bit pattern of `-0.0f32`.
pub const NEG_ZERO_BITS: u32 = 0x8000_0000;

/// `0.0 <= v <= 1.0` for the single-precision value with bit pattern `bits`:
/// the non-negative patterns up to that of `1.0` order as their values do,
/// `-0.0` equals `0.0`, and every other pattern is negative, above one or NaN.
pub open spec fn unit_interval(bits: u32) -> bool {
    bits <= ONE_BITS || bits == NEG_ZERO_BITS
}

/// Tests `0.0 <= v <= 1.0` on a bit pattern.
pub fn in_unit_interval(bits: u32) -> (r: bool)
    ensures
        r == unit_interval(bits),
{
    bits <= ONE_BITS || bits == NEG_ZERO_BITS
}

/// Some object in `s` has session id `id`.
pub open spec fn has_id(s: Seq<TuioObject>, id: u32) -> bool {
    exists|i: int| 0 <= i < s.len() && (#[trigger] s[i]).session_id == id
}

/// Some object in `s` has component id `c`.
pub open spec fn has_component(s: Seq<TuioObject>, c: u16) -> bool {
    exists|i: int| 0 <= i < s.len() && (#[trigger] s[i]).component_id == c
}

/// No two objects of `s` share a session id.
pub open spec fn unique_ids(s: Seq<TuioObject>) -> bool {
    forall|i: int, j: int|
        0 <= i < s.len() && 0 <= j < s.len() && i != j ==> (#[trigger] s[i]).session_id
            != (#[trigger] s[j]).session_id
}

/// Every object of `s` lies on the unit square.
pub open spec fn on_canvas(s: Seq<TuioObject>) -> bool {
    forall|i: int| 0 <= i < s.len() ==> unit_interval((#[trigger] s[i]).x) && unit_interval(s[i].y)
}

/// The store's invariant over its contents.
pub open spec fn store_wf(s: Seq<TuioObject>) -> bool {
    &&& unique_ids(s)
    &&& on_canvas(s)
    &&& s.len() <= u32::MAX
}

/// `a + k` modulo 2^32.
pub open spec fn wrap_add(a: u32, k: int) -> u32 {
    ((a + k) % 0x1_0000_0000) as u32
}

/// `o` after a position update at time `now`; the motion history is left alone.
pub open spec fn moved(o: TuioObject, x: u32, y: u32, angle: u32, now: i64) -> TuioObject {
    TuioObject { x, y, angle, last_update: now, ..o }
}

/// Every candidate from `start` up to, not including, `start + k` (modulo
/// 2^32) is a live session id.
pub open spec fn live_run(s: Seq<TuioObject>, start: u32, k: int) -> bool {
    forall|j: int| 0 <= j < k ==> has_id(s, #[trigger] wrap_add(start, j))
}

/// A velocity sample is due when more than one millisecond has passed since
/// the object's last sample.
pub open spec fn sample_due(o: TuioObject, now: i64) -> bool {
    now - o.last_update > 1
}

/// `o` with new velocities, its motion history moved up to its present
/// position and `now`.
pub open spec fn with_velocity(o: TuioObject, now: i64, x_vel: u32, y_vel: u32, angle_vel: u32) -> TuioObject {
    TuioObject {
        x_vel,
        y_vel,
        angle_vel,
        last_x: o.x,
        last_y: o.y,
        last_angle: o.angle,
        last_update: now,
        ..o
    }
}

impl TuioObject {
    /// The milliseconds since the last velocity sample, when a sample is due.
    pub fn sample_interval(&self, now: i64) -> (r: Option<u64>)
        ensures
            r is Some <==> sample_due(*self, now),
            r matches Some(d) ==> d == now - self.last_update,
    {
        let d: i128 = now as i128 - self.last_update as i128;
        if d > 1 {
            Some(d as u64)
        } else {
            None
        }
    }
}

/// Why the store refused an operation.
#[derive(Clone, Copy, Debug, PartialEq, Eq, Structural)]
pub enum StoreError {
    Duplicate,
    NotFound,
    OutOfRange,
    Full,
}

/// The live objects, keyed by session id, and the session-id allocator.
pub struct ObjectStore {
    objects: Vec<TuioObject>,
    next_session_id: u32,
}

impl View for ObjectStore {
    type V = Seq<TuioObject>;

    closed spec fn view(&self) -> Seq<TuioObject> {
        self.objects@
    }
}

impl ObjectStore {
    /// The candidate that the next allocation tries first.
    pub closed spec fn next_id(&self) -> u32 {
        self.next_session_id
    }

    pub open spec fn wf(&self) -> bool {
        store_wf(self@)
    }

    pub fn new() -> (r: ObjectStore)
        ensures
            r@ == Seq::<TuioObject>::empty(),
            r.next_id() == 0,
            r.wf(),
    {
        ObjectStore { objects: Vec::new(), next_session_id: 0 }
    }

    pub fn len(&self) -> (r: usize)
        ensures
            r == self@.len(),
    {
        self.objects.len()
    }

    fn position_of(&self, id: u32) -> (r: Option<usize>)
        ensures
            r matches Some(i) ==> i < self@.len() && self@[i as int].session_id == id,
            r is None <==> !has_id(self@, id),
    {
        let mut i: usize = 0;
        while i < self.objects.len()
            invariant
                i <= self@.len(),
                self@ == self.objects@,
                forall|j: int| 0 <= j < i ==> (#[trigger] self@[j]).session_id != id,
            decreases self@.len() - i,
        {
            if self.objects[i].session_id == id {
                return Some(i);
            }
            i = i + 1;
        }
        None
    }

    /// Whether an object with this session id is live.
    pub fn contains(&self, id: u32) -> (r: bool)
        ensures
            r == has_id(self@, id),
    {
        self.position_of(id).is_some()
    }

    /// The object with this session id, if it is live.
    pub fn get(&self, id: u32) -> (r: Option<TuioObject>)
        ensures
            r is None <==> !has_id(self@, id),
            r matches Some(o) ==> o.session_id == id && self@.contains(o),
    {
        match self.position_of(id) {
            Some(i) => Some(self.objects[i]),
            None => None,
        }
    }

    /// The object at position `i` of the store's order.
    pub fn object_at(&self, i: usize) -> (r: TuioObject)
        requires
            i < self@.len(),
        ensures
            r == self@[i as int],
    {
        self.objects[i]
    }

    /// Whether some live object has this component id.
    pub fn component_in_use(&self, component_id: u16) -> (r: bool)
        ensures
            r == has_component(self@, component_id),
    {
        let mut i: usize = 0;
        while i < self.objects.len()
            invariant
                i <= self@.len(),
                self@ == self.objects@,
                forall|j: int| 0 <= j < i ==> (#[trigger] self@[j]).component_id != component_id,
            decreases self@.len() - i,
        {
            if self.objects[i].component_id == component_id {
                return true;
            }
            i = i + 1;
        }
        false
    }

    /// A copy of the live objects, in the store's order.
    pub fn snapshot(&self) -> (r: Vec<TuioObject>)
        ensures
            r@ == self@,
    {
        let mut out: Vec<TuioObject> = Vec::new();
        let mut i: usize = 0;
        while i < self.objects.len()
            invariant
                i <= self@.len(),
                self@ == self.objects@,
                out@ == self@.subrange(0, i as int),
            decreases self@.len() - i,
        {
            out.push(self.objects[i]);
            i = i + 1;
            assert(out@ =~= self@.subrange(0, i as int));
        }
        assert(self@.subrange(0, self@.len() as int) =~= self@);
        out
    }

    /// Inserts `obj` when its position is on the canvas, its session id is not
    /// live, and the store has room.
    pub fn add(&mut self, obj: TuioObject) -> (r: Result<(), StoreError>)
        requires
            old(self).wf(),
        ensures
            final(self).wf(),
            final(self).next_id() == old(self).next_id(),
            r == Err::<(), StoreError>(StoreError::OutOfRange) <==> !(unit_interval(obj.x)
                && unit_interval(obj.y)),
            r == Err::<(), StoreError>(StoreError::Duplicate) <==> unit_interval(obj.x)
                && unit_interval(obj.y) && has_id(old(self)@, obj.session_id),
            r == Err::<(), StoreError>(StoreError::Full) <==> unit_interval(obj.x) && unit_interval(
                obj.y,
            ) && !has_id(old(self)@, obj.session_id) && old(self)@.len() == u32::MAX,
            r is Ok <==> unit_interval(obj.x) && unit_interval(obj.y) && !has_id(old(self)@, obj.session_id)
                && old(self)@.len() < u32::MAX,
            r is Ok ==> final(self)@ == old(self)@.push(obj),
            r is Err ==> *final(self) == *old(self),
    {
        if !(in_unit_interval(obj.x) && in_unit_interval(obj.y)) {
            return Err(StoreError::OutOfRange);
        }
        if self.contains(obj.session_id) {
            return Err(StoreError::Duplicate);
        }
        if self.objects.len() >= 0xffff_ffffusize {
            return Err(StoreError::Full);
        }
        let ghost before = self@;
        self.objects.push(obj);
        proof {
            assert(self@ == before.push(obj));
            assert forall|i: int, j: int|
                0 <= i < self@.len() && 0 <= j < self@.len() && i != j implies (
                #[trigger] self@[i]).session_id != (#[trigger] self@[j]).session_id by {
                if i == before.len() as int {
                    assert(before[j] == self@[j]);
                } else if j == before.len() as int {
                    assert(before[i] == self@[i]);
                }
            }
        }
        Ok(())
    }

    /// Moves the live object `id` to `(x, y)` with `angle`, stamping `now`.
    pub fn update(&mut self, id: u32, x: u32, y: u32, angle: u32, now: i64) -> (r: Result<
        (),
        StoreError,
    >)
        requires
            old(self).wf(),
        ensures
            final(self).wf(),
            final(self).next_id() == old(self).next_id(),
            r == Err::<(), StoreError>(StoreError::OutOfRange) <==> !(unit_interval(x)
                && unit_interval(y)),
            r == Err::<(), StoreError>(StoreError::NotFound) <==> unit_interval(x) && unit_interval(
                y,
            ) && !has_id(old(self)@, id),
            r is Ok <==> unit_interval(x) && unit_interval(y) && has_id(old(self)@, id),
            r is Ok ==> final(self)@.len() == old(self)@.len() && forall|i: int|
                0 <= i < old(self)@.len() ==> (#[trigger] final(self)@[i]) == if old(
                    self,
                )@[i].session_id == id {
                    moved(old(self)@[i], x, y, angle, now)
                } else {
                    old(self)@[i]
                },
            r is Err ==> *final(self) == *old(self),
    {
        if !(in_unit_interval(x) && in_unit_interval(y)) {
            return Err(StoreError::OutOfRange);
        }
        match self.position_of(id) {
            None => Err(StoreError::NotFound),
            Some(p) => {
                let ghost before = self@;
                let mut o = self.objects[p];
                o.x = x;
                o.y = y;
                o.angle = angle;
                o.last_update = now;
                self.objects.set(p, o);
                proof {
                    assert forall|i: int| 0 <= i < before.len() implies (#[trigger] self@[i])
                        == if before[i].session_id == id {
                        moved(before[i], x, y, angle, now)
                    } else {
                        before[i]
                    } by {
                        if i != p as int {
                            assert(before[i].session_id != before[p as int].session_id);
                        }
                    }
                    assert forall|i: int, j: int|
                        0 <= i < self@.len() && 0 <= j < self@.len() && i != j implies (
                        #[trigger] self@[i]).session_id != (#[trigger] self@[j]).session_id by {
                        assert(before[i].session_id != before[j].session_id);
                    }
                }
                Ok(())
            },
        }
    }

    /// Hands out the first session id, counting up from the allocator's
    /// candidate and wrapping modulo 2^32, that is not live; the candidate
    /// then moves past it.
    pub fn allocate_session_id(&mut self) -> (r: u32)
        requires
            old(self).wf(),
        ensures
            final(self)@ == old(self)@,
            final(self).wf(),
            !has_id(old(self)@, r),
            exists|k: int|
                0 <= k <= old(self)@.len() && r == wrap_add(old(self).next_id(), k) && live_run(
                    old(self)@,
                    old(self).next_id(),
                    k,
                ),
            final(self).next_id() == wrap_add(r, 1),
    {
        let start = self.next_session_id;
        let ghost s = self@;
        let ghost ids = s.map_values(|o: TuioObject| o.session_id).to_set();
        proof {
            s.map_values(|o: TuioObject| o.session_id).lemma_cardinality_of_set();
            assert forall|x: u32| ids.contains(x) <==> has_id(s, x) by {
                let m = s.map_values(|o: TuioObject| o.session_id);
                if has_id(s, x) {
                    let i = choose|i: int| 0 <= i < s.len() && (#[trigger] s[i]).session_id == x;
                    assert(m[i] == x);
                }
                if ids.contains(x) {
                    let i = choose|i: int| 0 <= i < m.len() && m[i] == x;
                    assert(s[i].session_id == x);
                }
            }
        }
        let mut cand = start;
        let ghost mut k: int = 0;
        let ghost mut tried: Set<u32> = Set::empty();
        while self.contains(cand)
            invariant
                self@ == s,
                self.wf(),
                self.next_session_id == start,
                0 <= k <= s.len(),
                cand == wrap_add(start, k),
                tried.finite(),
                tried.len() == k,
                tried.subset_of(ids),
                forall|x: u32| tried.contains(x) ==> exists|j: int| 0 <= j < k && x == wrap_add(start, j),
                live_run(s, start, k),
                ids.finite(),
                ids.len() <= s.len(),
                forall|x: u32| ids.contains(x) <==> has_id(s, x),
            decreases s.len() - k,
        {
            proof {
                if tried.contains(cand) {
                    let j = choose|j: int| 0 <= j < k && cand == wrap_add(start, j);
                    assert(false);
                }
                let t2 = tried.insert(cand);
                vstd::set_lib::lemma_len_subset(t2, ids);
                assert forall|x: u32| t2.contains(x) implies exists|j: int| 0 <= j < k + 1 && x == wrap_add(start, j) by {
                    if x != cand {
                        let j = choose|j: int| 0 <= j < k && x == wrap_add(start, j);
                        assert(0 <= j < k + 1 && x == wrap_add(start, j));
                    }
                }
                assert forall|j: int| 0 <= j < k + 1 implies has_id(s, #[trigger] wrap_add(start, j)) by {
                    if j < k {
                        assert(has_id(s, wrap_add(start, j)));
                    }
                }
                tried = t2;
                k = k + 1;
            }
            cand = cand.wrapping_add(1);
        }
        self.next_session_id = cand.wrapping_add(1);
        assert(0 <= k <= s.len() && cand == wrap_add(start, k) && live_run(s, start, k));
        assert(s == old(self)@ && start == old(self).next_id());
        assert(exists|k: int| 0 <= k <= s.len() && cand == wrap_add(start, k) && live_run(s, start, k));
        cand
    }

    /// Records a velocity sample for the object at position `i` when one is
    /// due at `now`: the given velocities, and the present position, angle
    /// and time as its motion history. Otherwise nothing changes.
    pub fn record_motion(&mut self, i: usize, now: i64, x_vel: u32, y_vel: u32, angle_vel: u32) -> (r: bool)
        requires
            old(self).wf(),
            i < old(self)@.len(),
        ensures
            final(self).wf(),
            final(self).next_id() == old(self).next_id(),
            r == sample_due(old(self)@[i as int], now),
            final(self)@ == if r {
                old(self)@.update(i as int, with_velocity(old(self)@[i as int], now, x_vel, y_vel, angle_vel))
            } else {
                old(self)@
            },
    {
        let mut o = self.objects[i];
        if o.sample_interval(now).is_none() {
            return false;
        }
        let ghost before = self@;
        o.x_vel = x_vel;
        o.y_vel = y_vel;
        o.angle_vel = angle_vel;
        o.last_x = o.x;
        o.last_y = o.y;
        o.last_angle = o.angle;
        o.last_update = now;
        self.objects.set(i, o);
        proof {
            assert forall|a: int, b: int|
                0 <= a < self@.len() && 0 <= b < self@.len() && a != b implies (
                #[trigger] self@[a]).session_id != (#[trigger] self@[b]).session_id by {
                assert(before[a].session_id != before[b].session_id);
            }
        }
        true
    }

    /// Removes the live object `id`.
    pub fn remove(&mut self, id: u32) -> (r: Result<TuioObject, StoreError>)
        requires
            old(self).wf(),
        ensures
            final(self).wf(),
            final(self).next_id() == old(self).next_id(),
            r is Err <==> !has_id(old(self)@, id),
            r is Err ==> r == Err::<TuioObject, StoreError>(StoreError::NotFound) && *final(self)
                == *old(self),
            r matches Ok(o) ==> o.session_id == id && exists|i: int|
                0 <= i < old(self)@.len() && old(self)@[i] == o && final(self)@ == old(
                    self,
                )@.remove(i),
            !has_id(final(self)@, id),
    {
        match self.position_of(id) {
            None => Err(StoreError::NotFound),
            Some(p) => {
                let ghost before = self@;
                let o = self.objects.remove(p);
                proof {
                    assert(self@ == before.remove(p as int));
                    assert forall|i: int, j: int|
                        0 <= i < self@.len() && 0 <= j < self@.len() && i != j implies (
                        #[trigger] self@[i]).session_id != (#[trigger] self@[j]).session_id by {
                        let bi = if i < p { i } else { i + 1 };
                        let bj = if j < p { j } else { j + 1 };
                        assert(self@[i] == before[bi]);
                        assert(self@[j] == before[bj]);
                    }
                    assert forall|i: int| 0 <= i < self@.len() implies unit_interval(
                        (#[trigger] self@[i]).x,
                    ) && unit_interval(self@[i].y) by {
                        let bi = if i < p { i } else { i + 1 };
                        assert(self@[i] == before[bi]);
                    }
                    if has_id(self@, id) {
                        let i = choose|i: int| 0 <= i < self@.len() && (#[trigger] self@[i]).session_id == id;
                        let bi = if i < p { i } else { i + 1 };
                        assert(self@[i] == before[bi]);
                    }
                }
                Ok(o)
            },
        }
    }
}

/// The server's configuration.
#[derive(Clone, Debug)]
pub struct Config {
    pub port: u16,
    pub fps: u32,
    pub width: u16,
    pub height: u16,
    pub source: String,
}

impl Config {
    /// Frame rate in `[1, 120]`, canvas at least one pixel each way.
    pub open spec fn wf(&self) -> bool {
        1 <= self.fps <= 120 && self.width >= 1 && self.height >= 1
    }
}

impl Default for Config {
    /// Port 3343, 60 frames per second, a 1920 by 1080 canvas, source
    /// `tuio-simulator`.
    fn default() -> (r: Config)
        ensures
            r.port == 3343,
            r.fps == 60,
            r.width == 1920,
            r.height == 1080,
            r.source@ == "tuio-simulator"@,
            r.wf(),
    {
        Config {
            port: 3343,
            fps: 60,
            width: 1920,
            height: 1080,
            source: "tuio-simulator".to_string(),
        }
    }
}

/// A snapshot of the server's state.
#[derive(Clone, Copy, Debug, PartialEq, Eq, Structural)]
pub struct ServerStatus {
    pub running: bool,
    pub port: u16,
    pub fps: u32,
    pub connected_clients: usize,
    pub frame_count: u32,
    pub object_count: usize,
}

/// The simulator's state: objects, frame counter, configuration, the running
/// flag and the number of connected clients.
pub struct AppState {
    pub objects: ObjectStore,
    pub frame_counter: u32,
    pub config: Config,
    pub server_running: bool,
    pub connected_clients: usize,
}

impl AppState {
    pub open spec fn wf(&self) -> bool {
        self.objects.wf() && self.config.wf()
    }

    /// No objects, frame counter and session ids from zero, the default
    /// configuration, stopped, no clients.
    pub fn new() -> (r: AppState)
        ensures
            r.wf(),
            r.objects@ == Seq::<TuioObject>::empty(),
            r.objects.next_id() == 0,
            r.frame_counter == 0,
            r.config.port == 3343,
            r.config.fps == 60,
            r.config.width == 1920,
            r.config.height == 1080,
            r.config.source@ == "tuio-simulator"@,
            !r.server_running,
            r.connected_clients == 0,
    {
        AppState {
            objects: ObjectStore::new(),
            frame_counter: 0,
            config: Config::default(),
            server_running: false,
            connected_clients: 0,
        }
    }

    /// A fresh session id from the store's allocator.
    pub fn allocate_session_id(&mut self) -> (r: u32)
        requires
            old(self).wf(),
        ensures
            final(self).wf(),
            final(self).objects@ == old(self).objects@,
            !has_id(old(self).objects@, r),
            exists|k: int|
                0 <= k <= old(self).objects@.len() && r == wrap_add(old(self).objects.next_id(), k)
                    && live_run(old(self).objects@, old(self).objects.next_id(), k),
            final(self).objects.next_id() == wrap_add(r, 1),
            final(self).frame_counter == old(self).frame_counter,
            final(self).config == old(self).config,
            final(self).server_running == old(self).server_running,
            final(self).connected_clients == old(self).connected_clients,
    {
        self.objects.allocate_session_id()
    }

    /// Advances the frame counter by one, modulo 2^32, and returns its new value.
    pub fn increment_frame_counter(&mut self) -> (r: u32)
        ensures
            r == wrap_add(old(self).frame_counter, 1),
            final(self).frame_counter == r,
            final(self).objects == old(self).objects,
            final(self).config == old(self).config,
            final(self).server_running == old(self).server_running,
            final(self).connected_clients == old(self).connected_clients,
    {
        self.frame_counter = self.frame_counter.wrapping_add(1);
        self.frame_counter
    }
}

impl Default for AppState {
    fn default() -> (r: AppState)
        ensures
            r.wf(),
            r.objects@ == Seq::<TuioObject>::empty(),
            r.frame_counter == 0,
            !r.server_running,
            r.connected_clients == 0,
    {
        AppState::new()
    }
}

} // verus!
