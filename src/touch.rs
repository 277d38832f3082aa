//! The per-device touch decoder.
//!
//! Multitouch devices (protocol B) report per-slot fields; a slot's phase is
//! derived only at a synchronization boundary, by comparing its tracking id
//! with the one it had at the boundary before. Devices without multitouch
//! activity in a frame fall back to a single tracked contact (protocol A).
use vstd::prelude::*;
use crate::mapper::{CoordMapper, SurfacePos};
use crate::record::{
    InputEvent, ABS_MT_POSITION_X, ABS_MT_POSITION_Y, ABS_MT_SLOT, ABS_MT_TRACKING_ID, ABS_X,
    ABS_Y, BTN_TOUCH, EV_ABS, EV_KEY, EV_SYN, SYN_REPORT,
};

verus! {

/// The number of multitouch slots tracked per device.
pub const MAX_SLOTS: usize = 10;

/// The phase of one contact in one frame.
#[derive(Clone, Copy, Debug, PartialEq, Eq, Structural)]
pub enum TouchPhase {
    Start,
    Move,
    End,
}

/// One multitouch slot.
#[derive(Clone, Copy, Debug, PartialEq, Eq, Structural)]
pub struct SlotState {
    /// The current tracking id; negative when the slot is free.
    pub tracking_id: i32,
    /// The tracking id as of the previous synchronization boundary.
    pub prev_tracking_id: i32,
    pub x: i32,
    pub y: i32,
    /// Whether a position field was written since the last boundary.
    pub has_pos: bool,
}

/// The single contact that devices without multitouch report.
#[derive(Clone, Copy, Debug, PartialEq, Eq, Structural)]
pub struct SingleTouchState {
    pub x: i32,
    pub y: i32,
    pub pressed: bool,
    pub was_pressed: bool,
}

/// One decoded output event.
#[derive(Clone, Copy, Debug, PartialEq, Eq, Structural)]
pub enum TouchEvent {
    /// A contact's phase; `finger_id` is `1000 * device_id + slot` (slot 0
    /// for the single-contact fallback).
    Touch { device_id: u64, finger_id: u64, phase: TouchPhase, pos: SurfacePos },
    /// The primary pointer moved.
    PointerMoved { pos: SurfacePos },
    /// The primary pointer's button was pressed or released.
    PointerButton { pos: SurfacePos, pressed: bool },
    /// The primary pointer left the surface.
    PointerGone,
}

/// A free slot that has seen no position.
pub open spec fn free_slot() -> SlotState {
    SlotState { tracking_id: -1i32, prev_tracking_id: -1i32, x: 0, y: 0, has_pos: false }
}

impl Default for SlotState {
    fn default() -> (s: SlotState)
        ensures
            s == free_slot(),
    {
        SlotState { tracking_id: -1, prev_tracking_id: -1, x: 0, y: 0, has_pos: false }
    }
}

/// A slot that became occupied without a position since the last boundary:
/// its start waits for a position.
pub open spec fn start_deferred(s: SlotState) -> bool {
    s.prev_tracking_id < 0 && s.tracking_id >= 0 && !s.has_pos
}

/// The phase a slot produces at a boundary, if any.
pub open spec fn slot_phase(s: SlotState) -> Option<TouchPhase> {
    if s.prev_tracking_id < 0 && s.tracking_id >= 0 {
        if s.has_pos {
            Some(TouchPhase::Start)
        } else {
            None
        }
    } else if s.prev_tracking_id >= 0 && s.tracking_id < 0 {
        Some(TouchPhase::End)
    } else if s.tracking_id >= 0 && s.has_pos {
        Some(TouchPhase::Move)
    } else {
        None
    }
}

/// A slot after a boundary: a deferred start is kept as it is; otherwise the
/// tracking id becomes the previous one and the position is no longer fresh.
pub open spec fn slot_after_sync(s: SlotState) -> SlotState {
    if start_deferred(s) {
        s
    } else {
        SlotState { prev_tracking_id: s.tracking_id, has_pos: false, ..s }
    }
}

/// The events that drive the logical primary pointer for a phase.
pub open spec fn pointer_events(p: TouchPhase, pos: SurfacePos) -> Seq<TouchEvent> {
    match p {
        TouchPhase::Start => seq![
            TouchEvent::PointerMoved { pos },
            TouchEvent::PointerButton { pos, pressed: true },
        ],
        TouchPhase::Move => seq![TouchEvent::PointerMoved { pos }],
        TouchPhase::End => seq![
            TouchEvent::PointerButton { pos, pressed: false },
            TouchEvent::PointerGone,
        ],
    }
}

/// The finger id of slot `slot` on device `id`.
pub open spec fn finger_id(id: u32, slot: int) -> u64 {
    (id * 1000 + slot) as u64
}

/// The state of one device, as a model.
pub struct DeviceModel {
    pub id: u32,
    pub mapper: CoordMapper,
    pub slots: Seq<SlotState>,
    pub current_slot: int,
    pub single: SingleTouchState,
}

impl DeviceModel {
    pub open spec fn wf(self) -> bool {
        &&& self.slots.len() == MAX_SLOTS
        &&& 0 <= self.current_slot < MAX_SLOTS
    }
}

/// A device just opened: every slot free, slot 0 selected, no contact.
pub open spec fn fresh_device(id: u32, mapper: CoordMapper) -> DeviceModel {
    DeviceModel {
        id,
        mapper,
        slots: Seq::new(MAX_SLOTS as nat, |i: int| free_slot()),
        current_slot: 0,
        single: SingleTouchState { x: 0, y: 0, pressed: false, was_pressed: false },
    }
}

/// Whether some slot below `n` produces a phase at this boundary.
pub open spec fn any_phase_before(slots: Seq<SlotState>, n: int) -> bool {
    exists|j: int| 0 <= j < n && #[trigger] slot_phase(slots[j]) is Some
}

/// The events of slot `i` at a boundary; `primary` when it drives the pointer.
pub open spec fn slot_events(d: DeviceModel, i: int, primary: bool) -> Seq<TouchEvent> {
    let s = d.slots[i];
    match slot_phase(s) {
        None => seq![],
        Some(p) => {
            let pos = d.mapper.spec_to_surface(s.x, s.y);
            let touch = TouchEvent::Touch {
                device_id: d.id as u64,
                finger_id: finger_id(d.id, i),
                phase: p,
                pos,
            };
            if primary {
                seq![touch] + pointer_events(p, pos)
            } else {
                seq![touch]
            }
        },
    }
}

/// The multitouch events of slots `0..n` at a boundary, in ascending slot
/// order; the first slot with a phase drives the pointer.
pub open spec fn mt_events(d: DeviceModel, n: int) -> Seq<TouchEvent>
    decreases n,
{
    if n <= 0 {
        seq![]
    } else {
        mt_events(d, n - 1) + slot_events(d, n - 1, !any_phase_before(d.slots, n - 1))
    }
}

/// The events of the single-contact fallback at a boundary.
pub open spec fn single_events(d: DeviceModel) -> Seq<TouchEvent> {
    let st = d.single;
    let pos = d.mapper.spec_to_surface(st.x, st.y);
    let touch = |p: TouchPhase|
        TouchEvent::Touch { device_id: d.id as u64, finger_id: finger_id(d.id, 0), phase: p, pos };
    if st.pressed && !st.was_pressed {
        seq![touch(TouchPhase::Start)] + pointer_events(TouchPhase::Start, pos)
    } else if st.pressed {
        seq![touch(TouchPhase::Move)] + pointer_events(TouchPhase::Move, pos)
    } else if st.was_pressed {
        seq![touch(TouchPhase::End)] + pointer_events(TouchPhase::End, pos)
    } else {
        seq![]
    }
}

/// The batch a boundary produces: the multitouch events, or, when no slot
/// produced a phase, those of the single-contact fallback.
pub open spec fn sync_output(d: DeviceModel) -> Seq<TouchEvent> {
    if any_phase_before(d.slots, MAX_SLOTS as int) {
        mt_events(d, MAX_SLOTS as int)
    } else {
        single_events(d)
    }
}

/// The device after a boundary.
pub open spec fn sync_state(d: DeviceModel) -> DeviceModel {
    DeviceModel {
        slots: d.slots.map_values(|s: SlotState| slot_after_sync(s)),
        single: if any_phase_before(d.slots, MAX_SLOTS as int) {
            d.single
        } else {
            SingleTouchState { was_pressed: d.single.pressed, ..d.single }
        },
        ..d
    }
}

/// The device with the selected slot replaced by `s`.
pub open spec fn with_current(d: DeviceModel, s: SlotState) -> DeviceModel {
    DeviceModel { slots: d.slots.update(d.current_slot, s), ..d }
}

/// Whether a record closes a frame.
pub open spec fn is_report(e: InputEvent) -> bool {
    e.event_type == EV_SYN && e.code == SYN_REPORT
}

/// The device after one record.
pub open spec fn record_step(d: DeviceModel, e: InputEvent) -> DeviceModel {
    let cur = d.slots[d.current_slot];
    if e.event_type == EV_ABS {
        if e.code == ABS_MT_SLOT {
            if 0 <= e.value < MAX_SLOTS {
                DeviceModel { current_slot: e.value as int, ..d }
            } else {
                d
            }
        } else if e.code == ABS_MT_TRACKING_ID {
            with_current(d, SlotState { tracking_id: e.value, ..cur })
        } else if e.code == ABS_MT_POSITION_X {
            with_current(d, SlotState { x: e.value, has_pos: true, ..cur })
        } else if e.code == ABS_MT_POSITION_Y {
            with_current(d, SlotState { y: e.value, has_pos: true, ..cur })
        } else if e.code == ABS_X {
            DeviceModel { single: SingleTouchState { x: e.value, ..d.single }, ..d }
        } else if e.code == ABS_Y {
            DeviceModel { single: SingleTouchState { y: e.value, ..d.single }, ..d }
        } else {
            d
        }
    } else if e.event_type == EV_KEY && e.code == BTN_TOUCH {
        DeviceModel { single: SingleTouchState { pressed: e.value != 0, ..d.single }, ..d }
    } else if is_report(e) {
        sync_state(d)
    } else {
        d
    }
}

/// The batch one record produces: a boundary's batch, or nothing.
pub open spec fn record_output(d: DeviceModel, e: InputEvent) -> Seq<TouchEvent> {
    if is_report(e) {
        sync_output(d)
    } else {
        seq![]
    }
}

/// The non-empty batches that a sequence of records produces, in order.
pub open spec fn run_output(d: DeviceModel, recs: Seq<InputEvent>) -> Seq<Seq<TouchEvent>>
    decreases recs.len(),
{
    if recs.len() == 0 {
        seq![]
    } else {
        let out = record_output(d, recs[0]);
        let rest = run_output(record_step(d, recs[0]), recs.drop_first());
        if out.len() > 0 {
            seq![out] + rest
        } else {
            rest
        }
    }
}

/// The device after a sequence of records.
pub open spec fn run_state(d: DeviceModel, recs: Seq<InputEvent>) -> DeviceModel
    decreases recs.len(),
{
    if recs.len() == 0 {
        d
    } else {
        run_state(record_step(d, recs[0]), recs.drop_first())
    }
}

proof fn lemma_no_phase_no_events(d: DeviceModel, n: int)
    requires
        0 <= n <= d.slots.len(),
        !any_phase_before(d.slots, n),
    ensures
        mt_events(d, n) == Seq::<TouchEvent>::empty(),
    decreases n,
{
    if n > 0 {
        assert(!any_phase_before(d.slots, n - 1));
        assert(slot_phase(d.slots[n - 1]) is None);
        lemma_no_phase_no_events(d, n - 1);
        assert(mt_events(d, n) =~= Seq::<TouchEvent>::empty());
    }
}

/// The slot state, mapper and single-contact state of one input device.
pub struct TouchDevice {
    id: u32,
    mapper: CoordMapper,
    slots: Vec<SlotState>,
    current_slot: usize,
    single: SingleTouchState,
}

impl View for TouchDevice {
    type V = DeviceModel;

    closed spec fn view(&self) -> DeviceModel {
        DeviceModel {
            id: self.id,
            mapper: self.mapper,
            slots: self.slots@,
            current_slot: self.current_slot as int,
            single: self.single,
        }
    }
}

fn phase_of(s: &SlotState) -> (r: Option<TouchPhase>)
    ensures
        r == slot_phase(*s),
{
    if s.prev_tracking_id < 0 && s.tracking_id >= 0 {
        if s.has_pos {
            Some(TouchPhase::Start)
        } else {
            None
        }
    } else if s.prev_tracking_id >= 0 && s.tracking_id < 0 {
        Some(TouchPhase::End)
    } else if s.tracking_id >= 0 && s.has_pos {
        Some(TouchPhase::Move)
    } else {
        None
    }
}

fn push_pointer_events(out: &mut Vec<TouchEvent>, p: TouchPhase, pos: SurfacePos)
    ensures
        final(out)@ == old(out)@ + pointer_events(p, pos),
{
    match p {
        TouchPhase::Start => {
            out.push(TouchEvent::PointerMoved { pos });
            out.push(TouchEvent::PointerButton { pos, pressed: true });
        },
        TouchPhase::Move => {
            out.push(TouchEvent::PointerMoved { pos });
        },
        TouchPhase::End => {
            out.push(TouchEvent::PointerButton { pos, pressed: false });
            out.push(TouchEvent::PointerGone);
        },
    }
    proof {
        assert(final(out)@ =~= old(out)@ + pointer_events(p, pos));
    }
}

impl TouchDevice {
    pub open spec fn well_formed(&self) -> bool {
        self@.wf()
    }

    /// A device numbered `id` whose positions `mapper` maps.
    pub fn new(id: u32, mapper: CoordMapper) -> (d: TouchDevice)
        ensures
            d@ == fresh_device(id, mapper),
            d.well_formed(),
    {
        let mut slots: Vec<SlotState> = Vec::new();
        let mut i: usize = 0;
        while i < MAX_SLOTS
            invariant
                i <= MAX_SLOTS,
                slots@.len() == i,
                forall|j: int| 0 <= j < i ==> slots@[j] == free_slot(),
            decreases MAX_SLOTS - i,
        {
            slots.push(SlotState::default());
            i = i + 1;
        }
        let d = TouchDevice {
            id,
            mapper,
            slots,
            current_slot: 0,
            single: SingleTouchState { x: 0, y: 0, pressed: false, was_pressed: false },
        };
        assert(d@.slots =~= fresh_device(id, mapper).slots);
        d
    }

    /// The number of this device.
    pub fn id(&self) -> (r: u32)
        ensures
            r == self@.id,
    {
        self.id
    }

    /// Derives the phases of a synchronization boundary and returns its batch.
    fn sync(&mut self) -> (out: Vec<TouchEvent>)
        requires
            old(self).well_formed(),
        ensures
            final(self)@ == sync_state(old(self)@),
            out@ == sync_output(old(self)@),
    {
        let ghost d0 = self@;
        let mut out: Vec<TouchEvent> = Vec::new();
        let mut primary_handled = false;
        let mut i: usize = 0;
        while i < MAX_SLOTS
            invariant
                d0.wf(),
                i <= MAX_SLOTS,
                self.id == d0.id,
                self.mapper == d0.mapper,
                self.single == d0.single,
                self.current_slot == d0.current_slot,
                self.slots@.len() == MAX_SLOTS,
                forall|j: int| 0 <= j < i ==> self.slots@[j] == slot_after_sync(d0.slots[j]),
                forall|j: int| i <= j < MAX_SLOTS ==> self.slots@[j] == d0.slots[j],
                out@ == mt_events(d0, i as int),
                primary_handled == any_phase_before(d0.slots, i as int),
            decreases MAX_SLOTS - i,
        {
            let s = self.slots[i];
            let phase = phase_of(&s);
            let primary = !primary_handled;
            let ghost before = out@;
            match phase {
                Some(p) => {
                    let pos = self.mapper.to_surface(s.x, s.y);
                    out.push(TouchEvent::Touch {
                        device_id: self.id as u64,
                        finger_id: self.id as u64 * 1000 + i as u64,
                        phase: p,
                        pos,
                    });
                    if primary {
                        push_pointer_events(&mut out, p, pos);
                    }
                    primary_handled = true;
                },
                None => {},
            }
            let next = if s.prev_tracking_id < 0 && s.tracking_id >= 0 && !s.has_pos {
                s
            } else {
                SlotState { prev_tracking_id: s.tracking_id, has_pos: false, ..s }
            };
            self.slots.set(i, next);
            proof {
                assert(out@ =~= before + slot_events(d0, i as int, primary));
                if phase is Some {
                    assert(any_phase_before(d0.slots, i as int + 1)) by {
                        assert(slot_phase(d0.slots[i as int]) is Some);
                    }
                } else {
                    assert(any_phase_before(d0.slots, i as int + 1) == any_phase_before(
                        d0.slots,
                        i as int,
                    )) by {
                        if any_phase_before(d0.slots, i as int + 1) {
                            let j = choose|j: int|
                                0 <= j < i + 1 && #[trigger] slot_phase(d0.slots[j]) is Some;
                            assert(j < i);
                        }
                    }
                }
            }
            i = i + 1;
        }
        if !primary_handled {
            let st = self.single;
            let pos = self.mapper.to_surface(st.x, st.y);
            let ghost before = out@;
            if st.pressed && !st.was_pressed {
                out.push(TouchEvent::Touch {
                    device_id: self.id as u64,
                    finger_id: self.id as u64 * 1000,
                    phase: TouchPhase::Start,
                    pos,
                });
                push_pointer_events(&mut out, TouchPhase::Start, pos);
            } else if st.pressed {
                out.push(TouchEvent::Touch {
                    device_id: self.id as u64,
                    finger_id: self.id as u64 * 1000,
                    phase: TouchPhase::Move,
                    pos,
                });
                push_pointer_events(&mut out, TouchPhase::Move, pos);
            } else if st.was_pressed {
                out.push(TouchEvent::Touch {
                    device_id: self.id as u64,
                    finger_id: self.id as u64 * 1000,
                    phase: TouchPhase::End,
                    pos,
                });
                push_pointer_events(&mut out, TouchPhase::End, pos);
            }
            self.single = SingleTouchState { was_pressed: st.pressed, ..st };
            proof {
                lemma_no_phase_no_events(d0, MAX_SLOTS as int);
                assert(before =~= seq![]);
                assert(out@ =~= single_events(d0));
            }
        }
        proof {
            assert(self@.slots =~= sync_state(d0).slots);
        }
        out
    }

    /// Applies one record and returns the batch it produces: at a
    /// synchronization report the boundary's batch (possibly empty), after any
    /// other record an empty one.
    pub fn process_event(&mut self, ev: &InputEvent) -> (out: Vec<TouchEvent>)
        requires
            old(self).well_formed(),
        ensures
            final(self).well_formed(),
            final(self)@ == record_step(old(self)@, *ev),
            out@ == record_output(old(self)@, *ev),
    {
        let ghost d0 = self@;
        let cur: usize = self.current_slot;
        if ev.event_type == EV_ABS {
            let s = self.slots[cur];
            if ev.code == ABS_MT_SLOT {
                if 0 <= ev.value && ev.value < MAX_SLOTS as i32 {
                    self.current_slot = ev.value as usize;
                }
            } else if ev.code == ABS_MT_TRACKING_ID {
                self.slots.set(cur, SlotState { tracking_id: ev.value, ..s });
            } else if ev.code == ABS_MT_POSITION_X {
                self.slots.set(cur, SlotState { x: ev.value, has_pos: true, ..s });
            } else if ev.code == ABS_MT_POSITION_Y {
                self.slots.set(cur, SlotState { y: ev.value, has_pos: true, ..s });
            } else if ev.code == ABS_X {
                self.single = SingleTouchState { x: ev.value, ..self.single };
            } else if ev.code == ABS_Y {
                self.single = SingleTouchState { y: ev.value, ..self.single };
            }
            proof {
                assert(self@ == record_step(d0, *ev));
            }
            Vec::new()
        } else if ev.event_type == EV_KEY && ev.code == BTN_TOUCH {
            self.single = SingleTouchState { pressed: ev.value != 0, ..self.single };
            Vec::new()
        } else if ev.event_type == EV_SYN && ev.code == SYN_REPORT {
            let out = self.sync();
            proof {
                assert(self@.slots.len() == MAX_SLOTS);
            }
            out
        } else {
            Vec::new()
        }
    }

    /// Applies a sequence of records in order and returns the non-empty
    /// batches they produce, in order.
    pub fn process_events(&mut self, evs: &[InputEvent]) -> (out: Vec<Vec<TouchEvent>>)
        requires
            old(self).well_formed(),
        ensures
            final(self).well_formed(),
            final(self)@ == run_state(old(self)@, evs@),
            out@.map_values(|b: Vec<TouchEvent>| b@) == run_output(old(self)@, evs@),
    {
        let ghost d0 = self@;
        let mut out: Vec<Vec<TouchEvent>> = Vec::new();
        let mut i: usize = 0;
        assert(evs@.subrange(0, evs@.len() as int) =~= evs@);
        assert(out@.map_values(|b: Vec<TouchEvent>| b@) =~= Seq::<Seq<TouchEvent>>::empty());
        while i < evs.len()
            invariant
                self.well_formed(),
                i <= evs@.len(),
                run_state(d0, evs@) == run_state(self@, evs@.subrange(i as int, evs@.len() as int)),
                run_output(d0, evs@) == out@.map_values(|b: Vec<TouchEvent>| b@) + run_output(
                    self@,
                    evs@.subrange(i as int, evs@.len() as int),
                ),
            decreases evs@.len() - i,
        {
            let ghost d = self@;
            let ghost rest = evs@.subrange(i as int, evs@.len() as int);
            assert(rest.drop_first() =~= evs@.subrange(i as int + 1, evs@.len() as int));
            assert(rest[0] == evs@[i as int]);
            let ghost old_out = out@;
            let batch = self.process_event(&evs[i]);
            if batch.len() > 0 {
                out.push(batch);
                assert(out@.map_values(|b: Vec<TouchEvent>| b@) =~= old_out.map_values(
                    |b: Vec<TouchEvent>| b@,
                ) + seq![record_output(d, rest[0])]);
            }
            i = i + 1;
        }
        assert(evs@.subrange(i as int, evs@.len() as int) =~= Seq::<InputEvent>::empty());
        assert(out@.map_values(|b: Vec<TouchEvent>| b@) + seq![] =~= out@.map_values(
            |b: Vec<TouchEvent>| b@,
        ));
        out
    }
}

/// A contact that appears without a position is deferred: its slot yields
/// no event at the boundary and keeps its state, so the slot still counts as
/// newly occupied at the next one.
pub proof fn lemma_deferred_start(d: DeviceModel, i: int, primary: bool)
    requires
        d.wf(),
        0 <= i < MAX_SLOTS,
        start_deferred(d.slots[i]),
    ensures
        slot_events(d, i, primary) == Seq::<TouchEvent>::empty(),
        sync_state(d).slots[i] == d.slots[i],
{
}

/// A slot that is newly occupied at a boundary yields a `Start` there or
/// nothing: never a `Move` or an `End`.
pub proof fn lemma_new_contact_starts(s: SlotState)
    requires
        s.prev_tracking_id < 0,
        s.tracking_id >= 0,
    ensures
        slot_phase(s) == (if s.has_pos { Some(TouchPhase::Start) } else { None::<TouchPhase> }),
{
}

/// Records other than a synchronization report produce no batch and leave
/// every slot's previous tracking id as it was: phases are derived only at
/// boundaries.
pub proof fn lemma_fields_keep_previous(d: DeviceModel, e: InputEvent)
    requires
        d.wf(),
        !is_report(e),
    ensures
        record_output(d, e) == Seq::<TouchEvent>::empty(),
        record_step(d, e).wf(),
        forall|i: int|
            0 <= i < MAX_SLOTS ==> #[trigger] record_step(d, e).slots[i].prev_tracking_id
                == d.slots[i].prev_tracking_id,
{
}

/// When some slot produces a phase at a boundary, the single-contact
/// fallback produces nothing and its state is left alone.
pub proof fn lemma_fallback_exclusive(d: DeviceModel)
    requires
        d.wf(),
        any_phase_before(d.slots, MAX_SLOTS as int),
    ensures
        sync_output(d) == mt_events(d, MAX_SLOTS as int),
        sync_state(d).single == d.single,
{
}

/// Replaying the same records into two freshly built devices with the same
/// number and mapper gives the same batches and the same final state.
pub proof fn lemma_replay_deterministic(
    id: u32,
    mapper: CoordMapper,
    recs: Seq<InputEvent>,
    d1: DeviceModel,
    d2: DeviceModel,
)
    requires
        d1 == fresh_device(id, mapper),
        d2 == fresh_device(id, mapper),
    ensures
        run_output(d1, recs) == run_output(d2, recs),
        run_state(d1, recs) == run_state(d2, recs),
{
}

proof fn lemma_only_first_slot(d: DeviceModel, n: int)
    requires
        d.wf(),
        1 <= n <= MAX_SLOTS,
        slot_phase(d.slots[0]) is Some,
        forall|j: int| 1 <= j < MAX_SLOTS ==> #[trigger] slot_phase(d.slots[j]) is None,
    ensures
        mt_events(d, n) == slot_events(d, 0, true),
        any_phase_before(d.slots, n),
    decreases n,
{
    assert(!any_phase_before(d.slots, 0));
    if n == 1 {
        assert(mt_events(d, 0) =~= Seq::<TouchEvent>::empty());
        assert(mt_events(d, 1) =~= slot_events(d, 0, true));
    } else {
        lemma_only_first_slot(d, n - 1);
        assert(slot_events(d, n - 1, false) =~= Seq::<TouchEvent>::empty());
        assert(mt_events(d, n) =~= slot_events(d, 0, true));
    }
}

/// The life of one contact on a fresh device: tracking id 5, X 100, Y 200, a
/// report, tracking id -1, a report. The first report yields a `Start` at
/// the mapped position of (100, 200) with the pointer pressed there, the
/// second an `End` with the pointer released; nothing else is produced.
pub proof fn lemma_contact_lifecycle(id: u32, mapper: CoordMapper, recs: Seq<InputEvent>)
    requires
        recs.len() == 6,
        recs[0].event_type == EV_ABS && recs[0].code == ABS_MT_TRACKING_ID && recs[0].value == 5,
        recs[1].event_type == EV_ABS && recs[1].code == ABS_MT_POSITION_X && recs[1].value == 100,
        recs[2].event_type == EV_ABS && recs[2].code == ABS_MT_POSITION_Y && recs[2].value == 200,
        is_report(recs[3]),
        recs[4].event_type == EV_ABS && recs[4].code == ABS_MT_TRACKING_ID && recs[4].value == -1,
        is_report(recs[5]),
    ensures
        ({
            let pos = mapper.spec_to_surface(100, 200);
            let touch = |p: TouchPhase|
                TouchEvent::Touch {
                    device_id: id as u64,
                    finger_id: finger_id(id, 0),
                    phase: p,
                    pos,
                };
            run_output(fresh_device(id, mapper), recs) == seq![
                seq![touch(TouchPhase::Start)] + pointer_events(TouchPhase::Start, pos),
                seq![touch(TouchPhase::End)] + pointer_events(TouchPhase::End, pos),
            ]
        }),
{
    let d0 = fresh_device(id, mapper);
    let d1 = record_step(d0, recs[0]);
    let d2 = record_step(d1, recs[1]);
    let d3 = record_step(d2, recs[2]);
    let d4 = record_step(d3, recs[3]);
    let d5 = record_step(d4, recs[4]);
    let r1 = recs.drop_first();
    let r2 = r1.drop_first();
    let r3 = r2.drop_first();
    let r4 = r3.drop_first();
    let r5 = r4.drop_first();
    assert(r1[0] == recs[1] && r2[0] == recs[2] && r3[0] == recs[3]);
    assert(r4[0] == recs[4] && r5[0] == recs[5] && r5.drop_first().len() == 0);
    lemma_only_first_slot(d3, MAX_SLOTS as int);
    let d6 = record_step(d5, recs[5]);
    assert(d5.slots[0].prev_tracking_id == 5 && d5.slots[0].tracking_id == -1);
    assert forall|j: int| 1 <= j < MAX_SLOTS implies #[trigger] slot_phase(d5.slots[j]) is None by {
        assert(d5.slots[j] == slot_after_sync(d3.slots[j]));
    }
    lemma_only_first_slot(d5, MAX_SLOTS as int);
    assert(run_output(d5, r5) == seq![sync_output(d5)] + run_output(d6, r5.drop_first()));
    assert(run_output(d4, r4) == run_output(d5, r5));
    assert(run_output(d3, r3) == seq![sync_output(d3)] + run_output(d4, r4));
    assert(run_output(d2, r2) == run_output(d3, r3));
    assert(run_output(d1, r1) == run_output(d2, r2));
    assert(run_output(d0, recs) == run_output(d1, r1));
    assert(run_output(d0, recs) =~= seq![sync_output(d3), sync_output(d5)]);
}

} // verus!
