//! Per-record classification and the drain-cycle orchestration: what one
//! raw record means for the sink, and what one drained batch emits.

use vstd::prelude::*;

use crate::gamepad::ButtonState;
use crate::gamepad::EventRecord;
use crate::gamepad::GamepadButton;
use crate::gamepad::GamepadFd;
use crate::gamepad::LeftStickAction;
use crate::gamepad::StickAxisState;
use crate::gamepad::EV_KEY;
use crate::gamepad::EV_SYN;
use crate::gamepad::ABS_X;
use crate::gamepad::ABS_Y;
use crate::gamepad::axis_record;
use crate::gamepad::button_record;
use crate::gamepad::map_button;
use crate::gamepad::map_stick;
use crate::gamepad::next_level;
use crate::gamepad::spec_map_button;
use crate::gamepad::spec_map_stick;
use crate::gamepad::sync_record;

verus! {

/// What one key code and press-state mean to the core: a button action,
/// a stick directive, or nothing. Every code yields exactly one of the
/// three.
#[derive(Debug, Clone, Copy, PartialEq, Eq, Structural)]
pub enum Classification {
    Button(GamepadButton, ButtonState),
    Stick(LeftStickAction),
    Unmapped,
}

/// The combined mapping table. The button table is consulted first and
/// takes priority; the stick table is consulted only where the button
/// table has no entry; all remaining codes are Unmapped. The priority is
/// a contract of the mapper, not an accident of arm order.
pub open spec fn spec_classify(key: i32, state: ButtonState) -> Classification {
    match spec_map_button(key) {
        Some(button) => Classification::Button(button, state),
        None => match spec_map_stick(key, state) {
            Some(action) => Classification::Stick(action),
            None => Classification::Unmapped,
        },
    }
}

/// Classify one key code and press-state.
pub fn classify(key: i32, state: ButtonState) -> (r: Classification)
    ensures
        r == spec_classify(key, state),
{
    match map_button(key) {
        Some(button) => Classification::Button(button, state),
        None => match map_stick(key, state) {
            Some(action) => Classification::Stick(action),
            None => Classification::Unmapped,
        },
    }
}

/// The mapper is total and unambiguous: each of the three outcomes comes
/// on exactly the stated condition, so every code and state yield one
/// classification and never more.
pub proof fn lemma_classify_total(key: i32, state: ButtonState)
    ensures
        spec_map_button(key) matches Some(b) ==> spec_classify(key, state)
            == Classification::Button(b, state),
        spec_map_button(key) is None ==> (spec_map_stick(key, state) matches Some(a)
            ==> spec_classify(key, state) == Classification::Stick(a)),
        spec_map_button(key) is None && spec_map_stick(key, state) is None
            ==> spec_classify(key, state) == Classification::Unmapped,
{
}

/// Button aliasing: two key codes with the same button-table entry
/// classify identically in every press-state.
pub proof fn lemma_button_aliasing(key_a: i32, key_b: i32, state: ButtonState)
    requires
        spec_map_button(key_a) is Some,
        spec_map_button(key_a) == spec_map_button(key_b),
    ensures
        spec_classify(key_a, state) == spec_classify(key_b, state),
{
}

/// What one raw record does to the sink, as a function of the two axis
/// levels: the levels afterwards and the record to write, if any. A
/// record that is not a key record, an unmapped code, and a repeat of a
/// directional key all pass silently.
pub open spec fn step(
    lx: StickAxisState,
    ly: StickAxisState,
    event: EventRecord,
) -> (StickAxisState, StickAxisState, Option<EventRecord>) {
    if event.kind != EV_KEY {
        (lx, ly, None)
    } else {
        let state = ButtonState::spec_from(event.value);
        match spec_classify(event.code as i32, state) {
            Classification::Button(button, st) => (lx, ly, Some(button_record(button, st))),
            Classification::Stick(LeftStickAction::X(s)) => {
                let nx = next_level(lx, s);
                (nx, ly, Some(axis_record(ABS_X, nx)))
            },
            Classification::Stick(LeftStickAction::Y(s)) => {
                let ny = next_level(ly, s);
                (lx, ny, Some(axis_record(ABS_Y, ny)))
            },
            Classification::Unmapped => (lx, ly, None),
        }
    }
}

/// Apply one raw record to the sink and return the record to write, or
/// None where the record is ignored. A key record's value must be a
/// press-state; anything else is a protocol violation the caller must
/// treat as fatal before calling.
pub fn handle_press(event: &EventRecord, gamepad: &mut GamepadFd) -> (r: Option<EventRecord>)
    requires
        event.kind == EV_KEY ==> 0 <= event.value <= 2,
    ensures
        final(gamepad).spec_fd() == old(gamepad).spec_fd(),
        (final(gamepad).x_level(), final(gamepad).y_level(), r)
            == step(old(gamepad).x_level(), old(gamepad).y_level(), *event),
{
    if event.kind != EV_KEY {
        return None;
    }
    let state = ButtonState::from_value(event.value);
    match classify(event.code as i32, state) {
        Classification::Button(button, st) => Some(gamepad.button_action(button, st)),
        Classification::Stick(action) => Some(gamepad.stick_action(action)),
        Classification::Unmapped => None,
    }
}

/// What a whole batch of raw records does to the sink: the axis levels
/// after all of them, and the records written for them, in order and
/// without a synchronization marker.
pub open spec fn run_records(
    lx: StickAxisState,
    ly: StickAxisState,
    events: Seq<EventRecord>,
) -> (StickAxisState, StickAxisState, Seq<EventRecord>)
    decreases events.len(),
{
    if events.len() == 0 {
        (lx, ly, Seq::empty())
    } else {
        let prev = run_records(lx, ly, events.drop_last());
        let s = step(prev.0, prev.1, events.last());
        match s.2 {
            Some(rec) => (s.0, s.1, prev.2.push(rec)),
            None => (s.0, s.1, prev.2),
        }
    }
}

/// Process one drain cycle: apply every buffered record to the sink, in
/// order, then append exactly one synchronization marker. The returned
/// records are what the embedding program writes to the device, in this
/// order.
pub fn event_loop(events: &Vec<EventRecord>, gamepad: &mut GamepadFd) -> (out: Vec<EventRecord>)
    requires
        forall|i: int|
            0 <= i < events@.len() ==> (events@[i].kind == EV_KEY ==> 0 <= events@[i].value <= 2),
    ensures
        final(gamepad).spec_fd() == old(gamepad).spec_fd(),
        ({
            let r = run_records(old(gamepad).x_level(), old(gamepad).y_level(), events@);
            &&& final(gamepad).x_level() == r.0
            &&& final(gamepad).y_level() == r.1
            &&& out@ == r.2.push(sync_record())
        }),
{
    let ghost lx0 = gamepad.x_level();
    let ghost ly0 = gamepad.y_level();
    let mut out: Vec<EventRecord> = Vec::new();
    let mut i: usize = 0;
    while i < events.len()
        invariant
            0 <= i <= events@.len(),
            gamepad.spec_fd() == old(gamepad).spec_fd(),
            forall|j: int|
                0 <= j < events@.len() ==> (events@[j].kind == EV_KEY ==> 0 <= events@[j].value
                    <= 2),
            (gamepad.x_level(), gamepad.y_level(), out@) == run_records(
                lx0,
                ly0,
                events@.take(i as int),
            ),
            lx0 == old(gamepad).x_level(),
            ly0 == old(gamepad).y_level(),
        decreases events@.len() - i,
    {
        let event = events[i];
        let rec = handle_press(&event, gamepad);
        proof {
            assert(events@.take(i + 1 as int).drop_last() =~= events@.take(i as int));
            assert(events@.take(i + 1 as int).last() == events@[i as int]);
        }
        if let Some(rec) = rec {
            out.push(rec);
        }
        i = i + 1;
    }
    proof {
        assert(events@.take(events@.len() as int) =~= events@);
    }
    out.push(gamepad.sync());
    out
}

/// Every record a batch emits before its marker announces a button or an
/// axis change, never synchronization.
pub proof fn lemma_run_records_no_sync(
    lx: StickAxisState,
    ly: StickAxisState,
    events: Seq<EventRecord>,
)
    ensures
        forall|i: int|
            0 <= i < run_records(lx, ly, events).2.len() ==> #[trigger] run_records(
                lx,
                ly,
                events,
            ).2[i].kind != EV_SYN,
    decreases events.len(),
{
    if events.len() > 0 {
        lemma_run_records_no_sync(lx, ly, events.drop_last());
        let prev = run_records(lx, ly, events.drop_last());
        assert(step(prev.0, prev.1, events.last()).2 matches Some(rec) ==> rec.kind != EV_SYN);
    }
}

/// Drain-then-sync ordering: the records of one drain cycle over a batch
/// carry exactly one synchronization marker, it stands last, after every
/// record the batch produced, and nowhere else.
pub proof fn lemma_drain_then_sync(
    lx: StickAxisState,
    ly: StickAxisState,
    events: Seq<EventRecord>,
)
    ensures
        ({
            let out = run_records(lx, ly, events).2.push(sync_record());
            &&& out.len() > 0
            &&& out.last() == sync_record()
            &&& forall|i: int| 0 <= i < out.len() - 1 ==> #[trigger] out[i].kind != EV_SYN
        }),
{
    lemma_run_records_no_sync(lx, ly, events);
}

} // verus!
