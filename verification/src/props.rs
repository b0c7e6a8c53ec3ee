//! Laws of the progression engine, proved against the spec transitions.

use vstd::prelude::*;

use crate::engine::{
    current_line_of, engine_wf, line_in_bounds, line_log_entry, line_triggers, no_effects,
    spec_advance, spec_armed_timer, spec_make_choice, spec_player_line, EngineV, LogEntryV,
};
use crate::events::{spec_handle_event, EventV};
use crate::world::{CameraDirective, EntityV};

verus! {

/// The engine after `n` consecutive Advance events.
pub open spec fn spec_advance_n(e: EngineV, reg: Seq<EntityV>, n: nat) -> EngineV
    decreases n,
{
    if n == 0 {
        e
    } else {
        spec_advance_n(spec_advance(e, reg).0, reg, (n - 1) as nat)
    }
}

/// While a choice is pending, one Advance is a no-op: it changes nothing and
/// emits nothing.
pub proof fn lemma_advance_while_waiting(e: EngineV, reg: Seq<EntityV>)
    requires
        e.manager.waiting_for_choice,
    ensures
        spec_advance(e, reg).0 == e,
        spec_advance(e, reg).1 == no_effects(),
{
}

/// No double advance: any sequence of Advance events while a choice is
/// pending leaves the state exactly as it was.
pub proof fn lemma_no_double_advance(e: EngineV, reg: Seq<EntityV>, n: nat)
    requires
        e.manager.waiting_for_choice,
    ensures
        spec_advance_n(e, reg, n) == e,
    decreases n,
{
    if n > 0 {
        lemma_advance_while_waiting(e, reg);
        lemma_no_double_advance(e, reg, (n - 1) as nat);
    }
}

/// Ephemeral precedence: when an ephemeral line is queued, the next Advance
/// consumes it — whatever auto mode is — and leaves the underlying script
/// position untouched; the line is displayed and logged.
pub proof fn lemma_ephemeral_precedence(e: EngineV, reg: Seq<EntityV>)
    requires
        !e.manager.waiting_for_choice,
        e.manager.ephemeral_line is Some,
    ensures
        spec_advance(e, reg).0.manager.ephemeral_line is None,
        spec_advance(e, reg).0.manager.current_scene == e.manager.current_scene,
        spec_advance(e, reg).0.manager.current_line == e.manager.current_line,
        spec_advance(e, reg).0.manager.waiting_for_choice == e.manager.waiting_for_choice,
        spec_advance(e, reg).0.manager.current_choices == e.manager.current_choices,
        spec_advance(e, reg).0.display.current_speaker == e.manager.ephemeral_line->0.speaker,
        spec_advance(e, reg).0.display.current_text == e.manager.ephemeral_line->0.text,
        spec_advance(e, reg).0.log == e.log.push(line_log_entry(e.manager.ephemeral_line->0)),
{
}

/// Choice bounds: a selection out of range — or made while no choice is
/// pending — changes nothing and appends nothing to the log.
pub proof fn lemma_choice_bounds(e: EngineV, reg: Seq<EntityV>, index: usize)
    requires
        index >= e.manager.current_choices.len() || !e.manager.waiting_for_choice,
    ensures
        spec_make_choice(e, reg, index).0 == e,
        spec_make_choice(e, reg, index).1 == no_effects(),
        spec_make_choice(e, reg, index).0.log == e.log,
{
}

/// Successor resolution: a made choice with an explicit next scene lands
/// there at line zero, whatever `next_line` it also carries.
pub proof fn lemma_successor_scene(e: EngineV, reg: Seq<EntityV>, index: usize)
    requires
        e.manager.waiting_for_choice,
        index < e.manager.current_choices.len(),
        e.manager.current_choices[index as int].next_scene is Some,
    ensures
        spec_make_choice(e, reg, index).0.manager.current_scene
            == e.manager.current_choices[index as int].next_scene->0,
        spec_make_choice(e, reg, index).0.manager.current_line == 0,
{
}

/// Exhaustion: advancing past the last line of the scene — or into a scene
/// the script does not hold — deactivates the conversation, clears the
/// display, and restores the framing captured when it started.
pub proof fn lemma_exhaustion(e: EngineV, reg: Seq<EntityV>)
    requires
        !e.manager.waiting_for_choice,
        e.manager.ephemeral_line is None,
        !line_in_bounds(e.manager),
    ensures
        !spec_advance(e, reg).0.display.active,
        spec_advance(e, reg).0.display.current_text == Seq::<char>::empty(),
        spec_advance(e, reg).0.display.current_speaker == Seq::<char>::empty(),
        spec_advance(e, reg).0.manager == e.manager,
        spec_advance(e, reg).0.log == e.log,
        spec_advance(e, reg).1.camera == (match e.manager.original_camera_transform {
            Some(p) => Some(CameraDirective::Restore(p)),
            None => None,
        }),
{
}

/// A script line that shows is rendered and logged as one entry, in step:
/// the display carries its speaker and text, the transcript grows by exactly
/// its entry, and its triggers go out in declared order.
pub proof fn lemma_line_rendered_and_logged(e: EngineV, reg: Seq<EntityV>)
    requires
        !e.manager.waiting_for_choice,
        e.manager.ephemeral_line is None,
        line_in_bounds(e.manager),
    ensures
        spec_advance(e, reg).0.log == e.log.push(line_log_entry(current_line_of(e.manager))),
        spec_advance(e, reg).0.display.current_speaker == current_line_of(e.manager).speaker,
        spec_advance(e, reg).0.display.current_text == current_line_of(e.manager).text,
        spec_advance(e, reg).1.triggers == line_triggers(current_line_of(e.manager)),
{
}

/// A valid selection is recorded as exactly two entries, in order: the full
/// option set with the selected index, then the spoken player line.
pub proof fn lemma_choice_logged(e: EngineV, reg: Seq<EntityV>, index: usize)
    requires
        e.manager.waiting_for_choice,
        index < e.manager.current_choices.len(),
    ensures
        spec_make_choice(e, reg, index).0.log == e.log.push(
            LogEntryV::Choices { options: e.manager.current_choices, selected_index: index },
        ).push(line_log_entry(spec_player_line(e.manager.current_choices[index as int]))),
{
}

/// Timer discipline: when a script line shows, the countdown is re-armed
/// only by a line without choices, in auto mode, that declares a duration;
/// a line that pauses for a choice leaves the countdown exactly as it was.
pub proof fn lemma_timer_arming(e: EngineV, reg: Seq<EntityV>)
    requires
        !e.manager.waiting_for_choice,
        e.manager.ephemeral_line is None,
        line_in_bounds(e.manager),
    ensures
        spec_advance(e, reg).0.timer == (if current_line_of(e.manager).choices is None {
            spec_armed_timer(e.timer, e.manager.auto_mode, current_line_of(e.manager))
        } else {
            e.timer
        }),
        current_line_of(e.manager).choices is Some ==> spec_advance(
            e,
            reg,
        ).0.manager.waiting_for_choice,
{
}

/// The engine and registry after a whole run of events, oldest first.
pub open spec fn spec_run(e: EngineV, reg: Seq<EntityV>, evs: Seq<EventV>) -> (
    EngineV,
    Seq<EntityV>,
)
    decreases evs.len(),
{
    if evs.len() == 0 {
        (e, reg)
    } else {
        let stepped = spec_handle_event(e, reg, evs[0]);
        spec_run(stepped.0, stepped.1, evs.drop_first())
    }
}

/// One event only ever appends to the log: the old transcript is a prefix of
/// the new one, so recorded order is never disturbed.
pub proof fn lemma_event_log_append_only(e: EngineV, reg: Seq<EntityV>, ev: EventV)
    ensures
        e.log.is_prefix_of(spec_handle_event(e, reg, ev).0.log),
{
    let log2 = spec_handle_event(e, reg, ev).0.log;
    assert(e.log.len() <= log2.len());
    assert(e.log =~= log2.subrange(0, e.log.len() as int));
}

/// Log append-only over any run: after any sequence of events, the earlier
/// transcript stands unchanged at the front of the later one.
pub proof fn lemma_log_append_only(e: EngineV, reg: Seq<EntityV>, evs: Seq<EventV>)
    ensures
        e.log.is_prefix_of(spec_run(e, reg, evs).0.log),
    decreases evs.len(),
{
    if evs.len() == 0 {
        assert(e.log =~= spec_run(e, reg, evs).0.log.subrange(0, e.log.len() as int));
    } else {
        let stepped = spec_handle_event(e, reg, evs[0]);
        lemma_event_log_append_only(e, reg, evs[0]);
        lemma_log_append_only(stepped.0, stepped.1, evs.drop_first());
        let final_log = spec_run(e, reg, evs).0.log;
        assert(stepped.0.log =~= final_log.subrange(0, stepped.0.log.len() as int));
        assert(e.log =~= final_log.subrange(0, e.log.len() as int));
    }
}

/// The invariant holds along any run that starts well formed: every event
/// handler preserves it.
pub proof fn lemma_wf_preserved(e: EngineV, reg: Seq<EntityV>, ev: EventV)
    requires
        engine_wf(e),
    ensures
        engine_wf(spec_handle_event(e, reg, ev).0),
{
}

} // verus!
