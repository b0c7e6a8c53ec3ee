//! The logical events the engine consumes, and their dispatch.
//!
//! Input adapters (keyboard, UI, the frame clock) reduce to this closed
//! event type; one dispatch per event keeps arrival order explicit.

use vstd::prelude::*;

use crate::engine::{
    no_effects, spec_advance, spec_make_choice, spec_start, spec_tick, spec_toggle_auto,
    AdvanceEffects, DialogueEngine, EffectsV, EngineV, engine_wf,
};
use crate::world::{spec_reset_positions, CameraPose, EntityV, SceneRegistry};

verus! {

/// A logical event, in the order the presentation adapter queued it.
pub enum DialogueEvent {
    /// Begin playing the named scene; `camera` is the framing to restore
    /// when the conversation ends.
    StartConversation { scene_id: String, camera: CameraPose },
    /// Move one logical step forward.
    Advance,
    /// Flip auto mode.
    ToggleAuto,
    /// Select the offered choice at `index`.
    MakeChoice { index: usize },
    /// Reposition every actor to its defined origin.
    ResetScene,
    /// This much wall-clock time passed since the previous tick.
    Tick { elapsed_ms: u64 },
}

#[verifier::ext_equal]
pub ghost enum EventV {
    StartConversation { scene_id: Seq<char>, camera: CameraPose },
    Advance,
    ToggleAuto,
    MakeChoice { index: usize },
    ResetScene,
    Tick { elapsed_ms: u64 },
}

impl View for DialogueEvent {
    type V = EventV;

    open spec fn view(&self) -> EventV {
        match self {
            DialogueEvent::StartConversation { scene_id, camera } => EventV::StartConversation {
                scene_id: scene_id@,
                camera: *camera,
            },
            DialogueEvent::Advance => EventV::Advance,
            DialogueEvent::ToggleAuto => EventV::ToggleAuto,
            DialogueEvent::MakeChoice { index } => EventV::MakeChoice { index: *index },
            DialogueEvent::ResetScene => EventV::ResetScene,
            DialogueEvent::Tick { elapsed_ms } => EventV::Tick { elapsed_ms: *elapsed_ms },
        }
    }
}

/// What one event does to the engine and the registry, and what effects it
/// emits. Only ResetScene touches the registry.
pub open spec fn spec_handle_event(e: EngineV, reg: Seq<EntityV>, ev: EventV) -> (
    EngineV,
    Seq<EntityV>,
    EffectsV,
) {
    match ev {
        EventV::StartConversation { scene_id, camera } => {
            let stepped = spec_start(e, reg, scene_id, camera);
            (stepped.0, reg, stepped.1)
        },
        EventV::Advance => {
            let stepped = spec_advance(e, reg);
            (stepped.0, reg, stepped.1)
        },
        EventV::ToggleAuto => (spec_toggle_auto(e), reg, no_effects()),
        EventV::MakeChoice { index } => {
            let stepped = spec_make_choice(e, reg, index);
            (stepped.0, reg, stepped.1)
        },
        EventV::ResetScene => (e, spec_reset_positions(reg), no_effects()),
        EventV::Tick { elapsed_ms } => {
            let stepped = spec_tick(e, reg, elapsed_ms);
            (stepped.0, reg, stepped.1)
        },
    }
}

impl DialogueEngine {
    /// Processes one logical event, as `spec_handle_event` says.
    pub fn handle_event(&mut self, reg: &mut SceneRegistry, event: DialogueEvent) -> (effects:
        AdvanceEffects)
        requires
            engine_wf(old(self)@),
            old(reg).wf(),
        ensures
            final(self)@ == spec_handle_event(old(self)@, old(reg)@, event@).0,
            final(reg)@ == spec_handle_event(old(self)@, old(reg)@, event@).1,
            effects@ == spec_handle_event(old(self)@, old(reg)@, event@).2,
            engine_wf(final(self)@),
            final(reg).wf(),
    {
        match event {
            DialogueEvent::StartConversation { scene_id, camera } => self.start_conversation(
                &*reg,
                scene_id,
                camera,
            ),
            DialogueEvent::Advance => self.advance(&*reg),
            DialogueEvent::ToggleAuto => {
                self.toggle_auto();
                let effects = AdvanceEffects { camera: None, triggers: Vec::new() };
                proof {
                    assert(effects@ =~= no_effects());
                }
                effects
            },
            DialogueEvent::MakeChoice { index } => self.make_choice(&*reg, index),
            DialogueEvent::ResetScene => {
                reg.reset_positions();
                let effects = AdvanceEffects { camera: None, triggers: Vec::new() };
                proof {
                    assert(effects@ =~= no_effects());
                }
                effects
            },
            DialogueEvent::Tick { elapsed_ms } => self.tick(&*reg, elapsed_ms),
        }
    }
}

} // verus!
