//! The conversation state machine and its progression engine.
//!
//! One `DialogueEngine` owns the conversation state, the displayed
//! projection, the transcript log and the auto-advance timer. Every logical
//! event is a synchronous transition; the spec functions here say exactly
//! what each transition does, and the executable methods are proved to match
//! them.

use vstd::prelude::*;

use crate::player_name;
use crate::player_name_spec;
use crate::script::{
    clone_choices, clone_triggers, lookup_scene, ChoiceV, DialogueChoice, DialogueData,
    DialogueLine, LineV, SceneV, TriggerV,
};
use crate::world::{
    camera_cue, find_target, spec_camera_cue, CameraDirective, CameraPose, EntityV, SceneRegistry,
};

verus! {

/// The presentation-facing projection: what is on screen right now.
pub struct DialogueState {
    pub active: bool,
    pub current_speaker: String,
    pub current_text: String,
}

#[verifier::ext_equal]
pub ghost struct DisplayV {
    pub active: bool,
    pub current_speaker: Seq<char>,
    pub current_text: Seq<char>,
}

impl View for DialogueState {
    type V = DisplayV;

    open spec fn view(&self) -> DisplayV {
        DisplayV {
            active: self.active,
            current_speaker: self.current_speaker@,
            current_text: self.current_text@,
        }
    }
}

/// One entry of the transcript: a rendered line, or a recorded choice with
/// its full option set and the selected index.
pub enum DialogueLogEntry {
    Line { speaker: String, text: String },
    Choices { options: Vec<DialogueChoice>, selected_index: usize },
}

#[verifier::ext_equal]
pub ghost enum LogEntryV {
    Line { speaker: Seq<char>, text: Seq<char> },
    Choices { options: Seq<ChoiceV>, selected_index: usize },
}

impl View for DialogueLogEntry {
    type V = LogEntryV;

    open spec fn view(&self) -> LogEntryV {
        match self {
            DialogueLogEntry::Line { speaker, text } => LogEntryV::Line {
                speaker: speaker@,
                text: text@,
            },
            DialogueLogEntry::Choices { options, selected_index } => LogEntryV::Choices {
                options: options@.map_values(|c: DialogueChoice| c@),
                selected_index: *selected_index,
            },
        }
    }
}

/// The append-only transcript.
pub struct DialogueLog {
    pub entries: Vec<DialogueLogEntry>,
}

impl View for DialogueLog {
    type V = Seq<LogEntryV>;

    open spec fn view(&self) -> Seq<LogEntryV> {
        self.entries@.map_values(|e: DialogueLogEntry| e@)
    }
}

/// The authoritative record of where playback is.
pub struct DialogueManager {
    /// Framing captured when the conversation started, restored at its end.
    pub original_camera_transform: Option<CameraPose>,
    pub current_scene: String,
    pub current_line: usize,
    pub dialogue_data: DialogueData,
    pub auto_mode: bool,
    pub waiting_for_choice: bool,
    /// The choice set on offer; empty unless `waiting_for_choice`.
    pub current_choices: Vec<DialogueChoice>,
    /// A synthesized line consumed by the next advance before the script
    /// resumes; at most one is queued.
    pub ephemeral_line: Option<DialogueLine>,
}

#[verifier::ext_equal]
pub ghost struct ManagerV {
    pub original_camera_transform: Option<CameraPose>,
    pub current_scene: Seq<char>,
    pub current_line: usize,
    pub dialogue_data: Seq<SceneV>,
    pub auto_mode: bool,
    pub waiting_for_choice: bool,
    pub current_choices: Seq<ChoiceV>,
    pub ephemeral_line: Option<LineV>,
}

impl View for DialogueManager {
    type V = ManagerV;

    open spec fn view(&self) -> ManagerV {
        ManagerV {
            original_camera_transform: self.original_camera_transform,
            current_scene: self.current_scene@,
            current_line: self.current_line,
            dialogue_data: self.dialogue_data@,
            auto_mode: self.auto_mode,
            waiting_for_choice: self.waiting_for_choice,
            current_choices: self.current_choices@.map_values(|c: DialogueChoice| c@),
            ephemeral_line: match self.ephemeral_line {
                Some(l) => Some(l@),
                None => None,
            },
        }
    }
}

/// The auto-advance countdown, in milliseconds; idle when `None`.
#[derive(Clone, Copy, PartialEq, Eq, Structural, Debug)]
pub struct DialogueTimer {
    pub remaining: Option<u64>,
}

/// What one transition asks collaborators to do: at most one camera
/// directive, and the triggers to dispatch, in order.
pub struct AdvanceEffects {
    pub camera: Option<CameraDirective>,
    pub triggers: Vec<crate::script::DialogueTrigger>,
}

#[verifier::ext_equal]
pub ghost struct EffectsV {
    pub camera: Option<CameraDirective>,
    pub triggers: Seq<TriggerV>,
}

impl View for AdvanceEffects {
    type V = EffectsV;

    open spec fn view(&self) -> EffectsV {
        EffectsV {
            camera: self.camera,
            triggers: self.triggers@.map_values(|t: crate::script::DialogueTrigger| t@),
        }
    }
}

/// The engine: conversation state, display projection, transcript and timer.
pub struct DialogueEngine {
    pub manager: DialogueManager,
    pub display: DialogueState,
    pub log: DialogueLog,
    pub timer: DialogueTimer,
}

#[verifier::ext_equal]
pub ghost struct EngineV {
    pub manager: ManagerV,
    pub display: DisplayV,
    pub log: Seq<LogEntryV>,
    pub timer: Option<u64>,
}

impl View for DialogueEngine {
    type V = EngineV;

    open spec fn view(&self) -> EngineV {
        EngineV {
            manager: self.manager@,
            display: self.display@,
            log: self.log@,
            timer: self.timer.remaining,
        }
    }
}

pub open spec fn no_effects() -> EffectsV {
    EffectsV { camera: None, triggers: Seq::empty() }
}

/// The lines of the scene the conversation currently points at.
pub open spec fn scene_lines_of(m: ManagerV) -> Option<Seq<LineV>> {
    lookup_scene(m.dialogue_data, m.current_scene)
}

/// Whether the current position names an existing line: a missing scene
/// counts as out of bounds.
pub open spec fn line_in_bounds(m: ManagerV) -> bool {
    match scene_lines_of(m) {
        Some(lines) => m.current_line < lines.len(),
        None => false,
    }
}

/// The line at the current position.
pub open spec fn current_line_of(m: ManagerV) -> LineV
    recommends
        line_in_bounds(m),
{
    scene_lines_of(m)->0[m.current_line as int]
}

/// The camera directive a line asks for: a reframe cue onto its target when
/// that target is known, nothing otherwise.
pub open spec fn spec_line_camera(line: LineV, reg: Seq<EntityV>) -> Option<CameraDirective> {
    match line.camera_target {
        Some(name) => match find_target(reg, name) {
            Some(p) => Some(CameraDirective::Cue(spec_camera_cue(p))),
            None => None,
        },
        None => None,
    }
}

/// The countdown after a line shows: re-armed with the line's duration when
/// auto mode is on and the line declares one, untouched otherwise.
pub open spec fn spec_armed_timer(t: Option<u64>, auto: bool, line: LineV) -> Option<u64> {
    if auto && line.auto_time is Some {
        line.auto_time
    } else {
        t
    }
}

pub open spec fn line_log_entry(line: LineV) -> LogEntryV {
    LogEntryV::Line { speaker: line.speaker, text: line.text }
}

/// The display once a line is projected onto it.
pub open spec fn spec_show_line(d: DisplayV, line: LineV) -> DisplayV {
    DisplayV { active: d.active, current_speaker: line.speaker, current_text: line.text }
}

pub open spec fn line_triggers(line: LineV) -> Seq<TriggerV> {
    match line.triggers {
        Some(ts) => ts,
        None => Seq::empty(),
    }
}

pub open spec fn choice_triggers(c: ChoiceV) -> Seq<TriggerV> {
    match c.triggers {
        Some(ts) => ts,
        None => Seq::empty(),
    }
}

/// What one Advance does, in priority order: nothing while waiting for a
/// choice; else consume a queued ephemeral line; else show the current
/// script line (pausing on its choices, or arming the timer and stepping
/// forward); else the scene is exhausted, so deactivate and restore the
/// captured camera framing.
pub open spec fn spec_advance(e: EngineV, reg: Seq<EntityV>) -> (EngineV, EffectsV) {
    if e.manager.waiting_for_choice {
        (e, no_effects())
    } else if e.manager.ephemeral_line is Some {
        let line = e.manager.ephemeral_line->0;
        (
            EngineV {
                manager: ManagerV { ephemeral_line: None, ..e.manager },
                display: spec_show_line(e.display, line),
                log: e.log.push(line_log_entry(line)),
                timer: spec_armed_timer(e.timer, e.manager.auto_mode, line),
            },
            EffectsV { camera: spec_line_camera(line, reg), triggers: Seq::empty() },
        )
    } else if line_in_bounds(e.manager) {
        let line = current_line_of(e.manager);
        if line.choices is Some {
            (
                EngineV {
                    manager: ManagerV {
                        waiting_for_choice: true,
                        current_choices: line.choices->0,
                        ..e.manager
                    },
                    display: spec_show_line(e.display, line),
                    log: e.log.push(line_log_entry(line)),
                    timer: e.timer,
                },
                EffectsV { camera: spec_line_camera(line, reg), triggers: line_triggers(line) },
            )
        } else {
            (
                EngineV {
                    manager: ManagerV {
                        current_line: (e.manager.current_line + 1) as usize,
                        ..e.manager
                    },
                    display: spec_show_line(e.display, line),
                    log: e.log.push(line_log_entry(line)),
                    timer: spec_armed_timer(e.timer, e.manager.auto_mode, line),
                },
                EffectsV { camera: spec_line_camera(line, reg), triggers: line_triggers(line) },
            )
        }
    } else {
        (
            EngineV {
                manager: e.manager,
                display: DisplayV {
                    active: false,
                    current_speaker: Seq::empty(),
                    current_text: Seq::empty(),
                },
                log: e.log,
                timer: e.timer,
            },
            EffectsV {
                camera: match e.manager.original_camera_transform {
                    Some(p) => Some(CameraDirective::Restore(p)),
                    None => None,
                },
                triggers: Seq::empty(),
            },
        )
    }
}

/// Every scene short enough that a line index fits in memory; true of any
/// script actually held in vectors.
pub open spec fn scenes_bounded(scenes: Seq<SceneV>) -> bool {
    forall|i: int| 0 <= i < scenes.len() ==> (#[trigger] scenes[i]).lines.len() <= usize::MAX
}

/// The engine's invariant: the script is realizable, and while a choice is
/// on offer the position it was offered at still names a script line (so the
/// default successor index cannot overflow) and no ephemeral line is queued
/// beside it.
pub open spec fn engine_wf(e: EngineV) -> bool {
    &&& scenes_bounded(e.manager.dialogue_data)
    &&& (e.manager.waiting_for_choice ==> line_in_bounds(e.manager)
        && e.manager.ephemeral_line is None)
}

/// In a bounded script, every scene a lookup can give is bounded too.
pub proof fn lemma_lookup_bounded(scenes: Seq<SceneV>, name: Seq<char>)
    requires
        scenes_bounded(scenes),
    ensures
        lookup_scene(scenes, name) matches Some(l) ==> l.len() <= usize::MAX,
    decreases scenes.len(),
{
    if scenes.len() > 0 {
        assert(scenes[0].lines.len() <= usize::MAX);
        assert forall|i: int|
            0 <= i < scenes.drop_first().len() implies (#[trigger] scenes.drop_first()[
        i]).lines.len() <= usize::MAX by {
            assert(scenes.drop_first()[i] == scenes[i + 1]);
        }
        lemma_lookup_bounded(scenes.drop_first(), name);
    }
}

proof fn lemma_find_target_wf(entities: Seq<EntityV>, name: Seq<char>)
    requires
        forall|i: int|
            0 <= i < entities.len() ==> (#[trigger] entities[i]).position.wf()
                && entities[i].home.wf(),
    ensures
        find_target(entities, name) matches Some(p) ==> p.wf(),
    decreases entities.len(),
{
    if entities.len() > 0 {
        assert(entities[0].position.wf());
        lemma_find_target_wf(entities.drop_first(), name);
    }
}

impl DialogueManager {
    /// A copy of the line at the current position, when there is one.
    fn current_script_line(&self) -> (r: Option<DialogueLine>)
        ensures
            match r {
                Some(line) => line_in_bounds(self@) && line@ == current_line_of(self@)
                    && self.current_line < usize::MAX,
                None => !line_in_bounds(self@),
            },
    {
        match self.dialogue_data.get_scene(&self.current_scene) {
            Some(lines) => {
                if self.current_line < lines.len() {
                    let l = lines[self.current_line].clone();
                    proof {
                        assert(lines@.map_values(|x: DialogueLine| x@)[self.current_line as int]
                            == lines@[self.current_line as int]@);
                    }
                    Some(l)
                } else {
                    None
                }
            },
            None => None,
        }
    }
}

impl DialogueEngine {
    /// Projects a line onto the display, records it in the transcript, and
    /// resolves the camera cue it asks for.
    fn show_line(&mut self, line: &DialogueLine, reg: &SceneRegistry) -> (cam: Option<
        CameraDirective,
    >)
        requires
            reg.wf(),
        ensures
            final(self)@.display == spec_show_line(old(self)@.display, line@),
            final(self)@.log == old(self)@.log.push(line_log_entry(line@)),
            final(self)@.manager == old(self)@.manager,
            final(self)@.timer == old(self)@.timer,
            cam == spec_line_camera(line@, reg@),
    {
        self.display.current_text = line.text.clone();
        self.display.current_speaker = line.speaker.clone();
        self.log.entries.push(
            DialogueLogEntry::Line { speaker: line.speaker.clone(), text: line.text.clone() },
        );
        let cam = match &line.camera_target {
            Some(name) => match reg.target_position(name) {
                Some(p) => {
                    proof {
                        lemma_find_target_wf(reg@, name@);
                    }
                    Some(CameraDirective::Cue(camera_cue(p)))
                },
                None => None,
            },
            None => None,
        };
        proof {
            assert(self@.log =~= old(self)@.log.push(line_log_entry(line@)));
        }
        cam
    }

    /// Re-arms the countdown when auto mode is on and the line declares a
    /// duration.
    fn arm_timer(&mut self, line: &DialogueLine)
        ensures
            final(self)@ == (EngineV {
                timer: spec_armed_timer(old(self)@.timer, old(self)@.manager.auto_mode, line@),
                ..old(self)@
            }),
    {
        if self.manager.auto_mode {
            if let Some(t) = line.auto_time {
                self.timer.remaining = Some(t);
            }
        }
        proof {
            assert(self@ =~= EngineV {
                timer: spec_armed_timer(old(self)@.timer, old(self)@.manager.auto_mode, line@),
                ..old(self)@
            });
        }
    }

    /// Moves the dialogue forward one logical step, as `spec_advance` says.
    pub fn advance(&mut self, reg: &SceneRegistry) -> (effects: AdvanceEffects)
        requires
            engine_wf(old(self)@),
            reg.wf(),
        ensures
            final(self)@ == spec_advance(old(self)@, reg@).0,
            effects@ == spec_advance(old(self)@, reg@).1,
            engine_wf(final(self)@),
    {
        if self.manager.waiting_for_choice {
            let effects = AdvanceEffects { camera: None, triggers: Vec::new() };
            proof {
                assert(effects@ =~= no_effects());
            }
            return effects;
        }
        let mut eph: Option<DialogueLine> = None;
        core::mem::swap(&mut self.manager.ephemeral_line, &mut eph);
        if let Some(line) = eph {
            let cam = self.show_line(&line, reg);
            self.arm_timer(&line);
            let effects = AdvanceEffects { camera: cam, triggers: Vec::new() };
            proof {
                assert(self@ =~= spec_advance(old(self)@, reg@).0);
                assert(effects@ =~= spec_advance(old(self)@, reg@).1);
            }
            return effects;
        }
        match self.manager.current_script_line() {
            Some(line) => {
                let cam = self.show_line(&line, reg);
                let triggers = match &line.triggers {
                    Some(ts) => clone_triggers(ts),
                    None => Vec::new(),
                };
                match &line.choices {
                    Some(cs) => {
                        self.manager.waiting_for_choice = true;
                        self.manager.current_choices = clone_choices(cs);
                    },
                    None => {
                        self.arm_timer(&line);
                        self.manager.current_line = self.manager.current_line + 1;
                    },
                }
                let effects = AdvanceEffects { camera: cam, triggers };
                proof {
                    assert(self@ =~= spec_advance(old(self)@, reg@).0);
                    assert(effects@ =~= spec_advance(old(self)@, reg@).1);
                }
                effects
            },
            None => {
                let cam = match self.manager.original_camera_transform {
                    Some(p) => Some(CameraDirective::Restore(p)),
                    None => None,
                };
                self.display.active = false;
                self.display.current_text = String::new();
                self.display.current_speaker = String::new();
                let effects = AdvanceEffects { camera: cam, triggers: Vec::new() };
                proof {
                    assert(self@ =~= spec_advance(old(self)@, reg@).0);
                    assert(effects@ =~= spec_advance(old(self)@, reg@).1);
                }
                effects
            },
        }
    }
}

/// The line spoken by the player when a choice is made: the choice's player
/// text (or else its prompt), with the player as speaker and camera target.
pub open spec fn spec_player_line(c: ChoiceV) -> LineV {
    LineV {
        speaker: player_name_spec(),
        text: match c.player_text {
            Some(t) => t,
            None => c.text,
        },
        auto_time: c.player_text_auto_time,
        camera_target: Some(player_name_spec()),
        choices: None,
        triggers: None,
    }
}

/// Where a made choice sends the conversation: its explicit scene first,
/// else its explicit line index, else the next line of the current scene;
/// the spoken player line is queued and the offer is withdrawn.
pub open spec fn spec_choice_successor(m: ManagerV, c: ChoiceV) -> ManagerV {
    let m1 = ManagerV {
        ephemeral_line: Some(spec_player_line(c)),
        waiting_for_choice: false,
        current_choices: Seq::empty(),
        ..m
    };
    match c.next_scene {
        Some(s) => ManagerV { current_scene: s, current_line: 0, ..m1 },
        None => match c.next_line {
            Some(l) => ManagerV { current_line: l, ..m1 },
            None => ManagerV { current_line: (m.current_line + 1) as usize, ..m1 },
        },
    }
}

/// What MakeChoice does: out of range or unexpected, nothing; else log the
/// option set and selection, emit the choice's triggers, queue the player
/// line, move to the successor, and advance (which consumes that line).
pub open spec fn spec_make_choice(e: EngineV, reg: Seq<EntityV>, index: usize) -> (
    EngineV,
    EffectsV,
) {
    if !e.manager.waiting_for_choice || index >= e.manager.current_choices.len() {
        (e, no_effects())
    } else {
        let c = e.manager.current_choices[index as int];
        let e1 = EngineV {
            manager: spec_choice_successor(e.manager, c),
            display: e.display,
            log: e.log.push(
                LogEntryV::Choices {
                    options: e.manager.current_choices,
                    selected_index: index,
                },
            ),
            timer: e.timer,
        };
        let stepped = spec_advance(e1, reg);
        (stepped.0, EffectsV { camera: stepped.1.camera, triggers: choice_triggers(c) + stepped.1.triggers })
    }
}

/// What StartConversation does: capture the camera framing, seed the scene
/// at line zero with no pending offer or ephemeral line, activate, advance.
pub open spec fn spec_start(e: EngineV, reg: Seq<EntityV>, scene: Seq<char>, camera: CameraPose) -> (
    EngineV,
    EffectsV,
) {
    let e1 = EngineV {
        manager: ManagerV {
            original_camera_transform: Some(camera),
            current_scene: scene,
            current_line: 0,
            waiting_for_choice: false,
            current_choices: Seq::empty(),
            ephemeral_line: None,
            ..e.manager
        },
        display: DisplayV { active: true, ..e.display },
        log: e.log,
        timer: e.timer,
    };
    spec_advance(e1, reg)
}

pub open spec fn spec_toggle_auto(e: EngineV) -> EngineV {
    EngineV { manager: ManagerV { auto_mode: !e.manager.auto_mode, ..e.manager }, ..e }
}

/// What one tick of elapsed time does: the countdown runs only while the
/// conversation is active, auto mode is on and no choice is pending; expiry
/// fires exactly one advance and leaves the timer idle unless that advance
/// re-armed it.
pub open spec fn spec_tick(e: EngineV, reg: Seq<EntityV>, elapsed_ms: u64) -> (EngineV, EffectsV) {
    if e.display.active && e.manager.auto_mode && !e.manager.waiting_for_choice && e.timer
        is Some {
        let r = e.timer->0;
        if elapsed_ms >= r {
            spec_advance(EngineV { timer: None, ..e }, reg)
        } else {
            (EngineV { timer: Some((r - elapsed_ms) as u64), ..e }, no_effects())
        }
    } else {
        (e, no_effects())
    }
}

impl DialogueEngine {
    /// A fresh engine: inactive, empty display, empty log, idle timer.
    pub fn new(data: DialogueData) -> (r: Self)
        ensures
            r@.manager == (ManagerV {
                original_camera_transform: None,
                current_scene: Seq::<char>::empty(),
                current_line: 0,
                dialogue_data: data@,
                auto_mode: false,
                waiting_for_choice: false,
                current_choices: Seq::<ChoiceV>::empty(),
                ephemeral_line: None,
            }),
            r@.display == (DisplayV {
                active: false,
                current_speaker: Seq::<char>::empty(),
                current_text: Seq::<char>::empty(),
            }),
            r@.log == Seq::<LogEntryV>::empty(),
            r@.timer is None,
            engine_wf(r@),
    {
        let r = DialogueEngine {
            manager: DialogueManager {
                original_camera_transform: None,
                current_scene: String::new(),
                current_line: 0,
                dialogue_data: data,
                auto_mode: false,
                waiting_for_choice: false,
                current_choices: Vec::new(),
                ephemeral_line: None,
            },
            display: DialogueState {
                active: false,
                current_speaker: String::new(),
                current_text: String::new(),
            },
            log: DialogueLog { entries: Vec::new() },
            timer: DialogueTimer { remaining: None },
        };
        proof {
            assert(r@.manager.current_choices =~= Seq::<ChoiceV>::empty());
            assert(r@.log =~= Seq::<LogEntryV>::empty());
            assert forall|i: int|
                0 <= i < r@.manager.dialogue_data.len() implies (#[trigger] r@
                .manager.dialogue_data[i]).lines.len() <= usize::MAX by {
                let s = r.manager.dialogue_data.scenes@[i];
                assert(r@.manager.dialogue_data[i] == s@);
                assert(s@.lines.len() == s.lines@.len());
                assert(s.lines.len() == s.lines@.len());
            }
        }
        r
    }

    /// Resolves a player's selection, as `spec_make_choice` says; a stale or
    /// out-of-range selection changes nothing.
    pub fn make_choice(&mut self, reg: &SceneRegistry, index: usize) -> (effects: AdvanceEffects)
        requires
            engine_wf(old(self)@),
            reg.wf(),
        ensures
            final(self)@ == spec_make_choice(old(self)@, reg@, index).0,
            effects@ == spec_make_choice(old(self)@, reg@, index).1,
            engine_wf(final(self)@),
    {
        if !self.manager.waiting_for_choice || index >= self.manager.current_choices.len() {
            let effects = AdvanceEffects { camera: None, triggers: Vec::new() };
            proof {
                assert(effects@ =~= no_effects());
            }
            return effects;
        }
        let options = clone_choices(&self.manager.current_choices);
        self.log.entries.push(DialogueLogEntry::Choices { options, selected_index: index });
        let choice = self.manager.current_choices[index].clone();
        let mut all_triggers = match &choice.triggers {
            Some(ts) => clone_triggers(ts),
            None => Vec::new(),
        };
        let player = player_name();
        let player_line = DialogueLine {
            speaker: player.clone(),
            text: match &choice.player_text {
                Some(t) => t.clone(),
                None => choice.text.clone(),
            },
            auto_time: choice.player_text_auto_time,
            camera_target: Some(player),
            choices: None,
            triggers: None,
        };
        self.manager.ephemeral_line = Some(player_line);
        match &choice.next_scene {
            Some(s) => {
                self.manager.current_scene = s.clone();
                self.manager.current_line = 0;
            },
            None => match choice.next_line {
                Some(l) => {
                    self.manager.current_line = l;
                },
                None => {
                    proof {
                        lemma_lookup_bounded(
                            old(self)@.manager.dialogue_data,
                            old(self)@.manager.current_scene,
                        );
                    }
                    self.manager.current_line = self.manager.current_line + 1;
                },
            },
        }
        self.manager.waiting_for_choice = false;
        self.manager.current_choices = Vec::new();
        let ghost c = old(self)@.manager.current_choices[index as int];
        let ghost e1 = EngineV {
            manager: spec_choice_successor(old(self)@.manager, c),
            display: old(self)@.display,
            log: old(self)@.log.push(
                LogEntryV::Choices {
                    options: old(self)@.manager.current_choices,
                    selected_index: index,
                },
            ),
            timer: old(self)@.timer,
        };
        proof {
            assert(self@.manager.current_choices =~= Seq::<ChoiceV>::empty());
            assert(self@.log =~= e1.log);
            assert(self@ =~= e1);
        }
        let mut stepped = self.advance(reg);
        all_triggers.append(&mut stepped.triggers);
        let effects = AdvanceEffects { camera: stepped.camera, triggers: all_triggers };
        proof {
            assert(effects@.triggers =~= spec_make_choice(old(self)@, reg@, index).1.triggers);
            assert(effects@ =~= spec_make_choice(old(self)@, reg@, index).1);
        }
        effects
    }

    /// Starts a conversation, as `spec_start` says: the given pose is the
    /// framing restored when the conversation later ends.
    pub fn start_conversation(
        &mut self,
        reg: &SceneRegistry,
        scene_id: String,
        camera: CameraPose,
    ) -> (effects: AdvanceEffects)
        requires
            engine_wf(old(self)@),
            reg.wf(),
        ensures
            final(self)@ == spec_start(old(self)@, reg@, scene_id@, camera).0,
            effects@ == spec_start(old(self)@, reg@, scene_id@, camera).1,
            engine_wf(final(self)@),
    {
        self.manager.original_camera_transform = Some(camera);
        self.manager.current_scene = scene_id;
        self.manager.current_line = 0;
        self.manager.waiting_for_choice = false;
        self.manager.current_choices = Vec::new();
        self.manager.ephemeral_line = None;
        self.display.active = true;
        proof {
            assert(self@.manager.current_choices =~= Seq::<ChoiceV>::empty());
            assert(self@ =~= EngineV {
                manager: ManagerV {
                    original_camera_transform: Some(camera),
                    current_scene: scene_id@,
                    current_line: 0,
                    waiting_for_choice: false,
                    current_choices: Seq::empty(),
                    ephemeral_line: None,
                    ..old(self)@.manager
                },
                display: DisplayV { active: true, ..old(self)@.display },
                log: old(self)@.log,
                timer: old(self)@.timer,
            });
        }
        self.advance(reg)
    }

    /// Flips auto mode; an in-progress pause for a choice is unaffected.
    pub fn toggle_auto(&mut self)
        requires
            engine_wf(old(self)@),
        ensures
            final(self)@ == spec_toggle_auto(old(self)@),
            engine_wf(final(self)@),
    {
        self.manager.auto_mode = !self.manager.auto_mode;
        proof {
            assert(self@ =~= spec_toggle_auto(old(self)@));
        }
    }

    /// Advances the countdown by the elapsed wall-clock time, as `spec_tick`
    /// says; expiry fires exactly one advance.
    pub fn tick(&mut self, reg: &SceneRegistry, elapsed_ms: u64) -> (effects: AdvanceEffects)
        requires
            engine_wf(old(self)@),
            reg.wf(),
        ensures
            final(self)@ == spec_tick(old(self)@, reg@, elapsed_ms).0,
            effects@ == spec_tick(old(self)@, reg@, elapsed_ms).1,
            engine_wf(final(self)@),
    {
        if self.display.active && self.manager.auto_mode && !self.manager.waiting_for_choice {
            if let Some(r) = self.timer.remaining {
                if elapsed_ms >= r {
                    self.timer.remaining = None;
                    return self.advance(reg);
                } else {
                    self.timer.remaining = Some(r - elapsed_ms);
                    let effects = AdvanceEffects { camera: None, triggers: Vec::new() };
                    proof {
                        assert(effects@ =~= no_effects());
                        assert(self@ =~= spec_tick(old(self)@, reg@, elapsed_ms).0);
                    }
                    return effects;
                }
            }
        }
        let effects = AdvanceEffects { camera: None, triggers: Vec::new() };
        proof {
            assert(effects@ =~= no_effects());
        }
        effects
    }
}

} // verus!
