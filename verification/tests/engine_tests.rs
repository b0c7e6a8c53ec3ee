use dialogue_engine::engine::{DialogueEngine, DialogueLogEntry};
use dialogue_engine::script::{DialogueChoice, DialogueData, DialogueLine};
use dialogue_engine::world::{CameraDirective, CameraPose, SceneEntity, SceneRegistry, Vec3i};

fn line(speaker: &str, text: &str) -> DialogueLine {
    DialogueLine {
        speaker: speaker.to_string(),
        text: text.to_string(),
        auto_time: None,
        camera_target: None,
        choices: None,
        triggers: None,
    }
}

fn choice(text: &str) -> DialogueChoice {
    DialogueChoice {
        text: text.to_string(),
        player_text: None,
        player_text_auto_time: None,
        next_scene: None,
        next_line: None,
        triggers: None,
    }
}

fn pose(x: i64, y: i64, z: i64) -> CameraPose {
    CameraPose {
        position: Vec3i { x, y, z },
        look_at: Vec3i { x: 0, y: 0, z: 0 },
    }
}

/// The script of the end-to-end scenarios: "intro" opens on a line with two
/// choices, the first continuing at line 1, the second jumping to a scene
/// the script does not hold.
fn scenario_script() -> DialogueData {
    let mut data = DialogueData::new();
    let mut hello = choice("Hello");
    hello.next_line = Some(1);
    let mut bye = choice("Bye");
    bye.next_scene = Some("end".to_string());
    let mut first = line("Peter", "Hi");
    first.choices = Some(vec![hello, bye]);
    let second = line("Peter", "Nice.");
    assert!(data.add_scene("intro".to_string(), vec![first, second]));
    data
}

fn empty_registry() -> SceneRegistry {
    SceneRegistry::new()
}

#[test]
fn scenario_first_choice_resumes_next_line() {
    let reg = empty_registry();
    let mut engine = DialogueEngine::new(scenario_script());
    engine.start_conversation(&reg, "intro".to_string(), pose(0, 2000, 8000));

    assert!(engine.display.active);
    assert_eq!(engine.display.current_speaker, "Peter");
    assert_eq!(engine.display.current_text, "Hi");
    assert!(engine.manager.waiting_for_choice);
    assert_eq!(engine.manager.current_choices.len(), 2);

    engine.make_choice(&reg, 0);
    // The synthesized player line shows first.
    assert_eq!(engine.display.current_speaker, "Joe Swanson");
    assert_eq!(engine.display.current_text, "Hello");
    assert!(!engine.manager.waiting_for_choice);

    engine.advance(&reg);
    assert_eq!(engine.display.current_speaker, "Peter");
    assert_eq!(engine.display.current_text, "Nice.");
    assert!(!engine.manager.waiting_for_choice);
    assert!(engine.display.active);
}

#[test]
fn scenario_missing_scene_deactivates() {
    let reg = empty_registry();
    let mut engine = DialogueEngine::new(scenario_script());
    let original = pose(0, 2000, 8000);
    engine.start_conversation(&reg, "intro".to_string(), original);

    engine.make_choice(&reg, 1);
    // The player line shows; the conversation now points at scene "end".
    assert_eq!(engine.display.current_text, "Bye");
    assert_eq!(engine.manager.current_scene, "end");
    assert!(engine.display.active);

    let effects = engine.advance(&reg);
    assert!(!engine.display.active);
    assert_eq!(engine.display.current_text, "");
    assert_eq!(engine.display.current_speaker, "");
    assert_eq!(effects.camera, Some(CameraDirective::Restore(original)));
}

#[test]
fn scenario_auto_advance_fires_exactly_once() {
    let reg = empty_registry();
    let mut data = DialogueData::new();
    let mut timed = line("Peter", "Hold on.");
    timed.auto_time = Some(2000);
    let after = line("Peter", "Done.");
    assert!(data.add_scene("intro".to_string(), vec![timed, after]));
    let mut engine = DialogueEngine::new(data);
    engine.toggle_auto();
    assert!(engine.manager.auto_mode);
    engine.start_conversation(&reg, "intro".to_string(), pose(0, 0, 0));
    assert_eq!(engine.display.current_text, "Hold on.");
    assert_eq!(engine.timer.remaining, Some(2000));

    engine.tick(&reg, 1500);
    assert_eq!(engine.display.current_text, "Hold on.");
    assert_eq!(engine.timer.remaining, Some(500));

    engine.tick(&reg, 600);
    // One automatic advance: the next line shows, and it declares no
    // duration, so the timer is idle again.
    assert_eq!(engine.display.current_text, "Done.");
    assert_eq!(engine.timer.remaining, None);

    let before = engine.log.entries.len();
    engine.tick(&reg, 5000);
    assert_eq!(engine.display.current_text, "Done.");
    assert_eq!(engine.log.entries.len(), before);
}

#[test]
fn advance_while_waiting_is_a_no_op() {
    let reg = empty_registry();
    let mut engine = DialogueEngine::new(scenario_script());
    engine.start_conversation(&reg, "intro".to_string(), pose(0, 0, 0));
    assert!(engine.manager.waiting_for_choice);
    let log_len = engine.log.entries.len();

    for _ in 0..3 {
        let effects = engine.advance(&reg);
        assert!(engine.manager.waiting_for_choice);
        assert_eq!(engine.display.current_text, "Hi");
        assert_eq!(engine.manager.current_choices.len(), 2);
        assert_eq!(engine.log.entries.len(), log_len);
        assert!(effects.camera.is_none());
        assert!(effects.triggers.is_empty());
    }
}

#[test]
fn ephemeral_line_consumed_before_script() {
    let reg = empty_registry();
    let mut engine = DialogueEngine::new(scenario_script());
    engine.start_conversation(&reg, "intro".to_string(), pose(0, 0, 0));
    engine.make_choice(&reg, 0);
    // make_choice already consumed the ephemeral line; queue another by hand
    // to watch one advance consume it without touching the script position.
    engine.manager.ephemeral_line = Some(line("Joe Swanson", "Hm."));
    let scene_before = engine.manager.current_scene.clone();
    let line_before = engine.manager.current_line;

    engine.advance(&reg);
    assert_eq!(engine.display.current_speaker, "Joe Swanson");
    assert_eq!(engine.display.current_text, "Hm.");
    assert!(engine.manager.ephemeral_line.is_none());
    assert_eq!(engine.manager.current_scene, scene_before);
    assert_eq!(engine.manager.current_line, line_before);
}

#[test]
fn out_of_range_choice_changes_nothing() {
    let reg = empty_registry();
    let mut engine = DialogueEngine::new(scenario_script());
    engine.start_conversation(&reg, "intro".to_string(), pose(0, 0, 0));
    let log_len = engine.log.entries.len();

    let effects = engine.make_choice(&reg, 2);
    assert!(engine.manager.waiting_for_choice);
    assert_eq!(engine.manager.current_choices.len(), 2);
    assert_eq!(engine.display.current_text, "Hi");
    assert_eq!(engine.log.entries.len(), log_len);
    assert!(effects.camera.is_none());
    assert!(effects.triggers.is_empty());
}

#[test]
fn choice_made_while_not_waiting_changes_nothing() {
    let reg = empty_registry();
    let mut engine = DialogueEngine::new(scenario_script());
    let effects = engine.make_choice(&reg, 0);
    assert!(!engine.display.active);
    assert!(engine.log.entries.is_empty());
    assert!(effects.camera.is_none());
    assert!(effects.triggers.is_empty());
}

#[test]
fn explicit_next_scene_wins_over_next_line() {
    let reg = empty_registry();
    let mut data = DialogueData::new();
    let mut both = choice("Go");
    both.next_scene = Some("other".to_string());
    both.next_line = Some(7);
    let mut first = line("Peter", "Pick.");
    first.choices = Some(vec![both]);
    assert!(data.add_scene("intro".to_string(), vec![first]));
    assert!(data.add_scene("other".to_string(), vec![line("Glenn", "Here.")]));
    let mut engine = DialogueEngine::new(data);
    engine.start_conversation(&reg, "intro".to_string(), pose(0, 0, 0));

    engine.make_choice(&reg, 0);
    assert_eq!(engine.manager.current_scene, "other");
    assert_eq!(engine.manager.current_line, 0);

    engine.advance(&reg);
    assert_eq!(engine.display.current_speaker, "Glenn");
    assert_eq!(engine.display.current_text, "Here.");
}

#[test]
fn choice_without_successor_continues_after_current_line() {
    let reg = empty_registry();
    let mut data = DialogueData::new();
    let mut first = line("Peter", "Pick.");
    first.choices = Some(vec![choice("Fine")]);
    let second = line("Peter", "Moving on.");
    assert!(data.add_scene("intro".to_string(), vec![first, second]));
    let mut engine = DialogueEngine::new(data);
    engine.start_conversation(&reg, "intro".to_string(), pose(0, 0, 0));

    engine.make_choice(&reg, 0);
    assert_eq!(engine.manager.current_line, 1);
    engine.advance(&reg);
    assert_eq!(engine.display.current_text, "Moving on.");
}

#[test]
fn exhaustion_restores_captured_framing() {
    let reg = empty_registry();
    let mut data = DialogueData::new();
    assert!(data.add_scene("intro".to_string(), vec![line("Peter", "Only line.")]));
    let mut engine = DialogueEngine::new(data);
    let original = pose(1000, 2000, 3000);
    engine.start_conversation(&reg, "intro".to_string(), original);
    assert!(engine.display.active);

    let effects = engine.advance(&reg);
    assert!(!engine.display.active);
    assert_eq!(engine.display.current_text, "");
    assert_eq!(engine.display.current_speaker, "");
    assert_eq!(effects.camera, Some(CameraDirective::Restore(original)));
}

#[test]
fn log_records_lines_and_choices_in_order() {
    let reg = empty_registry();
    let mut engine = DialogueEngine::new(scenario_script());
    engine.start_conversation(&reg, "intro".to_string(), pose(0, 0, 0));
    engine.make_choice(&reg, 0);
    engine.advance(&reg);

    assert_eq!(engine.log.entries.len(), 4);
    match &engine.log.entries[0] {
        DialogueLogEntry::Line { speaker, text } => {
            assert_eq!(speaker, "Peter");
            assert_eq!(text, "Hi");
        }
        _ => panic!("expected a line entry"),
    }
    match &engine.log.entries[1] {
        DialogueLogEntry::Choices { options, selected_index } => {
            assert_eq!(options.len(), 2);
            assert_eq!(options[0].text, "Hello");
            assert_eq!(options[1].text, "Bye");
            assert_eq!(*selected_index, 0);
        }
        _ => panic!("expected a choices entry"),
    }
    match &engine.log.entries[2] {
        DialogueLogEntry::Line { speaker, text } => {
            assert_eq!(speaker, "Joe Swanson");
            assert_eq!(text, "Hello");
        }
        _ => panic!("expected a line entry"),
    }
    match &engine.log.entries[3] {
        DialogueLogEntry::Line { speaker, text } => {
            assert_eq!(speaker, "Peter");
            assert_eq!(text, "Nice.");
        }
        _ => panic!("expected a line entry"),
    }
}

#[test]
fn player_text_overrides_prompt_in_spoken_line() {
    let reg = empty_registry();
    let mut data = DialogueData::new();
    let mut c = choice("Greet him");
    c.player_text = Some("Hello there!".to_string());
    let mut first = line("Peter", "Well?");
    first.choices = Some(vec![c]);
    assert!(data.add_scene("intro".to_string(), vec![first]));
    let mut engine = DialogueEngine::new(data);
    engine.start_conversation(&reg, "intro".to_string(), pose(0, 0, 0));

    engine.make_choice(&reg, 0);
    assert_eq!(engine.display.current_speaker, "Joe Swanson");
    assert_eq!(engine.display.current_text, "Hello there!");
}

#[test]
fn camera_cue_frames_named_target() {
    let mut reg = SceneRegistry::new();
    reg.add_entity(SceneEntity {
        name: "Peter".to_string(),
        position: Vec3i { x: -3000, y: 0, z: 0 },
        home: Vec3i { x: -3000, y: 0, z: 0 },
        is_dialogue_target: true,
        is_actor: false,
    });
    let mut data = DialogueData::new();
    let mut l = line("Peter", "Look at me.");
    l.camera_target = Some("Peter".to_string());
    assert!(data.add_scene("intro".to_string(), vec![l]));
    let mut engine = DialogueEngine::new(data);

    let effects = engine.start_conversation(&reg, "intro".to_string(), pose(0, 0, 0));
    match effects.camera {
        Some(CameraDirective::Cue(p)) => {
            assert_eq!(p.position, Vec3i { x: -3000, y: 2000, z: 5000 });
            assert_eq!(p.look_at, Vec3i { x: -3000, y: 1000, z: 0 });
        }
        _ => panic!("expected a reframe cue"),
    }
}

#[test]
fn unknown_camera_target_is_skipped() {
    let reg = empty_registry();
    let mut data = DialogueData::new();
    let mut l = line("Peter", "Look at me.");
    l.camera_target = Some("Peter".to_string());
    assert!(data.add_scene("intro".to_string(), vec![l]));
    let mut engine = DialogueEngine::new(data);

    let effects = engine.start_conversation(&reg, "intro".to_string(), pose(0, 0, 0));
    assert!(effects.camera.is_none());
    assert_eq!(engine.display.current_text, "Look at me.");
}

#[test]
fn empty_scene_exhausts_at_once() {
    let reg = empty_registry();
    let mut data = DialogueData::new();
    assert!(data.add_scene("intro".to_string(), vec![]));
    let mut engine = DialogueEngine::new(data);
    let original = pose(0, 2000, 8000);
    let effects = engine.start_conversation(&reg, "intro".to_string(), original);
    assert!(!engine.display.active);
    assert_eq!(effects.camera, Some(CameraDirective::Restore(original)));
    assert!(engine.log.entries.is_empty());
}

#[test]
fn auto_off_gates_an_armed_countdown() {
    let reg = empty_registry();
    let mut data = DialogueData::new();
    let mut timed = line("Peter", "Hold on.");
    timed.auto_time = Some(1000);
    assert!(data.add_scene("intro".to_string(), vec![timed, line("Peter", "Done.")]));
    let mut engine = DialogueEngine::new(data);
    engine.toggle_auto();
    engine.start_conversation(&reg, "intro".to_string(), pose(0, 0, 0));
    assert_eq!(engine.timer.remaining, Some(1000));

    // Toggling auto off keeps the countdown value but honors no expiry.
    engine.toggle_auto();
    engine.tick(&reg, 5000);
    assert_eq!(engine.display.current_text, "Hold on.");
    assert_eq!(engine.timer.remaining, Some(1000));

    engine.toggle_auto();
    engine.tick(&reg, 1000);
    assert_eq!(engine.display.current_text, "Done.");
}

#[test]
fn spoken_player_line_arms_timer_in_auto_mode() {
    let reg = empty_registry();
    let mut data = DialogueData::new();
    let mut c = choice("Sure");
    c.player_text_auto_time = Some(1500);
    let mut first = line("Peter", "Deal?");
    first.choices = Some(vec![c]);
    assert!(data.add_scene("intro".to_string(), vec![first, line("Peter", "Good.")]));
    let mut engine = DialogueEngine::new(data);
    engine.toggle_auto();
    engine.start_conversation(&reg, "intro".to_string(), pose(0, 0, 0));

    engine.make_choice(&reg, 0);
    assert_eq!(engine.display.current_text, "Sure");
    assert_eq!(engine.timer.remaining, Some(1500));
    engine.tick(&reg, 1500);
    assert_eq!(engine.display.current_text, "Good.");
}

#[test]
fn spoken_player_line_frames_the_player() {
    let mut reg = SceneRegistry::new();
    reg.add_entity(SceneEntity {
        name: "Joe Swanson".to_string(),
        position: Vec3i { x: 3000, y: 0, z: 0 },
        home: Vec3i { x: 3000, y: 0, z: 0 },
        is_dialogue_target: true,
        is_actor: true,
    });
    let mut engine = DialogueEngine::new(scenario_script());
    engine.start_conversation(&reg, "intro".to_string(), pose(0, 0, 0));

    let effects = engine.make_choice(&reg, 0);
    match effects.camera {
        Some(CameraDirective::Cue(p)) => {
            assert_eq!(p.position, Vec3i { x: 3000, y: 2000, z: 5000 });
            assert_eq!(p.look_at, Vec3i { x: 3000, y: 1000, z: 0 });
        }
        _ => panic!("expected the player line to cue the camera"),
    }
}

#[test]
fn toggle_auto_keeps_pending_choice() {
    let reg = empty_registry();
    let mut engine = DialogueEngine::new(scenario_script());
    engine.start_conversation(&reg, "intro".to_string(), pose(0, 0, 0));
    assert!(engine.manager.waiting_for_choice);
    engine.toggle_auto();
    assert!(engine.manager.auto_mode);
    assert!(engine.manager.waiting_for_choice);
    engine.toggle_auto();
    assert!(!engine.manager.auto_mode);
}
