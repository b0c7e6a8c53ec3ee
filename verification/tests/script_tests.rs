use dialogue_engine::player_name;
use dialogue_engine::script::{DialogueChoice, DialogueData, DialogueLine};
use dialogue_engine::world::{SceneEntity, SceneRegistry, Vec3i};

fn line(speaker: &str, text: &str) -> DialogueLine {
    DialogueLine {
        speaker: speaker.to_string(),
        text: text.to_string(),
        auto_time: None,
        camera_target: None,
        choices: None,
        triggers: None,
    }
}

#[test]
fn scene_names_stay_unique() {
    let mut data = DialogueData::new();
    assert!(data.add_scene("intro".to_string(), vec![line("Peter", "Hi")]));
    assert!(!data.add_scene("intro".to_string(), vec![line("Glenn", "No")]));
    assert!(data.add_scene("end".to_string(), vec![]));
    assert_eq!(data.scenes.len(), 2);

    let intro = data.get_scene(&"intro".to_string()).unwrap();
    assert_eq!(intro.len(), 1);
    assert_eq!(intro[0].text, "Hi");
}

#[test]
fn missing_scene_lookup_gives_nothing() {
    let data = DialogueData::new();
    assert!(data.get_scene(&"intro".to_string()).is_none());
    assert!(!data.has_scene(&"intro".to_string()));
}

#[test]
fn validate_accepts_positive_durations() {
    let mut data = DialogueData::new();
    let mut l = line("Peter", "Hi");
    l.auto_time = Some(1);
    assert!(data.add_scene("intro".to_string(), vec![l, line("Peter", "Bye")]));
    assert!(data.validate());
}

#[test]
fn validate_rejects_zero_auto_time() {
    let mut data = DialogueData::new();
    let mut l = line("Peter", "Hi");
    l.auto_time = Some(0);
    assert!(data.add_scene("intro".to_string(), vec![l]));
    assert!(!data.validate());
}

#[test]
fn validate_rejects_zero_player_line_duration() {
    let mut data = DialogueData::new();
    let c = DialogueChoice {
        text: "Fine".to_string(),
        player_text: None,
        player_text_auto_time: Some(0),
        next_scene: None,
        next_line: None,
        triggers: None,
    };
    let mut l = line("Peter", "Hi");
    l.choices = Some(vec![c]);
    assert!(data.add_scene("intro".to_string(), vec![l]));
    assert!(!data.validate());
}

#[test]
fn player_identity_is_fixed() {
    assert_eq!(player_name(), "Joe Swanson");
}

#[test]
fn first_dialogue_target_with_name_wins() {
    let mut reg = SceneRegistry::new();
    reg.add_entity(SceneEntity {
        name: "Peter".to_string(),
        position: Vec3i { x: 1000, y: 0, z: 0 },
        home: Vec3i { x: 1000, y: 0, z: 0 },
        is_dialogue_target: false,
        is_actor: true,
    });
    reg.add_entity(SceneEntity {
        name: "Peter".to_string(),
        position: Vec3i { x: 2000, y: 0, z: 0 },
        home: Vec3i { x: 2000, y: 0, z: 0 },
        is_dialogue_target: true,
        is_actor: false,
    });
    // The first entity is no dialogue target, so the second one is framed.
    assert_eq!(
        reg.target_position(&"Peter".to_string()),
        Some(Vec3i { x: 2000, y: 0, z: 0 })
    );
    assert_eq!(reg.target_position(&"Glenn".to_string()), None);
}
