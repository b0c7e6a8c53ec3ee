//! The script data model: scenes, lines, choices and triggers.
//!
//! A script maps scene names to ordered sequences of lines; it is immutable
//! during play. Durations are carried as whole milliseconds and world
//! quantities as fixed-point milli-units, so that every value the engine
//! reasons about is a plain integer.

use vstd::prelude::*;

verus! {

/// A scalar parameter value carried by a trigger. Numbers are fixed-point
/// milli-units (one unit = 1000).
pub enum ParamValue {
    Num(i64),
    Str(String),
    Bool(bool),
    Null,
}

#[verifier::ext_equal]
pub ghost enum ParamV {
    Num(i64),
    Str(Seq<char>),
    Bool(bool),
    Null,
}

impl View for ParamValue {
    type V = ParamV;

    open spec fn view(&self) -> ParamV {
        match self {
            ParamValue::Num(n) => ParamV::Num(*n),
            ParamValue::Str(s) => ParamV::Str(s@),
            ParamValue::Bool(b) => ParamV::Bool(*b),
            ParamValue::Null => ParamV::Null,
        }
    }
}

impl Clone for ParamValue {
    fn clone(&self) -> (r: Self)
        ensures
            r@ == self@,
    {
        match self {
            ParamValue::Num(n) => ParamValue::Num(*n),
            ParamValue::Str(s) => ParamValue::Str(s.clone()),
            ParamValue::Bool(b) => ParamValue::Bool(*b),
            ParamValue::Null => ParamValue::Null,
        }
    }
}

/// One key/value entry of a trigger's open parameter map.
pub struct TriggerParam {
    pub key: String,
    pub value: ParamValue,
}

#[verifier::ext_equal]
pub ghost struct TriggerParamV {
    pub key: Seq<char>,
    pub value: ParamV,
}

impl View for TriggerParam {
    type V = TriggerParamV;

    open spec fn view(&self) -> TriggerParamV {
        TriggerParamV { key: self.key@, value: self.value@ }
    }
}

impl Clone for TriggerParam {
    fn clone(&self) -> (r: Self)
        ensures
            r@ == self@,
    {
        TriggerParam { key: self.key.clone(), value: self.value.clone() }
    }
}

/// A declarative side-effect instruction embedded in a line or choice.
/// The kind tag is open-ended; unknown kinds are ignored by dispatch.
pub struct DialogueTrigger {
    pub trigger_type: String,
    pub target: String,
    pub params: Vec<TriggerParam>,
}

#[verifier::ext_equal]
pub ghost struct TriggerV {
    pub trigger_type: Seq<char>,
    pub target: Seq<char>,
    pub params: Seq<TriggerParamV>,
}

impl View for DialogueTrigger {
    type V = TriggerV;

    open spec fn view(&self) -> TriggerV {
        TriggerV {
            trigger_type: self.trigger_type@,
            target: self.target@,
            params: self.params@.map_values(|p: TriggerParam| p@),
        }
    }
}

impl Clone for DialogueTrigger {
    fn clone(&self) -> (r: Self)
        ensures
            r@ == self@,
    {
        let r = DialogueTrigger {
            trigger_type: self.trigger_type.clone(),
            target: self.target.clone(),
            params: clone_params(&self.params),
        };
        proof {
            assert(r@ =~= self@);
        }
        r
    }
}

fn clone_params(v: &Vec<TriggerParam>) -> (r: Vec<TriggerParam>)
    ensures
        r@.map_values(|p: TriggerParam| p@) == v@.map_values(|p: TriggerParam| p@),
{
    let mut r: Vec<TriggerParam> = Vec::new();
    let mut i: usize = 0;
    while i < v.len()
        invariant
            i <= v.len(),
            r@.len() == i,
            forall|j: int| 0 <= j < i ==> r@[j]@ == v@[j]@,
        decreases v.len() - i,
    {
        r.push(v[i].clone());
        i = i + 1;
    }
    proof {
        assert(r@.map_values(|p: TriggerParam| p@) =~= v@.map_values(|p: TriggerParam| p@));
    }
    r
}

pub fn clone_triggers(v: &Vec<DialogueTrigger>) -> (r: Vec<DialogueTrigger>)
    ensures
        r@.map_values(|t: DialogueTrigger| t@) == v@.map_values(|t: DialogueTrigger| t@),
{
    let mut r: Vec<DialogueTrigger> = Vec::new();
    let mut i: usize = 0;
    while i < v.len()
        invariant
            i <= v.len(),
            r@.len() == i,
            forall|j: int| 0 <= j < i ==> r@[j]@ == v@[j]@,
        decreases v.len() - i,
    {
        r.push(v[i].clone());
        i = i + 1;
    }
    proof {
        assert(r@.map_values(|t: DialogueTrigger| t@) =~= v@.map_values(|t: DialogueTrigger| t@));
    }
    r
}

/// A player-selectable branch attached to a line.
pub struct DialogueChoice {
    /// The prompt shown to the player.
    pub text: String,
    /// What the player speaks when chosen; the prompt text when absent.
    pub player_text: Option<String>,
    /// Auto-advance duration of the spoken player line, in milliseconds.
    pub player_text_auto_time: Option<u64>,
    /// Explicit successor scene; takes precedence over `next_line`.
    pub next_scene: Option<String>,
    /// Explicit successor line index in the current scene.
    pub next_line: Option<usize>,
    pub triggers: Option<Vec<DialogueTrigger>>,
}

#[verifier::ext_equal]
pub ghost struct ChoiceV {
    pub text: Seq<char>,
    pub player_text: Option<Seq<char>>,
    pub player_text_auto_time: Option<u64>,
    pub next_scene: Option<Seq<char>>,
    pub next_line: Option<usize>,
    pub triggers: Option<Seq<TriggerV>>,
}

impl View for DialogueChoice {
    type V = ChoiceV;

    open spec fn view(&self) -> ChoiceV {
        ChoiceV {
            text: self.text@,
            player_text: match self.player_text {
                Some(s) => Some(s@),
                None => None,
            },
            player_text_auto_time: self.player_text_auto_time,
            next_scene: match self.next_scene {
                Some(s) => Some(s@),
                None => None,
            },
            next_line: self.next_line,
            triggers: match self.triggers {
                Some(ts) => Some(ts@.map_values(|t: DialogueTrigger| t@)),
                None => None,
            },
        }
    }
}

impl Clone for DialogueChoice {
    fn clone(&self) -> (r: Self)
        ensures
            r@ == self@,
    {
        let r = DialogueChoice {
            text: self.text.clone(),
            player_text: match &self.player_text {
                Some(s) => Some(s.clone()),
                None => None,
            },
            player_text_auto_time: self.player_text_auto_time,
            next_scene: match &self.next_scene {
                Some(s) => Some(s.clone()),
                None => None,
            },
            next_line: self.next_line,
            triggers: match &self.triggers {
                Some(ts) => Some(clone_triggers(ts)),
                None => None,
            },
        };
        proof {
            assert(r@ =~= self@);
        }
        r
    }
}

pub fn clone_choices(v: &Vec<DialogueChoice>) -> (r: Vec<DialogueChoice>)
    ensures
        r@.map_values(|c: DialogueChoice| c@) == v@.map_values(|c: DialogueChoice| c@),
{
    let mut r: Vec<DialogueChoice> = Vec::new();
    let mut i: usize = 0;
    while i < v.len()
        invariant
            i <= v.len(),
            r@.len() == i,
            forall|j: int| 0 <= j < i ==> r@[j]@ == v@[j]@,
        decreases v.len() - i,
    {
        r.push(v[i].clone());
        i = i + 1;
    }
    proof {
        assert(r@.map_values(|c: DialogueChoice| c@) =~= v@.map_values(|c: DialogueChoice| c@));
    }
    r
}

/// One unit of dialogue: a speaker, a body text, and optional camera,
/// choice and trigger effects.
pub struct DialogueLine {
    pub speaker: String,
    pub text: String,
    /// Auto-advance duration in milliseconds; honored only when no choices
    /// are present and auto mode is on.
    pub auto_time: Option<u64>,
    /// Name of the entity the camera should frame while this line shows.
    pub camera_target: Option<String>,
    pub choices: Option<Vec<DialogueChoice>>,
    pub triggers: Option<Vec<DialogueTrigger>>,
}

#[verifier::ext_equal]
pub ghost struct LineV {
    pub speaker: Seq<char>,
    pub text: Seq<char>,
    pub auto_time: Option<u64>,
    pub camera_target: Option<Seq<char>>,
    pub choices: Option<Seq<ChoiceV>>,
    pub triggers: Option<Seq<TriggerV>>,
}

impl View for DialogueLine {
    type V = LineV;

    open spec fn view(&self) -> LineV {
        LineV {
            speaker: self.speaker@,
            text: self.text@,
            auto_time: self.auto_time,
            camera_target: match self.camera_target {
                Some(s) => Some(s@),
                None => None,
            },
            choices: match self.choices {
                Some(cs) => Some(cs@.map_values(|c: DialogueChoice| c@)),
                None => None,
            },
            triggers: match self.triggers {
                Some(ts) => Some(ts@.map_values(|t: DialogueTrigger| t@)),
                None => None,
            },
        }
    }
}

impl Clone for DialogueLine {
    fn clone(&self) -> (r: Self)
        ensures
            r@ == self@,
    {
        let r = DialogueLine {
            speaker: self.speaker.clone(),
            text: self.text.clone(),
            auto_time: self.auto_time,
            camera_target: match &self.camera_target {
                Some(s) => Some(s.clone()),
                None => None,
            },
            choices: match &self.choices {
                Some(cs) => Some(clone_choices(cs)),
                None => None,
            },
            triggers: match &self.triggers {
                Some(ts) => Some(clone_triggers(ts)),
                None => None,
            },
        };
        proof {
            assert(r@ =~= self@);
        }
        r
    }
}

/// A named ordered sequence of lines.
pub struct DialogueScene {
    pub name: String,
    pub lines: Vec<DialogueLine>,
}

#[verifier::ext_equal]
pub ghost struct SceneV {
    pub name: Seq<char>,
    pub lines: Seq<LineV>,
}

impl View for DialogueScene {
    type V = SceneV;

    open spec fn view(&self) -> SceneV {
        SceneV { name: self.name@, lines: self.lines@.map_values(|l: DialogueLine| l@) }
    }
}

/// The whole script: a mapping from scene name to its lines, kept as an
/// ordered list with unique names.
pub struct DialogueData {
    pub scenes: Vec<DialogueScene>,
}

impl View for DialogueData {
    type V = Seq<SceneV>;

    open spec fn view(&self) -> Seq<SceneV> {
        self.scenes@.map_values(|s: DialogueScene| s@)
    }
}

/// A choice is well formed when the duration of its spoken player line,
/// if declared, is positive.
pub open spec fn choice_wf(c: ChoiceV) -> bool {
    c.player_text_auto_time matches Some(t) ==> t > 0
}

/// The choices a line offers; none when it declares no choice set.
pub open spec fn line_choices(l: LineV) -> Seq<ChoiceV> {
    match l.choices {
        Some(cs) => cs,
        None => Seq::empty(),
    }
}

/// A line is well formed when its auto-advance duration, if declared, is
/// positive, and every choice it offers is well formed.
pub open spec fn line_wf(l: LineV) -> bool {
    &&& (l.auto_time matches Some(t) ==> t > 0)
    &&& (forall|i: int| 0 <= i < line_choices(l).len() ==> choice_wf(#[trigger] line_choices(l)[i]))
}

/// A script is well formed when every line of every scene is.
pub open spec fn data_wf(scenes: Seq<SceneV>) -> bool {
    forall|i: int, j: int|
        0 <= i < scenes.len() && 0 <= j < scenes[i].lines.len() ==> line_wf(
            #[trigger] scenes[i].lines[j],
        )
}

fn validate_choice(c: &DialogueChoice) -> (r: bool)
    ensures
        r == choice_wf(c@),
{
    match c.player_text_auto_time {
        Some(t) => t > 0,
        None => true,
    }
}

fn validate_line(l: &DialogueLine) -> (r: bool)
    ensures
        r == line_wf(l@),
{
    let time_ok = match l.auto_time {
        Some(t) => t > 0,
        None => true,
    };
    if !time_ok {
        return false;
    }
    match &l.choices {
        Some(cs) => {
            let ghost csv = cs@.map_values(|c: DialogueChoice| c@);
            let mut i: usize = 0;
            while i < cs.len()
                invariant
                    i <= cs.len(),
                    csv == cs@.map_values(|c: DialogueChoice| c@),
                    l@.choices == Some(csv),
                    l@.auto_time matches Some(t) ==> t > 0,
                    forall|j: int| 0 <= j < i ==> choice_wf(#[trigger] csv[j]),
                decreases cs.len() - i,
            {
                if !validate_choice(&cs[i]) {
                    proof {
                        assert(line_choices(l@) == csv);
                        assert(0 <= i < line_choices(l@).len());
                        assert(!choice_wf(line_choices(l@)[i as int]));
                        assert(!line_wf(l@));
                    }
                    return false;
                }
                i = i + 1;
            }
            true
        },
        None => true,
    }
}

impl DialogueData {
    /// The load-time check: whether every declared duration in the script is
    /// positive. A script that fails it is malformed and must be rejected
    /// before play.
    pub fn validate(&self) -> (r: bool)
        ensures
            r == data_wf(self@),
    {
        let mut i: usize = 0;
        while i < self.scenes.len()
            invariant
                i <= self.scenes.len(),
                forall|k: int, j: int|
                    0 <= k < i && 0 <= j < self@[k].lines.len() ==> line_wf(
                        #[trigger] self@[k].lines[j],
                    ),
            decreases self.scenes.len() - i,
        {
            let scene = &self.scenes[i];
            let ghost lv = scene.lines@.map_values(|l: DialogueLine| l@);
            let mut j: usize = 0;
            while j < scene.lines.len()
                invariant
                    j <= scene.lines.len(),
                    lv == scene.lines@.map_values(|l: DialogueLine| l@),
                    i < self.scenes.len(),
                    scene == &self.scenes[i as int],
                    forall|k: int| 0 <= k < j ==> line_wf(#[trigger] lv[k]),
                decreases scene.lines.len() - j,
            {
                if !validate_line(&scene.lines[j]) {
                    proof {
                        assert(self@[i as int].lines == lv);
                        assert(!line_wf(self@[i as int].lines[j as int]));
                    }
                    return false;
                }
                j = j + 1;
            }
            proof {
                assert(self@[i as int].lines == lv);
            }
            i = i + 1;
        }
        true
    }
}

/// The lines of the first scene with the given name, if any.
pub open spec fn lookup_scene(scenes: Seq<SceneV>, name: Seq<char>) -> Option<Seq<LineV>>
    decreases scenes.len(),
{
    if scenes.len() == 0 {
        None
    } else if scenes[0].name == name {
        Some(scenes[0].lines)
    } else {
        lookup_scene(scenes.drop_first(), name)
    }
}

impl DialogueData {
    pub fn new() -> (r: Self)
        ensures
            r@ == Seq::<SceneV>::empty(),
    {
        let r = DialogueData { scenes: Vec::new() };
        proof {
            assert(r@ =~= Seq::<SceneV>::empty());
        }
        r
    }

    /// Whether a scene with this name is present.
    pub fn has_scene(&self, name: &String) -> (r: bool)
        ensures
            r == (lookup_scene(self@, name@) is Some),
    {
        let mut i: usize = 0;
        proof {
            assert(self@.skip(0) =~= self@);
        }
        while i < self.scenes.len()
            invariant
                i <= self.scenes.len(),
                lookup_scene(self@, name@) == lookup_scene(self@.skip(i as int), name@),
            decreases self.scenes.len() - i,
        {
            proof {
                assert(self@.skip(i as int)[0] == self@[i as int]);
                assert(self@.skip(i as int).drop_first() =~= self@.skip(i as int + 1));
            }
            if self.scenes[i].name == *name {
                return true;
            }
            i = i + 1;
        }
        proof {
            assert(self@.skip(i as int) =~= Seq::<SceneV>::empty());
        }
        false
    }

    /// Appends a scene under `name` unless one of that name already exists;
    /// returns whether the scene was added. Name uniqueness mirrors the
    /// mapping the script represents.
    pub fn add_scene(&mut self, name: String, lines: Vec<DialogueLine>) -> (added: bool)
        ensures
            added == (lookup_scene(old(self)@, name@) is None),
            added ==> final(self)@ == old(self)@.push(
                SceneV { name: name@, lines: lines@.map_values(|l: DialogueLine| l@) },
            ),
            !added ==> final(self)@ == old(self)@,
    {
        if self.has_scene(&name) {
            return false;
        }
        let ghost old_view = self@;
        self.scenes.push(DialogueScene { name, lines });
        proof {
            assert(self@ =~= old_view.push(self.scenes@[old_view.len() as int]@));
        }
        true
    }

    /// The lines of the named scene, if present: the Script Store lookup.
    pub fn get_scene(&self, name: &String) -> (r: Option<&Vec<DialogueLine>>)
        ensures
            match r {
                Some(lines) => lookup_scene(self@, name@) == Some(
                    lines@.map_values(|l: DialogueLine| l@),
                ),
                None => lookup_scene(self@, name@) is None,
            },
    {
        let mut i: usize = 0;
        proof {
            assert(self@.skip(0) =~= self@);
        }
        while i < self.scenes.len()
            invariant
                i <= self.scenes.len(),
                lookup_scene(self@, name@) == lookup_scene(self@.skip(i as int), name@),
            decreases self.scenes.len() - i,
        {
            proof {
                assert(self@.skip(i as int)[0] == self@[i as int]);
                assert(self@.skip(i as int).drop_first() =~= self@.skip(i as int + 1));
            }
            if self.scenes[i].name == *name {
                return Some(&self.scenes[i].lines);
            }
            i = i + 1;
        }
        proof {
            assert(self@.skip(i as int) =~= Seq::<SceneV>::empty());
        }
        None
    }
}

} // verus!
