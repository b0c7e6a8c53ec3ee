//! The trigger dispatcher: interprets declarative trigger records.
//!
//! The one built-in kind is `move_to`, which installs a movement goal on the
//! first actor whose name matches the trigger's target. Unknown kinds,
//! unmatched names and missing coordinates all drop the trigger silently.

use vstd::prelude::*;

use crate::script::{DialogueTrigger, ParamV, TriggerParam, TriggerParamV, TriggerV};
use crate::world::{find_actor, EntityV, MovementGoal, SceneRegistry, Vec3i};

verus! {

/// Speed used when a `move_to` trigger names none, in milli-units per second.
pub const DEFAULT_MOVE_SPEED: i64 = 5000;

/// The value of the first parameter with this key, if any.
pub open spec fn lookup_param(params: Seq<TriggerParamV>, key: Seq<char>) -> Option<ParamV>
    decreases params.len(),
{
    if params.len() == 0 {
        None
    } else if params[0].key == key {
        Some(params[0].value)
    } else {
        lookup_param(params.drop_first(), key)
    }
}

/// The first parameter with this key, provided it is numeric.
pub open spec fn numeric_param(params: Seq<TriggerParamV>, key: Seq<char>) -> Option<i64> {
    match lookup_param(params, key) {
        Some(ParamV::Num(n)) => Some(n),
        _ => None,
    }
}

/// The speed a `move_to` trigger asks for: its `speed` parameter, or the
/// default when that is absent or not numeric.
pub open spec fn spec_move_speed(params: Seq<TriggerParamV>) -> i64 {
    match numeric_param(params, "speed"@) {
        Some(s) => s,
        None => DEFAULT_MOVE_SPEED,
    }
}

/// What a `move_to` trigger does: when the kind matches, the coordinates are
/// all present and numeric, and an actor carries the target name, a movement
/// goal lands on the first such actor; in every other case, nothing.
pub open spec fn spec_resolve_move_to(t: TriggerV, entities: Seq<EntityV>) -> Option<
    (int, MovementGoal),
> {
    if t.trigger_type != "move_to"@ {
        None
    } else {
        match (numeric_param(t.params, "x"@), numeric_param(t.params, "y"@), numeric_param(
            t.params,
            "z"@,
        )) {
            (Some(x), Some(y), Some(z)) => match find_actor(entities, t.target) {
                Some(i) => Some(
                    (
                        i,
                        MovementGoal {
                            target: Vec3i { x, y, z },
                            speed: spec_move_speed(t.params),
                        },
                    ),
                ),
                None => None,
            },
            _ => None,
        }
    }
}

/// The first numeric parameter under `key`, as `numeric_param` gives it.
pub fn get_numeric(params: &Vec<TriggerParam>, key: &String) -> (r: Option<i64>)
    ensures
        r == numeric_param(params@.map_values(|p: TriggerParam| p@), key@),
{
    let ghost pv = params@.map_values(|p: TriggerParam| p@);
    let mut i: usize = 0;
    proof {
        assert(pv.skip(0) =~= pv);
    }
    while i < params.len()
        invariant
            i <= params.len(),
            pv == params@.map_values(|p: TriggerParam| p@),
            lookup_param(pv, key@) == lookup_param(pv.skip(i as int), key@),
        decreases params.len() - i,
    {
        proof {
            assert(pv.skip(i as int)[0] == pv[i as int]);
            assert(pv.skip(i as int).drop_first() =~= pv.skip(i as int + 1));
        }
        if params[i].key == *key {
            return match params[i].value {
                crate::script::ParamValue::Num(n) => Some(n),
                _ => None,
            };
        }
        i = i + 1;
    }
    proof {
        assert(pv.skip(i as int) =~= Seq::<TriggerParamV>::empty());
    }
    None
}

impl SceneRegistry {
    /// The index of the first actor with this name, if one is known.
    pub fn actor_index(&self, name: &String) -> (r: Option<usize>)
        ensures
            match r {
                Some(i) => find_actor(self@, name@) == Some(i as int) && i < self@.len(),
                None => find_actor(self@, name@) is None,
            },
    {
        let mut i: usize = 0;
        proof {
            assert(self@.skip(0) =~= self@);
        }
        while i < self.entities.len()
            invariant
                i <= self.entities.len(),
                match find_actor(self@.skip(i as int), name@) {
                    Some(k) => find_actor(self@, name@) == Some(k + i),
                    None => find_actor(self@, name@) is None,
                },
            decreases self.entities.len() - i,
        {
            proof {
                assert(self@.skip(i as int)[0] == self@[i as int]);
                assert(self@.skip(i as int).drop_first() =~= self@.skip(i as int + 1));
            }
            if self.entities[i].is_actor && self.entities[i].name == *name {
                return Some(i);
            }
            i = i + 1;
        }
        proof {
            assert(self@.skip(i as int) =~= Seq::<EntityV>::empty());
        }
        None
    }
}

/// Dispatches one trigger against the registry: the movement goal a
/// `move_to` trigger installs, with the index of the actor it lands on.
pub fn resolve_move_to(trigger: &DialogueTrigger, reg: &SceneRegistry) -> (r: Option<
    (usize, MovementGoal),
>)
    ensures
        match r {
            Some((i, g)) => spec_resolve_move_to(trigger@, reg@) == Some((i as int, g)) && i
                < reg@.len(),
            None => spec_resolve_move_to(trigger@, reg@) is None,
        },
{
    if !(trigger.trigger_type == "move_to".to_string()) {
        return None;
    }
    let x = get_numeric(&trigger.params, &"x".to_string());
    let y = get_numeric(&trigger.params, &"y".to_string());
    let z = get_numeric(&trigger.params, &"z".to_string());
    match (x, y, z) {
        (Some(x), Some(y), Some(z)) => match reg.actor_index(&trigger.target) {
            Some(i) => {
                let speed = match get_numeric(&trigger.params, &"speed".to_string()) {
                    Some(s) => s,
                    None => DEFAULT_MOVE_SPEED,
                };
                Some((i, MovementGoal { target: Vec3i { x, y, z }, speed }))
            },
            None => None,
        },
        _ => None,
    }
}

} // verus!
