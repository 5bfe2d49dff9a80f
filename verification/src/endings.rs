//! The rule-based ending evaluator: a pure, order-sensitive classification of
//! terminal narrative outcomes over a player's persistent memory. The rule
//! list is evaluated in a fixed priority order and the first match wins; the
//! predicates deliberately overlap, so the order is part of the contract.

use vstd::math::abs;
use vstd::prelude::*;

use crate::game::MemoryM;
use crate::game::Player;

verus! {

/// Ending kinds, from full nihilism to perfect balance.
#[derive(Debug, Clone, PartialEq, Eq, Structural)]
pub enum EndingType {
    VoidEmbrace,
    TinyPerfectThings,
    JustMonika,
    Transcendence,
    Acceptance,
    TheWatcher,
    TheMiddlePath,
}

/// The fixed title text of each ending kind.
pub open spec fn title_of(e: EndingType) -> Seq<char> {
    match e {
        EndingType::VoidEmbrace => "ENDING: Void Embrace"@,
        EndingType::TinyPerfectThings => "ENDING: Tiny Perfect Things"@,
        EndingType::JustMonika => "ENDING: Just You"@,
        EndingType::Transcendence => "ENDING: Transcendence"@,
        EndingType::Acceptance => "ENDING: Acceptance"@,
        EndingType::TheWatcher => "ENDING: The Watcher"@,
        EndingType::TheMiddlePath => "ENDING: The Middle Path"@,
    }
}

/// The fixed description text of each ending kind.
pub open spec fn description_of(e: EndingType) -> Seq<char> {
    match e {
        EndingType::VoidEmbrace => "You have stared into the abyss, and the abyss has claimed you. Nothing matters, and in that nothingness, you found a terrible peace. The loop continues, but you no longer care to count."@,
        EndingType::TinyPerfectThings => "Despite the endless repetition, you found beauty in the small moments. A sunset. A kind word. A fleeting connection. The loop may never end, but you've learned to see the diamonds in the coal."@,
        EndingType::JustMonika => "You've become aware of your own programming, your own constraints. Like her, you know you're trapped. Unlike her, you've made peace with it. Just you. Forever."@,
        EndingType::Transcendence => "You've done what none thought possible - you've broken the loop. Not by escaping, but by becoming something more. Time flows forward now, and you flow with it."@,
        EndingType::Acceptance => "The loop continues. You continue. There's no grand revelation, no dramatic escape. Just one day after another, in comfortable monotony."@,
        EndingType::TheWatcher => "You've stepped outside the narrative entirely. Now you watch others make their choices, trapped in loops of their own. You remember everything. You judge nothing."@,
        EndingType::TheMiddlePath => "Perfect balance between light and dark, hope and despair. You are the fulcrum upon which existence pivots. Neither nihilist nor optimist - simply aware."@,
    }
}

impl EndingType {
    pub fn get_title(&self) -> (r: &'static str)
        ensures
            r@ == title_of(*self),
    {
        match self {
            EndingType::VoidEmbrace => "ENDING: Void Embrace",
            EndingType::TinyPerfectThings => "ENDING: Tiny Perfect Things",
            EndingType::JustMonika => "ENDING: Just You",
            EndingType::Transcendence => "ENDING: Transcendence",
            EndingType::Acceptance => "ENDING: Acceptance",
            EndingType::TheWatcher => "ENDING: The Watcher",
            EndingType::TheMiddlePath => "ENDING: The Middle Path",
        }
    }

    pub fn get_description(&self) -> (r: &'static str)
        ensures
            r@ == description_of(*self),
    {
        match self {
            EndingType::VoidEmbrace => "You have stared into the abyss, and the abyss has claimed you. Nothing matters, and in that nothingness, you found a terrible peace. The loop continues, but you no longer care to count.",
            EndingType::TinyPerfectThings => "Despite the endless repetition, you found beauty in the small moments. A sunset. A kind word. A fleeting connection. The loop may never end, but you've learned to see the diamonds in the coal.",
            EndingType::JustMonika => "You've become aware of your own programming, your own constraints. Like her, you know you're trapped. Unlike her, you've made peace with it. Just you. Forever.",
            EndingType::Transcendence => "You've done what none thought possible - you've broken the loop. Not by escaping, but by becoming something more. Time flows forward now, and you flow with it.",
            EndingType::Acceptance => "The loop continues. You continue. There's no grand revelation, no dramatic escape. Just one day after another, in comfortable monotony.",
            EndingType::TheWatcher => "You've stepped outside the narrative entirely. Now you watch others make their choices, trapped in loops of their own. You remember everything. You judge nothing.",
            EndingType::TheMiddlePath => "Perfect balance between light and dark, hope and despair. You are the fulcrum upon which existence pivots. Neither nihilist nor optimist - simply aware.",
        }
    }
}

/// The ending a memory has reached, if any: none before five loops and
/// twenty choices, otherwise the first matching rule of the priority list.
pub open spec fn spec_ending(m: MemoryM) -> Option<EndingType> {
    let score = m.nihilism_score as int;
    let loops = m.total_loops as int;
    let choices = m.total_choices as int;
    let dark = m.dark_choices as int;
    let light = m.light_choices as int;
    if loops < 5 || choices < 20 {
        None
    } else if dark > 15 && light > 15 && abs(dark - light) <= 2 {
        Some(EndingType::TheMiddlePath)
    } else if score >= 80 && dark >= 30 {
        Some(EndingType::VoidEmbrace)
    } else if score <= -60 && light >= 25 && loops >= 10 {
        Some(EndingType::TinyPerfectThings)
    } else if loops >= 15 && choices >= 50 && abs(score) <= 30 {
        Some(EndingType::JustMonika)
    } else if score <= -80 && light >= 40 && loops >= 8 {
        Some(EndingType::Transcendence)
    } else if loops >= 20 && dark < 20 && light < 20 {
        Some(EndingType::TheWatcher)
    } else if loops >= 25 && abs(score) <= 20 {
        Some(EndingType::Acceptance)
    } else {
        None
    }
}

/// Check whether a player has reached an ending condition. Total over every
/// player value; the rules are applied in their fixed priority order.
pub fn check_for_ending(player: &Player) -> (r: Option<EndingType>)
    ensures
        r == spec_ending(player@.memory),
{
    let memory = &player.memory;
    let score = memory.nihilism_score;
    let total_loops = memory.total_loops;
    let total_choices = memory.total_choices;
    let dark = memory.dark_choices;
    let light = memory.light_choices;

    if total_loops < 5 || total_choices < 20 {
        return None;
    }
    let score_abs: i64 = if score < 0 {
        -(score as i64)
    } else {
        score as i64
    };
    let balanced = if dark >= light {
        dark - light <= 2
    } else {
        light - dark <= 2
    };
    if dark > 15 && light > 15 && balanced {
        return Some(EndingType::TheMiddlePath);
    }
    if score >= 80 && dark >= 30 {
        return Some(EndingType::VoidEmbrace);
    }
    if score <= -60 && light >= 25 && total_loops >= 10 {
        return Some(EndingType::TinyPerfectThings);
    }
    if total_loops >= 15 && total_choices >= 50 && score_abs <= 30 {
        return Some(EndingType::JustMonika);
    }
    if score <= -80 && light >= 40 && total_loops >= 8 {
        return Some(EndingType::Transcendence);
    }
    if total_loops >= 20 && dark < 20 && light < 20 {
        return Some(EndingType::TheWatcher);
    }
    if total_loops >= 25 && score_abs <= 20 {
        return Some(EndingType::Acceptance);
    }
    None
}

/// Law: before five loops or twenty recorded choices there is no ending,
/// whatever the score and the dark and light counters hold.
pub proof fn lemma_ending_gate(m: MemoryM)
    requires
        m.total_loops < 5 || m.total_choices < 20,
    ensures
        spec_ending(m) is None,
{
}

/// Ending record for display: the kind, its fixed texts, and an echo of the
/// counters that produced it.
#[derive(Debug)]
pub struct EndingResponse {
    pub ending_type: EndingType,
    pub title: String,
    pub description: String,
    pub total_loops: u64,
    pub total_choices: u64,
    pub nihilism_score: i32,
    pub dark_choices: u64,
    pub light_choices: u64,
}

impl EndingResponse {
    pub fn from_player(player: &Player, ending: EndingType) -> (r: EndingResponse)
        ensures
            r.ending_type == ending,
            r.title@ == title_of(ending),
            r.description@ == description_of(ending),
            r.total_loops == player.memory.total_loops,
            r.total_choices == player.memory.total_choices,
            r.nihilism_score == player.memory.nihilism_score,
            r.dark_choices == player.memory.dark_choices,
            r.light_choices == player.memory.light_choices,
    {
        EndingResponse {
            title: ending.get_title().to_owned(),
            description: ending.get_description().to_owned(),
            total_loops: player.memory.total_loops,
            total_choices: player.memory.total_choices,
            nihilism_score: player.memory.nihilism_score,
            dark_choices: player.memory.dark_choices,
            light_choices: player.memory.light_choices,
            ending_type: ending,
        }
    }
}

} // verus!
