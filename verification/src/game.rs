//! The player-state model: one player owns an active loop, a persistent
//! memory that survives resets, and the narrative history of the current
//! loop. Choice scoring, loop resets and the context renderer live here.

use vstd::pervasive::VecAdditionalExecFns;
use vstd::prelude::*;
use vstd::string::StringExecFns;

use crate::text::append_dec_i32;
use crate::text::append_dec_u64;
use crate::text::clone_strings;
use crate::text::dec_seq;
use crate::text::seq_has_string;
use crate::text::signed_dec_seq;
use crate::text::vec_contains_string;

verus! {

/// A single choice the player can make.
#[derive(Debug)]
pub struct Choice {
    pub id: String,
    pub text: String,
    pub consequence_hint: Option<String>,
}

/// A narrative moment in the game, produced by the external generator and
/// stored verbatim. The identifier and timestamp are plain values; the
/// caller obtains them from its identifier and clock sources.
#[derive(Debug)]
pub struct NarrativeMoment {
    pub id: u128,
    pub text: String,
    pub speaker: Option<String>,
    pub mood: String,
    pub choices: Vec<Choice>,
    pub timestamp: i64,
}

/// A single loop iteration. Timestamps are milliseconds since the epoch.
#[derive(Debug)]
pub struct Loop {
    pub number: u64,
    pub started_at: i64,
    pub ended_at: Option<i64>,
    pub choices_made: Vec<String>,
    pub outcome: Option<String>,
}

/// Memory that persists across loops.
#[derive(Debug)]
pub struct PersistentMemory {
    pub total_loops: u64,
    pub total_choices: u64,
    pub dark_choices: u64,
    pub light_choices: u64,
    pub key_memories: Vec<String>,
    pub character_deaths: Vec<(String, u64)>,
    pub truths_discovered: Vec<String>,
    pub nihilism_score: i32,
}

/// A player session.
#[derive(Debug)]
pub struct Player {
    pub id: u128,
    pub name: Option<String>,
    pub current_loop: Loop,
    pub memory: PersistentMemory,
    pub narrative_history: Vec<NarrativeMoment>,
    pub created_at: i64,
}

/// Mathematical model of a `Choice`.
#[verifier::ext_equal]
pub ghost struct ChoiceM {
    pub id: Seq<char>,
    pub text: Seq<char>,
    pub consequence_hint: Option<Seq<char>>,
}

/// Mathematical model of a `NarrativeMoment`.
#[verifier::ext_equal]
pub ghost struct MomentM {
    pub id: u128,
    pub text: Seq<char>,
    pub speaker: Option<Seq<char>>,
    pub mood: Seq<char>,
    pub choices: Seq<ChoiceM>,
    pub timestamp: i64,
}

/// Mathematical model of a `Loop`.
#[verifier::ext_equal]
pub ghost struct LoopM {
    pub number: u64,
    pub started_at: i64,
    pub ended_at: Option<i64>,
    pub choices_made: Seq<Seq<char>>,
    pub outcome: Option<Seq<char>>,
}

/// Mathematical model of a `PersistentMemory`.
#[verifier::ext_equal]
pub ghost struct MemoryM {
    pub total_loops: u64,
    pub total_choices: u64,
    pub dark_choices: u64,
    pub light_choices: u64,
    pub key_memories: Seq<Seq<char>>,
    pub character_deaths: Seq<(Seq<char>, u64)>,
    pub truths_discovered: Seq<Seq<char>>,
    pub nihilism_score: i32,
}

/// Mathematical model of a `Player`.
#[verifier::ext_equal]
pub ghost struct PlayerM {
    pub id: u128,
    pub name: Option<Seq<char>>,
    pub current_loop: LoopM,
    pub memory: MemoryM,
    pub narrative_history: Seq<MomentM>,
    pub created_at: i64,
}

pub open spec fn opt_str_view(o: Option<String>) -> Option<Seq<char>> {
    match o {
        Some(s) => Some(s@),
        None => None,
    }
}

pub open spec fn strings_view(v: Seq<String>) -> Seq<Seq<char>> {
    Seq::new(v.len(), |i: int| v[i]@)
}

pub open spec fn choices_view(v: Seq<Choice>) -> Seq<ChoiceM> {
    Seq::new(v.len(), |i: int| v[i]@)
}

pub open spec fn moments_view(v: Seq<NarrativeMoment>) -> Seq<MomentM> {
    Seq::new(v.len(), |i: int| v[i]@)
}

pub open spec fn deaths_view(v: Seq<(String, u64)>) -> Seq<(Seq<char>, u64)> {
    Seq::new(v.len(), |i: int| (v[i].0@, v[i].1))
}

impl View for Choice {
    type V = ChoiceM;

    open spec fn view(&self) -> ChoiceM {
        ChoiceM {
            id: self.id@,
            text: self.text@,
            consequence_hint: opt_str_view(self.consequence_hint),
        }
    }
}

impl View for NarrativeMoment {
    type V = MomentM;

    open spec fn view(&self) -> MomentM {
        MomentM {
            id: self.id,
            text: self.text@,
            speaker: opt_str_view(self.speaker),
            mood: self.mood@,
            choices: choices_view(self.choices@),
            timestamp: self.timestamp,
        }
    }
}

impl View for Loop {
    type V = LoopM;

    open spec fn view(&self) -> LoopM {
        LoopM {
            number: self.number,
            started_at: self.started_at,
            ended_at: self.ended_at,
            choices_made: strings_view(self.choices_made@),
            outcome: opt_str_view(self.outcome),
        }
    }
}

impl View for PersistentMemory {
    type V = MemoryM;

    open spec fn view(&self) -> MemoryM {
        MemoryM {
            total_loops: self.total_loops,
            total_choices: self.total_choices,
            dark_choices: self.dark_choices,
            light_choices: self.light_choices,
            key_memories: strings_view(self.key_memories@),
            character_deaths: deaths_view(self.character_deaths@),
            truths_discovered: strings_view(self.truths_discovered@),
            nihilism_score: self.nihilism_score,
        }
    }
}

impl View for Player {
    type V = PlayerM;

    open spec fn view(&self) -> PlayerM {
        PlayerM {
            id: self.id,
            name: opt_str_view(self.name),
            current_loop: self.current_loop@,
            memory: self.memory@,
            narrative_history: moments_view(self.narrative_history@),
            created_at: self.created_at,
        }
    }
}

impl MemoryM {
    /// Well-formedness of a persistent memory: every recorded choice is
    /// counted exactly once as dark or light, the nihilism score is bounded,
    /// and the retained memories are few and pairwise distinct.
    pub open spec fn inv(self) -> bool {
        &&& self.dark_choices + self.light_choices == self.total_choices
        &&& -100 <= self.nihilism_score <= 100
        &&& self.key_memories.len() <= 20
        &&& forall|i: int, j: int|
            0 <= i < j < self.key_memories.len() ==> self.key_memories[i] != self.key_memories[j]
    }
}

/// The persistent memory of a player who has made no choice yet.
pub open spec fn empty_memory() -> MemoryM {
    MemoryM {
        total_loops: 0,
        total_choices: 0,
        dark_choices: 0,
        light_choices: 0,
        key_memories: Seq::empty(),
        character_deaths: Seq::empty(),
        truths_discovered: Seq::empty(),
        nihilism_score: 0,
    }
}

/// A loop that has just started: no choices, no end, no outcome.
pub open spec fn fresh_loop(number: u64, started_at: i64) -> LoopM {
    LoopM { number, started_at, ended_at: None, choices_made: Seq::empty(), outcome: None }
}

/// A player as `Player::new` creates it, given the identifier and creation
/// time that were drawn.
pub open spec fn fresh_player(id: u128, created_at: i64) -> PlayerM {
    PlayerM {
        id,
        name: None,
        current_loop: fresh_loop(1, created_at),
        memory: empty_memory(),
        narrative_history: Seq::empty(),
        created_at,
    }
}

/// The nihilism score after one classified choice: +5 for a dark choice,
/// clamped at +100; -3 for a light one, clamped at -100.
pub open spec fn score_after(score: int, is_dark: bool) -> int {
    if is_dark {
        if score + 5 > 100 {
            100
        } else {
            score + 5
        }
    } else {
        if score - 3 < -100 {
            -100
        } else {
            score - 3
        }
    }
}

/// The persistent memory after one classified choice is folded in.
pub open spec fn memory_after_choice(m: MemoryM, is_dark: bool) -> MemoryM {
    MemoryM {
        total_choices: (m.total_choices + 1) as u64,
        dark_choices: if is_dark {
            (m.dark_choices + 1) as u64
        } else {
            m.dark_choices
        },
        light_choices: if is_dark {
            m.light_choices
        } else {
            (m.light_choices + 1) as u64
        },
        nihilism_score: score_after(m.nihilism_score as int, is_dark) as i32,
        ..m
    }
}

/// The whole player after one classified choice: the identifier is appended
/// to the active loop's choice list and the memory is updated.
pub open spec fn player_after_choice(p: PlayerM, choice_id: Seq<char>, is_dark: bool) -> PlayerM {
    PlayerM {
        current_loop: (LoopM {
            choices_made: p.current_loop.choices_made.push(choice_id),
            ..p.current_loop
        }),
        memory: memory_after_choice(p.memory, is_dark),
        ..p
    }
}

/// The retained memories after a reset: the last moment's text of the loop
/// that ended is kept, provided there was one, it is not already retained,
/// and fewer than 20 memories are held.
pub open spec fn memories_after_reset(key_memories: Seq<Seq<char>>, history: Seq<MomentM>) -> Seq<
    Seq<char>,
> {
    if history.len() > 0 && !seq_has_string(key_memories, history.last().text)
        && key_memories.len() < 20 {
        key_memories.push(history.last().text)
    } else {
        key_memories
    }
}

/// The whole player after a loop reset that started the new loop at time
/// `started_at`: the loop counter advances, at most one memory is retained,
/// a fresh loop replaces the active one, and the per-loop history is cleared.
pub open spec fn player_after_reset(p: PlayerM, started_at: i64) -> PlayerM {
    let memory = MemoryM {
        total_loops: (p.memory.total_loops + 1) as u64,
        key_memories: memories_after_reset(p.memory.key_memories, p.narrative_history),
        ..p.memory
    };
    PlayerM {
        memory,
        current_loop: fresh_loop((memory.total_loops + 1) as u64, started_at),
        narrative_history: Seq::empty(),
        ..p
    }
}

/// The whole player after a generated moment is appended verbatim.
pub open spec fn player_after_moment(p: PlayerM, moment: MomentM) -> PlayerM {
    PlayerM { narrative_history: p.narrative_history.push(moment), ..p }
}

/// The moment used when generated output cannot be parsed: the raw content
/// as text, no speaker, neutral mood, and two standing choices.
pub open spec fn fallback_moment(id: u128, text: Seq<char>, timestamp: i64) -> MomentM {
    MomentM {
        id,
        text,
        speaker: None,
        mood: "neutral"@,
        choices: seq![
            ChoiceM { id: "continue"@, text: "Continue..."@, consequence_hint: None },
            ChoiceM {
                id: "reset"@,
                text: "Let the loop reset..."@,
                consequence_hint: Some("End this iteration"@),
            },
        ],
        timestamp,
    }
}

/// The categorical label shown beside the nihilism score.
pub open spec fn score_label(score: int) -> Seq<char> {
    if score > 30 {
        "Descending into darkness"@
    } else if score < -30 {
        "Finding meaning"@
    } else {
        "Balanced on the edge"@
    }
}

/// A bulleted block: one `- item` line per item, in order.
pub open spec fn lines_block(items: Seq<Seq<char>>) -> Seq<char>
    decreases items.len(),
{
    if items.len() == 0 {
        Seq::empty()
    } else {
        lines_block(items.drop_last()) + "- "@ + items.last() + "\n"@
    }
}

/// The rendered narrative context of a player: a loop header, a score line
/// with its label, then - only when non-empty - the first five retained
/// memories and all choices of the current loop.
pub open spec fn spec_context(p: PlayerM) -> Seq<char> {
    let header = "Loop #"@ + dec_seq(p.current_loop.number as nat) + "\n"@;
    let score_line = "Nihilism Score: "@ + signed_dec_seq(p.memory.nihilism_score as int) + " ("@
        + score_label(p.memory.nihilism_score as int) + ")\n"@;
    let mems = p.memory.key_memories;
    let shown = if mems.len() <= 5 {
        mems
    } else {
        mems.take(5)
    };
    let mem_block = if mems.len() == 0 {
        Seq::<char>::empty()
    } else {
        "\nMemories that persist:\n"@ + lines_block(shown)
    };
    let chs = p.current_loop.choices_made;
    let choice_block = if chs.len() == 0 {
        Seq::<char>::empty()
    } else {
        "\nChoices this loop:\n"@ + lines_block(chs)
    };
    header + score_line + mem_block + choice_block
}

/// Law: the rendered context of a player with no retained memories and no
/// choices this loop is exactly the loop header and the score line, with no
/// memory or choice sections.
pub proof fn lemma_context_bare(p: PlayerM)
    requires
        p.memory.key_memories.len() == 0,
        p.current_loop.choices_made.len() == 0,
    ensures
        spec_context(p) == "Loop #"@ + dec_seq(p.current_loop.number as nat) + "\n"@
            + "Nihilism Score: "@ + signed_dec_seq(p.memory.nihilism_score as int) + " ("@
            + score_label(p.memory.nihilism_score as int) + ")\n"@,
{
    assert(spec_context(p) =~= "Loop #"@ + dec_seq(p.current_loop.number as nat) + "\n"@
        + "Nihilism Score: "@ + signed_dec_seq(p.memory.nihilism_score as int) + " ("@
        + score_label(p.memory.nihilism_score as int) + ")\n"@);
}

/// Law: a freshly created player renders exactly one header line for loop 1
/// and one score line for the zero score, and nothing else.
pub proof fn lemma_context_fresh(p: PlayerM)
    requires
        p == fresh_player(p.id, p.created_at),
    ensures
        spec_context(p) == "Loop #1\nNihilism Score: 0 (Balanced on the edge)\n"@,
{
    lemma_context_bare(p);
    reveal_strlit("Loop #");
    reveal_strlit("\n");
    reveal_strlit("Nihilism Score: ");
    reveal_strlit(" (");
    reveal_strlit(")\n");
    reveal_strlit("Balanced on the edge");
    reveal_strlit("Loop #1\nNihilism Score: 0 (Balanced on the edge)\n");
    assert(dec_seq(1nat) == seq!['1']);
    assert(signed_dec_seq(0int) == seq!['0']);
    assert(spec_context(p) =~= "Loop #1\nNihilism Score: 0 (Balanced on the edge)\n"@);
}

/// vstd's `DeepView` of a vector of strings coincides with `strings_view`.
proof fn lemma_deep_view_is_strings_view(v: Vec<String>)
    ensures
        v.deep_view() == strings_view(v@),
{
    assert forall|i: int| 0 <= i < v@.len() implies v.deep_view()[i] == strings_view(v@)[i] by {
        assert(v.deep_view()[i] == v@[i].deep_view());
    }
    assert(v.deep_view() =~= strings_view(v@));
}

fn clone_opt_string(o: &Option<String>) -> (r: Option<String>)
    ensures
        r == *o,
{
    match o {
        Some(s) => Some(s.clone()),
        None => None,
    }
}

fn clone_choices(v: &Vec<Choice>) -> (r: Vec<Choice>)
    ensures
        r@ == v@,
{
    let mut r: Vec<Choice> = Vec::new();
    let mut i: usize = 0;
    while i < v.len()
        invariant
            i <= v.len(),
            r@ == v@.take(i as int),
        decreases v.len() - i,
    {
        r.push(v[i].clone());
        i += 1;
        proof {
            assert(r@ =~= v@.take(i as int));
        }
    }
    proof {
        assert(r@ =~= v@);
    }
    r
}

fn clone_deaths(v: &Vec<(String, u64)>) -> (r: Vec<(String, u64)>)
    ensures
        r@ == v@,
{
    let mut r: Vec<(String, u64)> = Vec::new();
    let mut i: usize = 0;
    while i < v.len()
        invariant
            i <= v.len(),
            r@ == v@.take(i as int),
        decreases v.len() - i,
    {
        let name = v[i].0.clone();
        let count = v[i].1;
        r.push((name, count));
        i += 1;
        proof {
            assert(r@ =~= v@.take(i as int));
        }
    }
    proof {
        assert(r@ =~= v@);
    }
    r
}

fn clone_moments(v: &Vec<NarrativeMoment>) -> (r: Vec<NarrativeMoment>)
    ensures
        moments_view(r@) == moments_view(v@),
{
    let mut r: Vec<NarrativeMoment> = Vec::new();
    let mut i: usize = 0;
    while i < v.len()
        invariant
            i <= v.len(),
            r@.len() == i,
            forall|j: int| 0 <= j < i ==> (#[trigger] r@[j])@ == v@[j]@,
        decreases v.len() - i,
    {
        r.push(v[i].clone());
        i += 1;
    }
    proof {
        assert(moments_view(r@) =~= moments_view(v@));
    }
    r
}

impl Clone for Choice {
    fn clone(&self) -> (r: Self)
        ensures
            r == *self,
    {
        Choice {
            id: self.id.clone(),
            text: self.text.clone(),
            consequence_hint: clone_opt_string(&self.consequence_hint),
        }
    }
}

impl Clone for NarrativeMoment {
    fn clone(&self) -> (r: Self)
        ensures
            r@ == self@,
    {
        let r = NarrativeMoment {
            id: self.id,
            text: self.text.clone(),
            speaker: clone_opt_string(&self.speaker),
            mood: self.mood.clone(),
            choices: clone_choices(&self.choices),
            timestamp: self.timestamp,
        };
        proof {
            assert(r@ =~~= self@);
        }
        r
    }
}

impl Clone for Loop {
    fn clone(&self) -> (r: Self)
        ensures
            r@ == self@,
    {
        let r = Loop {
            number: self.number,
            started_at: self.started_at,
            ended_at: self.ended_at,
            choices_made: clone_strings(&self.choices_made),
            outcome: clone_opt_string(&self.outcome),
        };
        proof {
            assert(r@ =~~= self@);
        }
        r
    }
}

impl Clone for PersistentMemory {
    fn clone(&self) -> (r: Self)
        ensures
            r@ == self@,
    {
        let r = PersistentMemory {
            total_loops: self.total_loops,
            total_choices: self.total_choices,
            dark_choices: self.dark_choices,
            light_choices: self.light_choices,
            key_memories: clone_strings(&self.key_memories),
            character_deaths: clone_deaths(&self.character_deaths),
            truths_discovered: clone_strings(&self.truths_discovered),
            nihilism_score: self.nihilism_score,
        };
        proof {
            assert(r@ =~~= self@);
        }
        r
    }
}

impl Clone for Player {
    fn clone(&self) -> (r: Self)
        ensures
            r@ == self@,
    {
        let r = Player {
            id: self.id,
            name: clone_opt_string(&self.name),
            current_loop: self.current_loop.clone(),
            memory: self.memory.clone(),
            narrative_history: clone_moments(&self.narrative_history),
            created_at: self.created_at,
        };
        proof {
            assert(r@ =~~= self@);
        }
        r
    }
}

/// Relies on chrono::Utc::now for the current wall-clock time, read as
/// milliseconds since the epoch. Nothing is assumed of the value.
#[verifier::external_body]
fn now_millis() -> i64 {
    chrono::Utc::now().timestamp_millis()
}

/// Relies on uuid::Uuid::new_v4 for a random 128-bit identifier. Nothing is
/// assumed of the value.
#[verifier::external_body]
fn fresh_id() -> u128 {
    uuid::Uuid::new_v4().as_u128()
}

impl Default for PersistentMemory {
    fn default() -> (r: Self)
        ensures
            r@ == empty_memory(),
    {
        let r = PersistentMemory {
            total_loops: 0,
            total_choices: 0,
            dark_choices: 0,
            light_choices: 0,
            key_memories: Vec::new(),
            character_deaths: Vec::new(),
            truths_discovered: Vec::new(),
            nihilism_score: 0,
        };
        proof {
            assert(r@ =~~= empty_memory());
        }
        r
    }
}

impl Player {
    /// A new player: a fresh random identifier, loop number 1, empty memory,
    /// empty history, created now.
    pub fn new() -> (p: Player)
        ensures
            p@ == fresh_player(p@.id, p@.created_at),
            p@.memory.inv(),
    {
        let now = now_millis();
        let id = fresh_id();
        let p = Player {
            id,
            name: None,
            current_loop: Loop {
                number: 1,
                started_at: now,
                ended_at: None,
                choices_made: Vec::new(),
                outcome: None,
            },
            memory: PersistentMemory::default(),
            narrative_history: Vec::new(),
            created_at: now,
        };
        proof {
            assert(p@ =~~= fresh_player(p.id, now));
        }
        p
    }

    /// Record a classified choice: append its identifier to the active
    /// loop's list, count it, and move the nihilism score by +5 (dark,
    /// clamped at +100) or -3 (light, clamped at -100).
    pub fn make_choice(&mut self, choice_id: &str, is_dark: bool)
        requires
            old(self)@.memory.inv(),
            old(self)@.memory.total_choices < u64::MAX,
        ensures
            final(self)@ == player_after_choice(old(self)@, choice_id@, is_dark),
            final(self)@.memory.inv(),
    {
        self.current_loop.choices_made.push(choice_id.to_owned());
        self.memory.total_choices = self.memory.total_choices + 1;
        if is_dark {
            self.memory.dark_choices = self.memory.dark_choices + 1;
            let s = self.memory.nihilism_score;
            self.memory.nihilism_score = if s + 5 > 100 {
                100
            } else {
                s + 5
            };
        } else {
            self.memory.light_choices = self.memory.light_choices + 1;
            let s = self.memory.nihilism_score;
            self.memory.nihilism_score = if s - 3 < -100 {
                -100
            } else {
                s - 3
            };
        }
        proof {
            assert(self@ =~~= player_after_choice(old(self)@, choice_id@, is_dark));
        }
    }

    /// Reset the current loop but keep persistent memory: advance the loop
    /// counter, retain the last moment's text when it is new and fewer than
    /// 20 memories are held, replace the active loop with a fresh one, and
    /// clear the per-loop narrative history.
    pub fn reset_loop(&mut self)
        requires
            old(self)@.memory.inv(),
            old(self)@.memory.total_loops + 2 <= u64::MAX,
        ensures
            final(self)@ == player_after_reset(old(self)@, final(self)@.current_loop.started_at),
            final(self)@.memory.inv(),
            final(self)@.current_loop.number == final(self)@.memory.total_loops + 1,
            final(self)@.narrative_history.len() == 0,
    {
        self.memory.total_loops = self.memory.total_loops + 1;

        let hist_len = self.narrative_history.len();
        if hist_len > 0 {
            let last_text = &self.narrative_history[hist_len - 1].text;
            proof {
                assert(old(self)@.narrative_history.last().text == last_text@);
            }
            let already = vec_contains_string(&self.memory.key_memories, last_text);
            proof {
                lemma_deep_view_is_strings_view(self.memory.key_memories);
                assert(already == seq_has_string(
                    old(self)@.memory.key_memories,
                    old(self)@.narrative_history.last().text,
                ));
            }
            if !already {
                if self.memory.key_memories.len() < 20 {
                    self.memory.key_memories.push(last_text.clone());
                    proof {
                        assert(strings_view(self.memory.key_memories@)
                            =~= old(self)@.memory.key_memories.push(
                            old(self)@.narrative_history.last().text,
                        ));
                    }
                }
            }
        }
        proof {
            assert(strings_view(self.memory.key_memories@) =~= memories_after_reset(
                old(self)@.memory.key_memories,
                old(self)@.narrative_history,
            ));
        }

        let now = now_millis();
        self.current_loop = Loop {
            number: self.memory.total_loops + 1,
            started_at: now,
            ended_at: None,
            choices_made: Vec::new(),
            outcome: None,
        };
        self.narrative_history.clear();
        proof {
            assert(self@ =~~= player_after_reset(old(self)@, now));
            assert(self@.memory.inv());
        }
    }

    /// Render the persistent state as text for the external generator: the
    /// current loop number, the nihilism score with its label, the first
    /// five retained memories, and the choices made this loop.
    #[verifier::loop_isolation(false)]
    #[verifier::rlimit(60)]
    pub fn get_narrative_context(&self) -> (r: String)
        ensures
            r@ == spec_context(self@),
    {
        let mut context = String::new();
        context.append("Loop #");
        append_dec_u64(&mut context, self.current_loop.number);
        context.append("\n");
        context.append("Nihilism Score: ");
        append_dec_i32(&mut context, self.memory.nihilism_score);
        context.append(" (");
        if self.memory.nihilism_score > 30 {
            context.append("Descending into darkness");
        } else if self.memory.nihilism_score < -30 {
            context.append("Finding meaning");
        } else {
            context.append("Balanced on the edge");
        }
        context.append(")\n");
        let ghost base = context@;
        proof {
            assert(base =~= "Loop #"@ + dec_seq(self.current_loop.number as nat) + "\n"@
                + "Nihilism Score: "@ + signed_dec_seq(self.memory.nihilism_score as int) + " ("@
                + score_label(self.memory.nihilism_score as int) + ")\n"@);
        }
        if self.memory.key_memories.len() > 0 {
            context.append("\nMemories that persist:\n");
            let count = if self.memory.key_memories.len() < 5 {
                self.memory.key_memories.len()
            } else {
                5
            };
            let ghost shown = if self@.memory.key_memories.len() <= 5 {
                self@.memory.key_memories
            } else {
                self@.memory.key_memories.take(5)
            };
            let ghost base_mems = context@;
            proof {
                assert(shown =~= self@.memory.key_memories.take(count as int));
            }
            let mut i: usize = 0;
            while i < count
                invariant
                    i <= count,
                    context@ == base_mems + lines_block(shown.take(i as int)),
                decreases count - i,
            {
                context.append("- ");
                context.append(self.memory.key_memories[i].as_str());
                context.append("\n");
                proof {
                    assert(shown.take(i as int + 1).drop_last() =~= shown.take(i as int));
                    assert(shown.take(i as int + 1).last() == self.memory.key_memories@[i as int]@);
                    assert(context@ =~= base_mems + lines_block(shown.take(i as int + 1)));
                }
                i += 1;
            }
            proof {
                assert(shown.take(count as int) =~= shown);
            }
        }
        if self.current_loop.choices_made.len() > 0 {
            let ghost chs = self@.current_loop.choices_made;
            context.append("\nChoices this loop:\n");
            let ghost base_chs = context@;
            let mut i: usize = 0;
            while i < self.current_loop.choices_made.len()
                invariant
                    i <= chs.len(),
                    context@ == base_chs + lines_block(chs.take(i as int)),
                decreases chs.len() - i,
            {
                context.append("- ");
                context.append(self.current_loop.choices_made[i].as_str());
                context.append("\n");
                proof {
                    assert(chs.take(i as int + 1).drop_last() =~= chs.take(i as int));
                    assert(chs.take(i as int + 1).last() == self.current_loop.choices_made@[
                        i as int
                    ]@);
                    assert(context@ =~= base_chs + lines_block(chs.take(i as int + 1)));
                }
                i += 1;
            }
            proof {
                assert(chs.take(chs.len() as int) =~= chs);
            }
        }
        proof {
            assert(context@ =~= spec_context(self@));
        }
        context
    }

    /// Append a generated narrative moment verbatim to the per-loop history.
    pub fn record_moment(&mut self, moment: NarrativeMoment)
        ensures
            final(self)@ == player_after_moment(old(self)@, moment@),
    {
        let ghost m = moment@;
        self.narrative_history.push(moment);
        proof {
            assert(self@ =~~= player_after_moment(old(self)@, m));
        }
    }
}

impl NarrativeMoment {
    /// Build the fallback moment for raw generated content that could not be
    /// parsed, under the given identifier and timestamp.
    pub fn fallback(id: u128, text: String, timestamp: i64) -> (m: NarrativeMoment)
        ensures
            m@ == fallback_moment(id, text@, timestamp),
    {
        let mut choices: Vec<Choice> = Vec::new();
        choices.push(
            Choice { id: "continue".to_owned(), text: "Continue...".to_owned(), consequence_hint: None },
        );
        choices.push(
            Choice {
                id: "reset".to_owned(),
                text: "Let the loop reset...".to_owned(),
                consequence_hint: Some("End this iteration".to_owned()),
            },
        );
        let ghost t = text@;
        let m = NarrativeMoment {
            id,
            text,
            speaker: None,
            mood: "neutral".to_owned(),
            choices,
            timestamp,
        };
        proof {
            assert(m@.choices =~= fallback_moment(id, t, timestamp).choices);
            assert(m@ =~~= fallback_moment(id, t, timestamp));
        }
        m
    }

}

pub open spec fn players_view(v: Seq<Player>) -> Seq<PlayerM> {
    Seq::new(v.len(), |i: int| v[i]@)
}

/// The first player of the sequence carrying the given identifier, if any.
/// Under the registry invariant (pairwise distinct identifiers) it is the
/// only one.
pub open spec fn lookup(players: Seq<PlayerM>, id: u128) -> Option<PlayerM>
    decreases players.len(),
{
    if players.len() == 0 {
        None
    } else if players[0].id == id {
        Some(players[0])
    } else {
        lookup(players.drop_first(), id)
    }
}

proof fn lemma_lookup_found(s: Seq<PlayerM>, id: u128, i: int)
    requires
        0 <= i < s.len(),
        s[i].id == id,
        forall|j: int| 0 <= j < i ==> s[j].id != id,
    ensures
        lookup(s, id) == Some(s[i]),
    decreases i,
{
    if i > 0 {
        lemma_lookup_found(s.drop_first(), id, i - 1);
    }
}

proof fn lemma_lookup_none(s: Seq<PlayerM>, id: u128)
    requires
        forall|j: int| 0 <= j < s.len() ==> s[j].id != id,
    ensures
        lookup(s, id) is None,
    decreases s.len(),
{
    if s.len() > 0 {
        lemma_lookup_none(s.drop_first(), id);
    }
}

/// Two sequences that agree everywhere, except that entries carrying `id`
/// may have been replaced by entries still carrying `id`, give the same
/// lookup for every other identifier.
proof fn lemma_lookup_agree(s: Seq<PlayerM>, t: Seq<PlayerM>, id: u128, other: u128)
    requires
        s.len() == t.len(),
        forall|j: int| 0 <= j < s.len() && (#[trigger] s[j]).id != id ==> t[j] == s[j],
        forall|j: int| 0 <= j < s.len() ==> ((#[trigger] s[j]).id == id <==> t[j].id == id),
        other != id,
    ensures
        lookup(s, other) == lookup(t, other),
    decreases s.len(),
{
    if s.len() > 0 {
        assert(s[0].id == other ==> t[0] == s[0]);
        assert(t[0].id == other ==> s[0].id == other);
        if s[0].id != other {
            lemma_lookup_agree(s.drop_first(), t.drop_first(), id, other);
        }
    }
}

proof fn lemma_lookup_push(s: Seq<PlayerM>, p: PlayerM, other: u128)
    ensures
        lookup(s.push(p), other) == (if lookup(s, other) is Some {
            lookup(s, other)
        } else if p.id == other {
            Some(p)
        } else {
            None::<PlayerM>
        }),
    decreases s.len(),
{
    if s.len() == 0 {
        assert(s.push(p)[0] == p);
        assert(s.push(p).drop_first() =~= Seq::<PlayerM>::empty());
    } else {
        assert(s.push(p)[0] == s[0]);
        assert(s.push(p).drop_first() =~= s.drop_first().push(p));
        lemma_lookup_push(s.drop_first(), p, other);
    }
}

/// The session registry: every live player, keyed by identifier.
#[derive(Debug)]
pub struct GameState {
    pub players: Vec<Player>,
}

impl View for GameState {
    type V = Seq<PlayerM>;

    open spec fn view(&self) -> Seq<PlayerM> {
        players_view(self.players@)
    }
}

impl GameState {
    /// Registry invariant: identifiers are pairwise distinct.
    pub open spec fn inv(self) -> bool {
        forall|i: int, j: int| 0 <= i < j < self@.len() ==> self@[i].id != self@[j].id
    }

    pub fn new() -> (s: GameState)
        ensures
            s@ == Seq::<PlayerM>::empty(),
            s.inv(),
    {
        let s = GameState { players: Vec::new() };
        proof {
            assert(s@ =~= Seq::<PlayerM>::empty());
        }
        s
    }

    /// Shared lookup of a player by identifier.
    pub fn get_player(&self, id: u128) -> (r: Option<&Player>)
        ensures
            match r {
                Some(p) => lookup(self@, id) == Some(p@) && p@.id == id,
                None => lookup(self@, id) is None,
            },
    {
        let n = self.players.len();
        let mut i: usize = 0;
        while i < n
            invariant
                i <= n,
                n == self.players@.len(),
                forall|j: int| 0 <= j < i ==> (#[trigger] self@[j]).id != id,
            decreases n - i,
        {
            if self.players[i].id == id {
                proof {
                    lemma_lookup_found(self@, id, i as int);
                }
                return Some(&self.players[i]);
            }
            i += 1;
        }
        proof {
            lemma_lookup_none(self@, id);
        }
        None
    }

    /// Store a player: replaces the entry with the same identifier if one is
    /// held, otherwise adds the player. Every other entry is untouched.
    #[verifier::loop_isolation(false)]
    pub fn insert_player(&mut self, player: Player)
        requires
            old(self).inv(),
        ensures
            final(self).inv(),
            lookup(final(self)@, player@.id) == Some(player@),
            forall|other: u128|
                other != player@.id ==> lookup(final(self)@, other) == lookup(old(self)@, other),
    {
        let ghost pm = player@;
        let ghost id_g = player@.id;
        let id = player.id;
        let n = self.players.len();
        let mut i: usize = 0;
        while i < n
            invariant
                i <= n,
                n == self.players@.len(),
                *self == *old(self),
                old(self).inv(),
                forall|j: int| 0 <= j < i ==> (#[trigger] self@[j]).id != id,
                id == id_g,
            decreases n - i,
        {
            if self.players[i].id == id {
                proof {
                    assert(pm.id == id_g);
                }
                self.players.set(i, player);
                proof {
                    let s = old(self)@;
                    let t = self@;
                    assert(t =~= s.update(i as int, pm));
                    assert forall|x: int, y: int| 0 <= x < y < t.len() implies t[x].id
                        != t[y].id by {
                        assert(s[x].id != s[y].id);
                    }
                    lemma_lookup_found(t, id_g, i as int);
                    assert forall|other: u128| other != id_g implies lookup(t, other) == lookup(
                        s,
                        other,
                    ) by {
                        lemma_lookup_agree(s, t, id_g, other);
                    }
                }
                return ;
            }
            i += 1;
        }
        self.players.push(player);
        proof {
            let s = old(self)@;
            let t = self@;
            assert(t =~= s.push(pm));
            lemma_lookup_none(s, id_g);
            assert forall|x: int, y: int| 0 <= x < y < t.len() implies t[x].id != t[y].id by {
                if y == t.len() - 1 {
                    assert(s[x].id != id_g);
                } else {
                    assert(s[x].id != s[y].id);
                }
            }
            lemma_lookup_found(t, id_g, t.len() - 1);
            assert forall|other: u128| other != id_g implies lookup(t, other) == lookup(
                s,
                other,
            ) by {
                lemma_lookup_push(s, pm, other);
            }
        }
    }

    /// Create a new player and store it in the registry.
    pub fn create_player(&mut self) -> (p: Player)
        requires
            old(self).inv(),
        ensures
            final(self).inv(),
            p@ == fresh_player(p@.id, p@.created_at),
            p@.memory.inv(),
            lookup(final(self)@, p@.id) == Some(p@),
            forall|other: u128|
                other != p@.id ==> lookup(final(self)@, other) == lookup(old(self)@, other),
    {
        let p = Player::new();
        let q = p.clone();
        self.insert_player(q);
        p
    }
}

impl Default for GameState {
    fn default() -> (s: GameState)
        ensures
            s@ == Seq::<PlayerM>::empty(),
            s.inv(),
    {
        GameState::new()
    }
}

} // verus!
