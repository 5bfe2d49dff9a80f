//! The save-file naming scheme of player snapshots and the auto-save
//! settings. The file I/O itself is the embedding program's concern; this
//! module fixes how a player identifier and a save-file name correspond.

use vstd::prelude::*;
use vstd::string::StrSliceExecFns;
use vstd::string::StringExecFns;

use crate::text::seq_ends_with;
use crate::text::str_ends_with;

verus! {

/// What uuid's parser returns on a string: the 128-bit value when the text
/// denotes a UUID, None otherwise. A function of the characters alone.
pub uninterp spec fn uuid_of_str(s: Seq<char>) -> Option<u128>;

/// Relies on uuid::Uuid::parse_str, whose result depends only on its input.
#[verifier::external_body]
fn parse_uuid(s: &str) -> (r: Option<u128>)
    ensures
        r == uuid_of_str(s@),
{
    uuid::Uuid::parse_str(s).ok().map(|u| u.as_u128())
}

/// The canonical hyphenated text of a 128-bit identifier, as uuid renders
/// it. A function of the bits alone.
pub uninterp spec fn uuid_str_of(id: u128) -> Seq<char>;

/// Relies on uuid::Uuid::to_string (on uuid::Uuid::from_u128 of the bits),
/// whose result depends only on the 128 bits.
#[verifier::external_body]
fn uuid_to_string(id: u128) -> (r: String)
    ensures
        r@ == uuid_str_of(id),
{
    uuid::Uuid::from_u128(id).to_string()
}

/// The save-file name of a player: its identifier text followed by ".json".
pub open spec fn spec_save_file_name(id: u128) -> Seq<char> {
    uuid_str_of(id) + ".json"@
}

pub fn save_file_name(id: u128) -> (r: String)
    ensures
        r@ == spec_save_file_name(id),
{
    let mut r = uuid_to_string(id);
    r.append(".json");
    r
}

/// The player identifier a save-file name denotes: the text before the
/// ".json" suffix, parsed as a UUID; None when the suffix is missing or the
/// parse fails.
pub open spec fn spec_save_file_player_id(name: Seq<char>) -> Option<u128> {
    if seq_ends_with(name, ".json"@) {
        uuid_of_str(name.subrange(0, name.len() - ".json"@.len()))
    } else {
        None
    }
}

pub fn save_file_player_id(name: &str) -> (r: Option<u128>)
    ensures
        r == spec_save_file_player_id(name@),
{
    proof {
        reveal_strlit(".json");
    }
    if !str_ends_with(name, ".json") {
        return None;
    }
    let len = name.unicode_len();
    let stem = name.substring_char(0, len - 5);
    parse_uuid(stem)
}

/// Auto-save interval tracking: save every `interval_choices` choices.
#[derive(Debug, Clone, Copy, PartialEq, Eq, Structural)]
pub struct AutoSaveConfig {
    pub enabled: bool,
    pub interval_choices: u32,
}

impl Default for AutoSaveConfig {
    fn default() -> (r: Self)
        ensures
            r.enabled == true,
            r.interval_choices == 3,
    {
        AutoSaveConfig { enabled: true, interval_choices: 3 }
    }
}

} // verus!
