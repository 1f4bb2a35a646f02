//! Quick-save slot names for a running game: one file for the latest
//! snapshot and one for the previous, both derived from the game's file
//! stem.

use vstd::prelude::*;

verus! {

/// The two snapshot file names of a quick-save slot.
pub struct QuickSaveFiles {
    pub latest: String,
    pub previous: String,
}

/// The stem the names are built from: the game's own, or a placeholder
/// when the game has none.
pub open spec fn spec_save_stem(stem: Option<&str>) -> Seq<char> {
    match stem {
        Some(s) => if s@.len() == 0 {
            "zx-spectrum"@
        } else {
            s@
        },
        None => "zx-spectrum"@,
    }
}

impl QuickSaveFiles {
    /// Derives both snapshot names from a game's file stem.
    pub fn new(stem: Option<&str>) -> (r: QuickSaveFiles)
        ensures
            r.latest@ == spec_save_stem(stem) + ".zx.last.sna"@,
            r.previous@ == spec_save_stem(stem) + ".zx.prev.sna"@,
    {
        let base = match stem {
            Some(s) => if s.unicode_len() == 0 {
                "zx-spectrum"
            } else {
                s
            },
            None => "zx-spectrum",
        };
        let mut latest = base.to_owned();
        latest.append(".zx.last.sna");
        let mut previous = base.to_owned();
        previous.append(".zx.prev.sna");
        QuickSaveFiles { latest, previous }
    }
}

} // verus!
