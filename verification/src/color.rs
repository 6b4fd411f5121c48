//! The fixed mapping from change kinds to presentation colors, used by a
//! rendering layer to color the row that shows one file change.

use vstd::prelude::*;

use crate::kind::ChangeKind;

verus! {

/// A presentation color, one byte per channel.
#[derive(Clone, Copy, Debug, PartialEq, Eq, Structural)]
pub struct Rgba {
    pub red: u8,
    pub green: u8,
    pub blue: u8,
    pub alpha: u8,
}

/// The fixed table from change kind to presentation color. A pure lookup:
/// every kind has exactly one color, and every color here is fully opaque.
pub open spec fn color_of(k: ChangeKind) -> Rgba {
    match k {
        ChangeKind::Deleted => Rgba { red: 222, green: 56, blue: 43, alpha: 255 },
        ChangeKind::Modified => Rgba { red: 255, green: 199, blue: 6, alpha: 255 },
        ChangeKind::NotTracked => Rgba { red: 118, green: 118, blue: 118, alpha: 255 },
        ChangeKind::Added => Rgba { red: 57, green: 181, blue: 74, alpha: 255 },
        ChangeKind::ModifiedInBothStages => Rgba { red: 255, green: 121, blue: 0, alpha: 255 },
        ChangeKind::AddedThenModified => Rgba { red: 0, green: 187, blue: 187, alpha: 255 },
    }
}

impl ChangeKind {
    /// Looks this change kind's presentation color up in the fixed table.
    pub fn color(self) -> (r: Rgba)
        ensures
            r == color_of(self),
    {
        match self {
            ChangeKind::Deleted => Rgba { red: 222, green: 56, blue: 43, alpha: 255 },
            ChangeKind::Modified => Rgba { red: 255, green: 199, blue: 6, alpha: 255 },
            ChangeKind::NotTracked => Rgba { red: 118, green: 118, blue: 118, alpha: 255 },
            ChangeKind::Added => Rgba { red: 57, green: 181, blue: 74, alpha: 255 },
            ChangeKind::ModifiedInBothStages => Rgba {
                red: 255,
                green: 121,
                blue: 0,
                alpha: 255,
            },
            ChangeKind::AddedThenModified => Rgba { red: 0, green: 187, blue: 187, alpha: 255 },
        }
    }
}

} // verus!
