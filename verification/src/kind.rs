//! The closed set of change kinds and its bidirectional mapping to the
//! fixed set of 2-character status codes.

use vstd::prelude::*;

verus! {

/// The category of modification a status line reports for one file.
/// Exactly one variant applies to any parsed line.
#[derive(Clone, Copy, Debug, PartialEq, Eq, Structural)]
pub enum ChangeKind {
    Deleted,
    Modified,
    NotTracked,
    Added,
    ModifiedInBothStages,
    AddedThenModified,
}

/// The 2-character status code that displays a change kind.
pub open spec fn code_of(k: ChangeKind) -> Seq<char> {
    match k {
        ChangeKind::Deleted => seq![' ', 'D'],
        ChangeKind::Modified => seq![' ', 'M'],
        ChangeKind::NotTracked => seq!['?', '?'],
        ChangeKind::Added => seq![' ', 'A'],
        ChangeKind::ModifiedInBothStages => seq!['M', 'M'],
        ChangeKind::AddedThenModified => seq!['A', 'M'],
    }
}

/// The change kind a 2-character status code stands for, or `None` when the
/// code lies outside the fixed set.
pub open spec fn kind_of(c0: char, c1: char) -> Option<ChangeKind> {
    if c0 == ' ' && c1 == 'D' {
        Some(ChangeKind::Deleted)
    } else if c0 == ' ' && c1 == 'M' {
        Some(ChangeKind::Modified)
    } else if c0 == '?' && c1 == '?' {
        Some(ChangeKind::NotTracked)
    } else if c0 == ' ' && c1 == 'A' {
        Some(ChangeKind::Added)
    } else if c0 == 'M' && c1 == 'M' {
        Some(ChangeKind::ModifiedInBothStages)
    } else if c0 == 'A' && c1 == 'M' {
        Some(ChangeKind::AddedThenModified)
    } else {
        None
    }
}

impl ChangeKind {
    /// Renders this change kind as its 2-character status code.
    pub fn code(self) -> (r: &'static str)
        ensures
            r@ == code_of(self),
    {
        match self {
            ChangeKind::Deleted => {
                proof {
                    reveal_strlit(" D");
                    assert(" D"@ =~= code_of(ChangeKind::Deleted));
                }
                " D"
            },
            ChangeKind::Modified => {
                proof {
                    reveal_strlit(" M");
                    assert(" M"@ =~= code_of(ChangeKind::Modified));
                }
                " M"
            },
            ChangeKind::NotTracked => {
                proof {
                    reveal_strlit("??");
                    assert("??"@ =~= code_of(ChangeKind::NotTracked));
                }
                "??"
            },
            ChangeKind::Added => {
                proof {
                    reveal_strlit(" A");
                    assert(" A"@ =~= code_of(ChangeKind::Added));
                }
                " A"
            },
            ChangeKind::ModifiedInBothStages => {
                proof {
                    reveal_strlit("MM");
                    assert("MM"@ =~= code_of(ChangeKind::ModifiedInBothStages));
                }
                "MM"
            },
            ChangeKind::AddedThenModified => {
                proof {
                    reveal_strlit("AM");
                    assert("AM"@ =~= code_of(ChangeKind::AddedThenModified));
                }
                "AM"
            },
        }
    }

    /// Classifies a 2-character status code, `None` for a code outside the
    /// fixed set.
    pub fn from_code(c0: char, c1: char) -> (r: Option<ChangeKind>)
        ensures
            r == kind_of(c0, c1),
    {
        if c0 == ' ' && c1 == 'D' {
            Some(ChangeKind::Deleted)
        } else if c0 == ' ' && c1 == 'M' {
            Some(ChangeKind::Modified)
        } else if c0 == '?' && c1 == '?' {
            Some(ChangeKind::NotTracked)
        } else if c0 == ' ' && c1 == 'A' {
            Some(ChangeKind::Added)
        } else if c0 == 'M' && c1 == 'M' {
            Some(ChangeKind::ModifiedInBothStages)
        } else if c0 == 'A' && c1 == 'M' {
            Some(ChangeKind::AddedThenModified)
        } else {
            None
        }
    }
}

/// The code table is injective on the fixed set: rendering a change kind to
/// its 2-character code and classifying that code again yields the same kind,
/// for every variant.
pub proof fn lemma_code_round_trip(k: ChangeKind)
    ensures
        kind_of(code_of(k)[0], code_of(k)[1]) == Some(k),
{
}

} // verus!
