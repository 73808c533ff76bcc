//! Stock icons that the operating system ships.

use vstd::prelude::*;

verus! {

/// A stock icon owned by the operating system.
///
/// Each variant stands for one of the OEM icons that the platform documents;
/// [`OemIcon::resource_id`] gives the integer identifier under which the
/// platform loader finds it.
#[derive(Clone, Copy, Debug, PartialEq, Eq, Structural)]
pub enum OemIcon {
    /// The default application icon.
    Sample,
    /// The stop-sign (hand) icon.
    Hand,
    /// The question-mark icon.
    Ques,
    /// The exclamation-point icon.
    Bang,
    /// The asterisk (information) icon.
    Note,
    /// The brand logo icon.
    WinLogo,
    /// The security shield icon.
    Shield,
}

/// The documented integer identifier of a stock icon.
pub open spec fn spec_resource_id(icon: OemIcon) -> u32 {
    match icon {
        OemIcon::Sample => 32512u32,
        OemIcon::Hand => 32513u32,
        OemIcon::Ques => 32514u32,
        OemIcon::Bang => 32515u32,
        OemIcon::Note => 32516u32,
        OemIcon::WinLogo => 32517u32,
        OemIcon::Shield => 32518u32,
    }
}

impl OemIcon {
    /// The integer identifier handed to the platform loader for this icon.
    pub fn resource_id(self) -> (r: u32)
        ensures
            r == spec_resource_id(self),
    {
        match self {
            OemIcon::Sample => 32512,
            OemIcon::Hand => 32513,
            OemIcon::Ques => 32514,
            OemIcon::Bang => 32515,
            OemIcon::Note => 32516,
            OemIcon::WinLogo => 32517,
            OemIcon::Shield => 32518,
        }
    }
}

} // verus!
