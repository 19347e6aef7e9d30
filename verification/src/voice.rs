//! The per-conversation level of spoken output.

use vstd::prelude::*;

verus! {

/// How much of a conversation is spoken aloud.
#[derive(Clone, Copy, Debug, PartialEq, Eq, Structural)]
pub enum AdeleOutput {
    /// Nothing is spoken.
    Disabled,
    /// Only the asides that the model asks to have spoken.
    OnDemand,
    /// Every reply, in full.
    Always,
}

/// Which shaping of the system prompt goes with a send.
#[derive(Clone, Copy, Debug, PartialEq, Eq, Structural)]
pub enum SendRefinement {
    /// Brief, conversational, speakable.
    OnDemand,
    /// Speakable, and as full as ever.
    Always,
}

impl Default for AdeleOutput {
    fn default() -> (r: Self)
        ensures
            r == AdeleOutput::Disabled,
    {
        AdeleOutput::Disabled
    }
}

impl AdeleOutput {
    /// Whether a reply is narrated in full.
    pub open spec fn narrates(self) -> bool {
        self == AdeleOutput::Always
    }

    /// Whether an aside is spoken.
    pub open spec fn speaks(self) -> bool {
        self == AdeleOutput::OnDemand
    }

    /// The refinement that goes with a send at this level.
    pub open spec fn refinement(self) -> Option<SendRefinement> {
        match self {
            AdeleOutput::Disabled => None,
            AdeleOutput::OnDemand => Some(SendRefinement::OnDemand),
            AdeleOutput::Always => Some(SendRefinement::Always),
        }
    }

    /// Whether a reply is narrated in full: at [`AdeleOutput::Always`] only.
    pub fn narrates_reply(self) -> (r: bool)
        ensures
            r == self.narrates(),
    {
        self == AdeleOutput::Always
    }

    /// Whether an aside is spoken: at [`AdeleOutput::OnDemand`] only.
    pub fn speaks_aside(self) -> (r: bool)
        ensures
            r == self.speaks(),
    {
        self == AdeleOutput::OnDemand
    }

    /// The refinement that goes with a send at this level.
    pub fn send_refinement(self) -> (r: Option<SendRefinement>)
        ensures
            r == self.refinement(),
    {
        match self {
            AdeleOutput::Disabled => None,
            AdeleOutput::OnDemand => Some(SendRefinement::OnDemand),
            AdeleOutput::Always => Some(SendRefinement::Always),
        }
    }
}

/// The three levels part what is spoken: replies at one, asides at another, and
/// nothing, without any shaping of a send, at the third.
pub proof fn the_levels_part_what_is_spoken(level: AdeleOutput)
    ensures
        level.narrates() <==> level is Always,
        level.speaks() <==> level is OnDemand,
        level is Disabled <==> level.refinement() is None,
        level is OnDemand <==> level.refinement() == Some(SendRefinement::OnDemand),
        level is Always <==> level.refinement() == Some(SendRefinement::Always),
{
}

} // verus!
