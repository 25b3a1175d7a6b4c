use vstd::prelude::*;

verus! {

/// The kinds of mini-game; at most one instance of each runs at a time.
#[derive(Clone, Copy, Debug, PartialEq, Eq, Hash, PartialOrd, Ord, Structural)]
pub enum EventKind {
    MeleeMania,
    SkyEye,
    RadioSpies,
}

pub const MELEE_MANIA_NAME: &'static str = "MeleeMania";

pub const SKY_EYE_NAME: &'static str = "SkyEye";

pub const RADIO_SPIES_NAME: &'static str = "RadioSpies";

impl EventKind {
    pub open spec fn spec_name(self) -> Seq<char> {
        match self {
            EventKind::MeleeMania => MELEE_MANIA_NAME@,
            EventKind::SkyEye => SKY_EYE_NAME@,
            EventKind::RadioSpies => RADIO_SPIES_NAME@,
        }
    }

    /// The kind's name as replies show it.
    pub fn name(&self) -> (r: &'static str)
        ensures
            r@ == self.spec_name(),
    {
        match self {
            EventKind::MeleeMania => MELEE_MANIA_NAME,
            EventKind::SkyEye => SKY_EYE_NAME,
            EventKind::RadioSpies => RADIO_SPIES_NAME,
        }
    }
}

} // verus!
