//! The language edition that the synthesized project declares.

use crate::error::CargoPlayError;
use crate::text::same_text;
use vstd::prelude::*;
use vstd::string::StringExecFns;

verus! {

/// The accepted editions.
#[derive(Debug, Clone, Copy, PartialEq, Eq, Structural)]
pub enum RustEdition {
    E2015,
    E2018,
}

impl RustEdition {
    /// The edition's name as it is written in a manifest.
    pub open spec fn name(self) -> Seq<char> {
        match self {
            RustEdition::E2015 => "2015"@,
            RustEdition::E2018 => "2018"@,
        }
    }

    /// The edition that `s` names, if it names one.
    pub open spec fn named(s: Seq<char>) -> Option<RustEdition> {
        if s == "2018"@ {
            Some(RustEdition::E2018)
        } else if s == "2015"@ {
            Some(RustEdition::E2015)
        } else {
            None
        }
    }

    /// Reads an edition: `2018` and `2015` are accepted, and anything else is
    /// refused with the text that was given.
    pub fn from_str(s: &str) -> (r: Result<RustEdition, CargoPlayError>)
        ensures
            match r {
                Ok(e) => Self::named(s@) == Some(e),
                Err(CargoPlayError::InvalidEdition(t)) => Self::named(s@) is None && t@ == s@,
                Err(_) => false,
            },
    {
        if same_text(s, "2018") {
            Ok(RustEdition::E2018)
        } else if same_text(s, "2015") {
            Ok(RustEdition::E2015)
        } else {
            Err(CargoPlayError::InvalidEdition(s.to_owned()))
        }
    }

    /// The edition's name.
    pub fn into(self) -> (r: String)
        ensures
            r@ == self.name(),
    {
        match self {
            RustEdition::E2015 => String::from_str("2015"),
            RustEdition::E2018 => String::from_str("2018"),
        }
    }
}

/// Reading an edition's name gives the edition back, and the two names differ.
pub proof fn lemma_edition_round_trip(e: RustEdition)
    ensures
        RustEdition::named(e.name()) == Some(e),
{
    reveal_strlit("2015");
    reveal_strlit("2018");
    assert("2015"@[3] != "2018"@[3]);
}

} // verus!
