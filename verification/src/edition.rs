//! The edition of the language that a package or a target is written in.

use vstd::prelude::*;

verus! {

/// The editions that a manifest can name. Target discovery treats 2015 in
/// the legacy way and every later edition in the modern way.
#[derive(Debug, PartialEq, Eq, Copy, Clone, Hash, Structural)]
pub enum Edition {
    E2015,
    E2018,
    E2021,
    E2024,
}

impl Edition {
    /// The year by which a manifest names this edition.
    pub open spec fn text(self) -> Seq<char> {
        match self {
            Edition::E2015 => "2015"@,
            Edition::E2018 => "2018"@,
            Edition::E2021 => "2021"@,
            Edition::E2024 => "2024"@,
        }
    }

    /// Whether target discovery follows the rules from before 2018.
    pub open spec fn is_legacy(self) -> bool {
        self == Edition::E2015
    }

    /// The year by which a manifest names this edition.
    pub fn as_str(&self) -> (r: &'static str)
        ensures
            r@ == self.text(),
    {
        match self {
            Edition::E2015 => "2015",
            Edition::E2018 => "2018",
            Edition::E2021 => "2021",
            Edition::E2024 => "2024",
        }
    }
}

impl Default for Edition {
    /// A manifest that names no edition is written in the first one.
    fn default() -> (r: Self)
        ensures
            r == Edition::E2015,
    {
        Edition::E2015
    }
}

} // verus!
