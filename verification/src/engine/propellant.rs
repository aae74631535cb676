//! Propellant combinations.

use vstd::prelude::*;

use super::text::{lowercase, same_text, to_lowercase, trim, trimmed};

verus! {

/// A propellant combination: what an engine burns.
#[derive(Debug, Clone, Copy, PartialEq, Eq, Structural)]
pub enum Propellant {
    /// Liquid oxygen and kerosene.
    LoxRp1,
    /// Liquid oxygen and liquid hydrogen.
    LoxLh2,
    /// Liquid oxygen and methane.
    LoxCh4,
    /// Nitrogen tetroxide and a hydrazine.
    N2o4Udmh,
    /// Solid propellant.
    Solid,
}

impl Propellant {
    /// The display name.
    pub open spec fn spec_name(self) -> Seq<char> {
        match self {
            Propellant::LoxRp1 => "LOX/RP-1"@,
            Propellant::LoxLh2 => "LOX/LH2"@,
            Propellant::LoxCh4 => "LOX/CH4"@,
            Propellant::N2o4Udmh => "N2O4/UDMH"@,
            Propellant::Solid => "Solid"@,
        }
    }

    /// Whether `filter`, already in lower case and trimmed, names this
    /// propellant: by its variant, by its display name, or by an alias.
    pub open spec fn accepts(self, filter: Seq<char>) -> bool {
        match self {
            Propellant::LoxRp1 => filter == "loxrp1"@ || filter == "kerosene"@ || filter == "rp1"@
                || filter == "rp-1"@ || filter == "lox/rp1"@ || filter == "lox/rp-1"@,
            Propellant::LoxLh2 => filter == "loxlh2"@ || filter == "hydrogen"@ || filter == "lh2"@
                || filter == "hydrolox"@ || filter == "lox/lh2"@,
            Propellant::LoxCh4 => filter == "loxch4"@ || filter == "methane"@ || filter == "ch4"@
                || filter == "methalox"@ || filter == "lox/ch4"@,
            Propellant::N2o4Udmh => filter == "n2o4udmh"@ || filter == "n2o4/udmh"@ || filter
                == "hypergolic"@ || filter == "udmh"@ || filter == "n2o4"@,
            Propellant::Solid => filter == "solid"@ || filter == "srb"@,
        }
    }

    /// The display name, such as `LOX/RP-1`.
    pub fn name(&self) -> (r: &'static str)
        ensures
            r@ == self.spec_name(),
    {
        match self {
            Propellant::LoxRp1 => "LOX/RP-1",
            Propellant::LoxLh2 => "LOX/LH2",
            Propellant::LoxCh4 => "LOX/CH4",
            Propellant::N2o4Udmh => "N2O4/UDMH",
            Propellant::Solid => "Solid",
        }
    }

    /// Whether a filter that is already in lower case and trimmed names
    /// this propellant.
    pub fn matches_normalized(&self, filter: &str) -> (r: bool)
        ensures
            r == self.accepts(filter@),
    {
        match self {
            Propellant::LoxRp1 => same_text(filter, "loxrp1") || same_text(filter, "kerosene")
                || same_text(filter, "rp1") || same_text(filter, "rp-1") || same_text(
                filter,
                "lox/rp1",
            ) || same_text(filter, "lox/rp-1"),
            Propellant::LoxLh2 => same_text(filter, "loxlh2") || same_text(filter, "hydrogen")
                || same_text(filter, "lh2") || same_text(filter, "hydrolox") || same_text(
                filter,
                "lox/lh2",
            ),
            Propellant::LoxCh4 => same_text(filter, "loxch4") || same_text(filter, "methane")
                || same_text(filter, "ch4") || same_text(filter, "methalox") || same_text(
                filter,
                "lox/ch4",
            ),
            Propellant::N2o4Udmh => same_text(filter, "n2o4udmh") || same_text(
                filter,
                "n2o4/udmh",
            ) || same_text(filter, "hypergolic") || same_text(filter, "udmh") || same_text(
                filter,
                "n2o4",
            ),
            Propellant::Solid => same_text(filter, "solid") || same_text(filter, "srb"),
        }
    }

    /// Whether a filter typed by a user names this propellant. Case and
    /// surrounding white space do not matter.
    pub fn matches(&self, filter: &str) -> (r: bool)
        ensures
            r == self.accepts(trimmed(lowercase(filter@))),
    {
        let lowered = to_lowercase(filter);
        let normalized = trim(lowered.as_str());
        self.matches_normalized(normalized)
    }

    /// Every propellant, in declaration order.
    pub fn all() -> (r: Vec<Propellant>)
        ensures
            r@ == seq![
                Propellant::LoxRp1,
                Propellant::LoxLh2,
                Propellant::LoxCh4,
                Propellant::N2o4Udmh,
                Propellant::Solid,
            ],
    {
        let mut out: Vec<Propellant> = Vec::new();
        out.push(Propellant::LoxRp1);
        out.push(Propellant::LoxLh2);
        out.push(Propellant::LoxCh4);
        out.push(Propellant::N2o4Udmh);
        out.push(Propellant::Solid);
        out
    }
}

} // verus!
