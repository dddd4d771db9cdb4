//! The closed vocabularies of the records: units and kinds of action.

use vstd::prelude::*;
use crate::term::Term;
use crate::term::TermView;
use crate::vocab::cat;
use crate::vocab::cat_iri;
use crate::vocab::qudtext;
use crate::vocab::qudtext_iri;
use crate::vocab::unit;
use crate::vocab::unit_iri;

verus! {

/// A unit of measurement.
#[derive(Clone, Copy, Debug, PartialEq, Eq, Structural)]
pub enum Unit {
    Bar,
    DegC,
    GmPerMol,
    GmPerMilliL,
    Min,
    MicroL,
    MilliGm,
    MilliL,
    MilliM3,
    Percent,
    RevPerMin,
    Sec,
    MilliAbsorbanceUnit,
    MilliAbsorbanceUnitTimesSecond,
}

impl Unit {
    /// The IRI of the unit.
    pub open spec fn iri_view(&self) -> TermView {
        match self {
            Unit::Bar => unit_iri("Bar"@),
            Unit::DegC => unit_iri("DEG_C"@),
            Unit::GmPerMol => unit_iri("GM-PER-MOL"@),
            Unit::GmPerMilliL => unit_iri("GM-PER-MilliL"@),
            Unit::Min => unit_iri("MIN"@),
            Unit::MicroL => unit_iri("MicroL"@),
            Unit::MilliGm => unit_iri("MilliGM"@),
            Unit::MilliL => unit_iri("MilliL"@),
            Unit::MilliM3 => unit_iri("MilliM3"@),
            Unit::Percent => unit_iri("PERCENT"@),
            Unit::RevPerMin => unit_iri("REV-PER-MIN"@),
            Unit::Sec => unit_iri("SEC"@),
            Unit::MilliAbsorbanceUnit => qudtext_iri("MilliAbsorbanceUnit"@),
            Unit::MilliAbsorbanceUnitTimesSecond => qudtext_iri(
                "MilliAbsorbanceUnitTimesSecond"@,
            ),
        }
    }

    /// The IRI of the unit.
    pub fn iri(&self) -> (term: Term)
        ensures
            term@ == self.iri_view(),
    {
        match self {
            Unit::Bar => unit("Bar"),
            Unit::DegC => unit("DEG_C"),
            Unit::GmPerMol => unit("GM-PER-MOL"),
            Unit::GmPerMilliL => unit("GM-PER-MilliL"),
            Unit::Min => unit("MIN"),
            Unit::MicroL => unit("MicroL"),
            Unit::MilliGm => unit("MilliGM"),
            Unit::MilliL => unit("MilliL"),
            Unit::MilliM3 => unit("MilliM3"),
            Unit::Percent => unit("PERCENT"),
            Unit::RevPerMin => unit("REV-PER-MIN"),
            Unit::Sec => unit("SEC"),
            Unit::MilliAbsorbanceUnit => qudtext("MilliAbsorbanceUnit"),
            Unit::MilliAbsorbanceUnitTimesSecond => qudtext("MilliAbsorbanceUnitTimesSecond"),
        }
    }
}

/// A kind of action that an instrument records.
#[derive(Clone, Copy, Debug, PartialEq, Eq, Structural)]
pub enum ActionName {
    AddAction,
    BravoAddAction,
    EvaporationAction,
    FiltrateAction,
    SetPressureAction,
    SetTemperatureAction,
    SetVacuumAction,
    ShakeAction,
    SolventChangeAction,
    SynthAddAction,
}

impl ActionName {
    /// The class of the action.
    pub open spec fn iri_view(&self) -> TermView {
        match self {
            ActionName::AddAction => cat_iri("AddAction"@),
            ActionName::BravoAddAction => cat_iri("BravoAddAction"@),
            ActionName::EvaporationAction => cat_iri("EvaporationAction"@),
            ActionName::FiltrateAction => cat_iri("FiltrateAction"@),
            ActionName::SetPressureAction => cat_iri("SetPressureAction"@),
            ActionName::SetTemperatureAction => cat_iri("SetTemperatureAction"@),
            ActionName::SetVacuumAction => cat_iri("SetVacuumAction"@),
            ActionName::ShakeAction => cat_iri("ShakeAction"@),
            ActionName::SolventChangeAction => cat_iri("SolventChangeAction"@),
            ActionName::SynthAddAction => cat_iri("SynthAddAction"@),
        }
    }

    /// The class of the action.
    pub fn iri(&self) -> (term: Term)
        ensures
            term@ == self.iri_view(),
    {
        match self {
            ActionName::AddAction => cat("AddAction"),
            ActionName::BravoAddAction => cat("BravoAddAction"),
            ActionName::EvaporationAction => cat("EvaporationAction"),
            ActionName::FiltrateAction => cat("FiltrateAction"),
            ActionName::SetPressureAction => cat("SetPressureAction"),
            ActionName::SetTemperatureAction => cat("SetTemperatureAction"),
            ActionName::SetVacuumAction => cat("SetVacuumAction"),
            ActionName::ShakeAction => cat("ShakeAction"),
            ActionName::SolventChangeAction => cat("SolventChangeAction"),
            ActionName::SynthAddAction => cat("SynthAddAction"),
        }
    }
}

} // verus!
