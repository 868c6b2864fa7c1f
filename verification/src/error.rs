//! Failures that abort the construction of a database.

use vstd::prelude::*;

verus! {

/// The structural level at which a mandatory field was found missing.
#[derive(Clone, Copy, Debug, PartialEq, Eq, Structural)]
pub enum Phase {
    Metadata,
    Descriptor,
    Format,
}

/// The mandatory fields that validation can report as missing.
#[derive(Clone, Copy, Debug, PartialEq, Eq, Structural)]
pub enum Field {
    GeneralDesc,
    Id,
    CountryCode,
    NationalNumber,
    Pattern,
    Format,
}

/// A failure while validating records or compiling their patterns.
///
/// Either kind aborts the construction of the whole database: a partially
/// valid database is never handed to a caller.
#[derive(Debug)]
pub enum BuildError {
    /// A mandatory field was absent at the given structural level.
    MissingValue { phase: Phase, name: Field },
    /// The pattern compiler rejected the given pattern text.
    Pattern { text: String },
}

/// The mathematical model of a [`BuildError`].
pub enum BuildErrorV {
    MissingValue { phase: Phase, name: Field },
    Pattern { text: Seq<char> },
}

impl View for BuildError {
    type V = BuildErrorV;

    open spec fn view(&self) -> BuildErrorV {
        match self {
            BuildError::MissingValue { phase, name } => (BuildErrorV::MissingValue {
                phase: *phase,
                name: *name,
            }),
            BuildError::Pattern { text } => (BuildErrorV::Pattern { text: text@ }),
        }
    }
}

impl Phase {
    /// The phase as it is reported to callers.
    pub open spec fn text_spec(self) -> Seq<char> {
        match self {
            Phase::Metadata => "metadata"@,
            Phase::Descriptor => "descriptor"@,
            Phase::Format => "format"@,
        }
    }

    /// The phase name for diagnostics.
    pub fn text(&self) -> (r: String)
        ensures
            r@ == self.text_spec(),
    {
        match self {
            Phase::Metadata => "metadata".to_owned(),
            Phase::Descriptor => "descriptor".to_owned(),
            Phase::Format => "format".to_owned(),
        }
    }
}

impl Field {
    /// The field name as the raw record format spells it.
    pub open spec fn text_spec(self) -> Seq<char> {
        match self {
            Field::GeneralDesc => "generalDesc"@,
            Field::Id => "id"@,
            Field::CountryCode => "countryCode"@,
            Field::NationalNumber => "national_number"@,
            Field::Pattern => "pattern"@,
            Field::Format => "format"@,
        }
    }

    /// The field name for diagnostics.
    pub fn text(&self) -> (r: String)
        ensures
            r@ == self.text_spec(),
    {
        match self {
            Field::GeneralDesc => "generalDesc".to_owned(),
            Field::Id => "id".to_owned(),
            Field::CountryCode => "countryCode".to_owned(),
            Field::NationalNumber => "national_number".to_owned(),
            Field::Pattern => "pattern".to_owned(),
            Field::Format => "format".to_owned(),
        }
    }
}

} // verus!
