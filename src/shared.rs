//! Plain types shared by the clients of the forecast: interface languages,
//! unit preferences and the region detected for a location.

use vstd::prelude::*;

verus! {

/// Supported interface languages.
#[derive(Clone, Copy, Debug, PartialEq, Eq, Structural)]
pub enum Language {
    Uk,
    En,
    Pl,
    De,
    Fr,
}

pub open spec fn language_code(l: Language) -> Seq<char> {
    match l {
        Language::Uk => "uk"@,
        Language::En => "en"@,
        Language::Pl => "pl"@,
        Language::De => "de"@,
        Language::Fr => "fr"@,
    }
}

impl Language {
    /// ISO 639-1 code of the language.
    pub fn code(&self) -> (r: &'static str)
        ensures
            r@ == language_code(*self),
    {
        match self {
            Language::Uk => "uk",
            Language::En => "en",
            Language::Pl => "pl",
            Language::De => "de",
            Language::Fr => "fr",
        }
    }
}

/// Length units.
#[derive(Clone, Copy, Debug, PartialEq, Eq, Structural)]
pub enum LengthUnit {
    Cm,
    Inches,
}

/// Weight units.
#[derive(Clone, Copy, Debug, PartialEq, Eq, Structural)]
pub enum WeightUnit {
    Kg,
    Lb,
}

/// Temperature units.
#[derive(Clone, Copy, Debug, PartialEq, Eq, Structural)]
pub enum TemperatureUnit {
    C,
    F,
}

/// Pressure units.
#[derive(Clone, Copy, Debug, PartialEq, Eq, Structural)]
pub enum PressureUnit {
    Hpa,
    MmHg,
    InHg,
}

/// A user's choice of units.
#[derive(Clone, Copy, Debug, PartialEq, Eq, Structural)]
pub struct UnitPreferences {
    pub length: LengthUnit,
    pub weight: WeightUnit,
    pub temperature: TemperatureUnit,
    pub pressure: PressureUnit,
}

impl Default for UnitPreferences {
    /// Metric units: centimetres, kilograms, degrees Celsius, hectopascals.
    fn default() -> (r: UnitPreferences)
        ensures
            r == (UnitPreferences {
                length: LengthUnit::Cm,
                weight: WeightUnit::Kg,
                temperature: TemperatureUnit::C,
                pressure: PressureUnit::Hpa,
            }),
    {
        UnitPreferences {
            length: LengthUnit::Cm,
            weight: WeightUnit::Kg,
            temperature: TemperatureUnit::C,
            pressure: PressureUnit::Hpa,
        }
    }
}

/// Country of a location, as region detection reports it.
#[derive(Clone, Debug)]
pub struct RegionInfo {
    pub country_code: String,
    pub country_name: String,
    pub supported: bool,
}

} // verus!
