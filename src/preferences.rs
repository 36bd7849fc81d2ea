//! Display preferences kept by the interactive client.

use vstd::prelude::*;

verus! {

/// A user's display preferences, as the codes the interface uses.
#[derive(Clone, Debug)]
pub struct UserPreferences {
    /// Interface language code (uk, en, pl, de, fr).
    pub language: String,
    /// Length unit (cm or in).
    pub length_unit: String,
    /// Weight unit (kg or lb).
    pub weight_unit: String,
    /// Temperature unit (C or F).
    pub temperature_unit: String,
    /// Pressure unit (mmHg, hPa or inHg).
    pub pressure_unit: String,
    pub dark_mode: bool,
}

impl Default for UserPreferences {
    /// Ukrainian, metric units, light theme.
    fn default() -> (r: UserPreferences)
        ensures
            r.language@ == "uk"@,
            r.length_unit@ == "cm"@,
            r.weight_unit@ == "kg"@,
            r.temperature_unit@ == "C"@,
            r.pressure_unit@ == "hPa"@,
            !r.dark_mode,
    {
        UserPreferences {
            language: "uk".to_string(),
            length_unit: "cm".to_string(),
            weight_unit: "kg".to_string(),
            temperature_unit: "C".to_string(),
            pressure_unit: "hPa".to_string(),
            dark_mode: false,
        }
    }
}

} // verus!
