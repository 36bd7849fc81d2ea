use fishing_forecast::auth::bearer_token;
use fishing_forecast::client::{decimal, ApiClient, ApiError, PRODUCTION_API_URL};
use fishing_forecast::preferences::UserPreferences;
use fishing_forecast::shared::{
    Language, LengthUnit, PressureUnit, TemperatureUnit, UnitPreferences, WeightUnit,
};

#[test]
fn language_codes() {
    assert_eq!(Language::Uk.code(), "uk");
    assert_eq!(Language::En.code(), "en");
    assert_eq!(Language::Pl.code(), "pl");
    assert_eq!(Language::De.code(), "de");
    assert_eq!(Language::Fr.code(), "fr");
}

#[test]
fn default_unit_preferences_are_metric() {
    let p = UnitPreferences::default();
    assert_eq!(p.length, LengthUnit::Cm);
    assert_eq!(p.weight, WeightUnit::Kg);
    assert_eq!(p.temperature, TemperatureUnit::C);
    assert_eq!(p.pressure, PressureUnit::Hpa);
}

#[test]
fn default_user_preferences() {
    let p = UserPreferences::default();
    assert_eq!(p.language, "uk");
    assert_eq!(p.length_unit, "cm");
    assert_eq!(p.weight_unit, "kg");
    assert_eq!(p.temperature_unit, "C");
    assert_eq!(p.pressure_unit, "hPa");
    assert!(!p.dark_mode);
}

#[test]
fn api_client_endpoints() {
    assert_eq!(ApiClient::new("http://example.org").base_url(), "http://example.org");
    assert_eq!(ApiClient::new_auto().base_url(), "http://localhost:8080");
    assert_eq!(ApiClient::from_configured(None).base_url(), PRODUCTION_API_URL);
    assert_eq!(
        ApiClient::from_configured(Some("https://api.test".to_string())).base_url(),
        "https://api.test"
    );
}

#[test]
fn api_error_messages() {
    assert_eq!(
        ApiError::NetworkError("offline".to_string()).to_string(),
        "Network error: offline"
    );
    assert_eq!(ApiError::ParseError("bad".to_string()).to_string(), "Parse error: bad");
    assert_eq!(
        ApiError::ServerError(404, "HTTP 404: Not Found".to_string()).to_string(),
        "Server error 404: HTTP 404: Not Found"
    );
    assert_eq!(ApiError::Timeout.to_string(), "Request timeout");
    assert_eq!(ApiError::NotFound.to_string(), "Resource not found");
}

#[test]
fn decimal_notation() {
    assert_eq!(decimal(0), "0");
    assert_eq!(decimal(7), "7");
    assert_eq!(decimal(10), "10");
    assert_eq!(decimal(500), "500");
    assert_eq!(decimal(u16::MAX), "65535");
}

#[test]
fn bearer_token_extraction() {
    assert_eq!(bearer_token("Bearer abc.def"), Some("abc.def".to_string()));
    assert_eq!(bearer_token("Bearer "), Some(String::new()));
    assert_eq!(bearer_token("Bearer Bearer xyz"), Some("xyz".to_string()));
    assert_eq!(bearer_token("Basic abc"), None);
    assert_eq!(bearer_token("bearer abc"), None);
    assert_eq!(bearer_token("Bearer"), None);
    assert_eq!(bearer_token(""), None);
}
