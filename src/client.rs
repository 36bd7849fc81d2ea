//! The client side of the forecast service: the endpoint a client talks to,
//! the errors a request can end in, and the plain answers it receives.

use vstd::prelude::*;
use vstd::string::StringExecFns;

verus! {

/// Endpoint of a development build.
pub const DEVELOPMENT_API_URL: &'static str = "http://localhost:8080";

/// Endpoint of a release build when none is configured.
pub const PRODUCTION_API_URL: &'static str = "https://fishing-forecast-api.shuttleapp.rs";

/// How a request to the service failed.
#[derive(Clone, Debug)]
pub enum ApiError {
    NetworkError(String),
    ParseError(String),
    ServerError(u16, String),
    Timeout,
    NotFound,
}

/// The character of a decimal digit.
pub open spec fn digit_char(d: nat) -> char {
    if d == 0 { '0' } else if d == 1 { '1' } else if d == 2 { '2' } else if d == 3 { '3' }
    else if d == 4 { '4' } else if d == 5 { '5' } else if d == 6 { '6' } else if d == 7 { '7' }
    else if d == 8 { '8' } else { '9' }
}

/// Decimal notation of a number, without leading zeros.
pub open spec fn decimal_of(n: nat) -> Seq<char>
    decreases n,
{
    if n < 10 {
        seq![digit_char(n)]
    } else {
        decimal_of(n / 10).push(digit_char(n % 10))
    }
}

/// Text of an error, as it is shown to the user.
pub open spec fn api_error_message(e: ApiError) -> Seq<char> {
    match e {
        ApiError::NetworkError(msg) => "Network error: "@ + msg@,
        ApiError::ParseError(msg) => "Parse error: "@ + msg@,
        ApiError::ServerError(code, msg) => "Server error "@ + decimal_of(code as nat) + ": "@ + msg@,
        ApiError::Timeout => "Request timeout"@,
        ApiError::NotFound => "Resource not found"@,
    }
}

fn digit_str(d: u16) -> (r: &'static str)
    requires
        d < 10,
    ensures
        r@ == seq![digit_char(d as nat)],
{
    proof {
        reveal_strlit("0");
        reveal_strlit("1");
        reveal_strlit("2");
        reveal_strlit("3");
        reveal_strlit("4");
        reveal_strlit("5");
        reveal_strlit("6");
        reveal_strlit("7");
        reveal_strlit("8");
        reveal_strlit("9");
    }
    match d {
        0 => "0",
        1 => "1",
        2 => "2",
        3 => "3",
        4 => "4",
        5 => "5",
        6 => "6",
        7 => "7",
        8 => "8",
        _ => "9",
    }
}

/// Decimal notation of `n`.
pub fn decimal(n: u16) -> (r: String)
    ensures
        r@ == decimal_of(n as nat),
    decreases n,
{
    if n < 10 {
        digit_str(n).to_string()
    } else {
        let mut s = decimal(n / 10);
        s.append(digit_str(n % 10));
        s
    }
}

impl ApiError {
    /// Text of the error, as it is shown to the user.
    pub fn to_string(&self) -> (r: String)
        ensures
            r@ == api_error_message(*self),
    {
        match self {
            ApiError::NetworkError(msg) => {
                let mut s = "Network error: ".to_string();
                s.append(msg.as_str());
                s
            },
            ApiError::ParseError(msg) => {
                let mut s = "Parse error: ".to_string();
                s.append(msg.as_str());
                s
            },
            ApiError::ServerError(code, msg) => {
                let mut s = "Server error ".to_string();
                let digits = decimal(*code);
                s.append(digits.as_str());
                s.append(": ");
                s.append(msg.as_str());
                s
            },
            ApiError::Timeout => "Request timeout".to_string(),
            ApiError::NotFound => "Resource not found".to_string(),
        }
    }
}

/// Country of a location, as the service reports it.
#[derive(Clone, Debug)]
pub struct CountryInfo {
    pub country_code: String,
    pub country_name: String,
    pub supported: bool,
}

/// Verdict on a catch against the local regulations.
#[derive(Clone, Debug)]
pub struct ValidationResult {
    pub allowed: bool,
    pub errors: Vec<String>,
    pub warnings: Vec<String>,
}

/// Client of the forecast service, bound to one endpoint.
#[derive(Clone)]
pub struct ApiClient {
    base_url: String,
}

impl View for ApiClient {
    type V = Seq<char>;

    /// The endpoint the client talks to.
    closed spec fn view(&self) -> Seq<char> {
        self.base_url@
    }
}

impl ApiClient {
    /// A client of the service at `base_url`.
    pub fn new(base_url: &str) -> (r: ApiClient)
        ensures
            r@ == base_url@,
    {
        ApiClient { base_url: base_url.to_string() }
    }

    /// A client of the development endpoint.
    pub fn new_auto() -> (r: ApiClient)
        ensures
            r@ == DEVELOPMENT_API_URL@,
    {
        ApiClient::new(DEVELOPMENT_API_URL)
    }

    /// A client of the configured endpoint, or of the production endpoint
    /// when none is configured.
    pub fn from_configured(configured: Option<String>) -> (r: ApiClient)
        ensures
            configured is Some ==> r@ == configured->0@,
            configured is None ==> r@ == PRODUCTION_API_URL@,
    {
        match configured {
            Some(url) => ApiClient { base_url: url },
            None => ApiClient::new(PRODUCTION_API_URL),
        }
    }

    /// The endpoint the client talks to.
    pub fn base_url(&self) -> (r: &str)
        ensures
            r@ == self@,
    {
        self.base_url.as_str()
    }
}

/// Access to the device's position, in the browser client.
pub struct GeolocationService;

} // verus!
