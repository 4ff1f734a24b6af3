//! Web API bindings: the API handles that a script host installs, the canvas
//! enumerations, and the errors of the translation layer.
use vstd::prelude::*;
use std::time::Instant;
use crate::string_map::StringMap;

verus! {

/// Web API error types.
#[derive(Debug, Clone, PartialEq, Eq)]
pub enum WebApiError {
    JsError(String),
    NotImplemented(String),
    InvalidArgument(String),
    SecurityError(String),
    NetworkError(String),
}

impl WebApiError {
    /// The error's message, as it is displayed.
    pub fn message(&self) -> (r: String)
        ensures
            r@ == spec_web_api_error_message(*self),
    {
        let (prefix, detail) = match self {
            WebApiError::JsError(e) => ("JavaScript error: ", e),
            WebApiError::NotImplemented(api) => ("Not implemented: ", api),
            WebApiError::InvalidArgument(msg) => ("Invalid argument: ", msg),
            WebApiError::SecurityError(msg) => ("Security error: ", msg),
            WebApiError::NetworkError(msg) => ("Network error: ", msg),
        };
        crate::strs::concat(prefix, detail.as_str())
    }
}

/// The displayed message of a Web API error.
pub open spec fn spec_web_api_error_message(e: WebApiError) -> Seq<char> {
    match e {
        WebApiError::JsError(m) => "JavaScript error: "@ + m@,
        WebApiError::NotImplemented(m) => "Not implemented: "@ + m@,
        WebApiError::InvalidArgument(m) => "Invalid argument: "@ + m@,
        WebApiError::SecurityError(m) => "Security error: "@ + m@,
        WebApiError::NetworkError(m) => "Network error: "@ + m@,
    }
}

/// Canvas line cap style.
#[derive(Debug, Clone, Copy, PartialEq, Eq, Structural)]
pub enum LineCap {
    Butt,
    Round,
    Square,
}

/// Canvas line join style.
#[derive(Debug, Clone, Copy, PartialEq, Eq, Structural)]
pub enum LineJoin {
    Miter,
    Round,
    Bevel,
}

/// Canvas text alignment.
#[derive(Debug, Clone, Copy, PartialEq, Eq, Structural)]
pub enum TextAlign {
    Start,
    End,
    Left,
    Right,
    Center,
}

/// Canvas text baseline.
#[derive(Debug, Clone, Copy, PartialEq, Eq, Structural)]
pub enum TextBaseline {
    Top,
    Hanging,
    Middle,
    Alphabetic,
    Ideographic,
    Bottom,
}

/// Canvas API bindings.
pub struct CanvasApi;

/// Console API bindings.
pub struct ConsoleApi;

/// Crypto API bindings.
pub struct CryptoApi;

/// Event API bindings.
pub struct EventApi;

/// Fetch API bindings.
pub struct FetchApi;

/// Geolocation API bindings.
pub struct GeolocationApi;

/// Notification API bindings.
pub struct NotificationApi;

/// Timer API bindings.
pub struct TimerApi;

/// URL API bindings.
pub struct UrlApi;

/// WebSocket API bindings.
pub struct WebSocketApi;

/// std's monotonic clock reading, carried as it is.
#[verifier::external_type_specification]
#[verifier::external_body]
pub struct ExInstant(std::time::Instant);

/// The current instant (std's `Instant::now`); nothing is known of it.
#[verifier::external_body]
fn instant_now() -> Instant {
    Instant::now()
}

/// Performance API bindings: the instant that `performance.now()` counts from.
pub struct PerformanceApi {
    pub start_time: Instant,
}

impl PerformanceApi {
    /// Create the API, counting from now.
    pub fn new() -> (r: Self) {
        PerformanceApi { start_time: instant_now() }
    }
}

/// Web Storage API bindings: the local and the session store.
pub struct StorageApi {
    pub local_storage: StringMap<String>,
    pub session_storage: StringMap<String>,
}

impl StorageApi {
    /// Create the API with both stores empty.
    pub fn new() -> (r: Self)
        ensures
            r.local_storage.wf() && r.local_storage.map() == Map::<Seq<char>, String>::empty(),
            r.session_storage.wf() && r.session_storage.map() == Map::<Seq<char>, String>::empty(),
    {
        StorageApi { local_storage: StringMap::new(), session_storage: StringMap::new() }
    }
}

} // verus!
