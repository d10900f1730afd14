//! The closed set of errors the service reports.
use vstd::prelude::*;
use vstd::string::*;

verus! {

/// A failure reported by the wallet backend.
pub enum RGBError {
    /// The backend could not reach its node or failed internally.
    Online(String),
    /// An invoice could not be produced.
    Invoice(String),
    /// Any other rejection by the backend's rules (unknown asset,
    /// insufficient funds, invalid input, ...).
    Rejected(String),
}

impl RGBError {
    /// The description the backend gave.
    pub open spec fn description(&self) -> Seq<char> {
        match self {
            RGBError::Online(m) => m@,
            RGBError::Invoice(m) => m@,
            RGBError::Rejected(m) => m@,
        }
    }

    /// Whether the cause must stay hidden from clients.
    pub open spec fn is_masked(&self) -> bool {
        self is Online || self is Invoice
    }

    pub fn message(&self) -> (r: String)
        ensures
            r@ == self.description(),
    {
        match self {
            RGBError::Online(m) => m.clone(),
            RGBError::Invoice(m) => m.clone(),
            RGBError::Rejected(m) => m.clone(),
        }
    }
}

/// A failure of loading the configuration at startup.
pub struct ConfigError {
    pub message: String,
}

/// A failure of the HTTP listener.
pub enum WebServerError {
    /// The configured address could not be bound.
    Listener(String),
    /// The serving loop stopped with an error.
    Serve(String),
}

impl WebServerError {
    pub open spec fn description(&self) -> Seq<char> {
        match self {
            WebServerError::Listener(m) => "Listener error: "@ + m@,
            WebServerError::Serve(m) => "Serve error: "@ + m@,
        }
    }

    pub fn message(&self) -> (r: String)
        ensures
            r@ == self.description(),
    {
        match self {
            WebServerError::Listener(m) => {
                let mut s = String::from_str("Listener error: ");
                s.append(m.as_str());
                s
            },
            WebServerError::Serve(m) => {
                let mut s = String::from_str("Serve error: ");
                s.append(m.as_str());
                s
            },
        }
    }
}

/// Every error the service reports.
pub enum ApplicationError {
    Config(ConfigError),
    RGB(RGBError),
    WebServer(WebServerError),
}

impl ApplicationError {
    pub open spec fn description(&self) -> Seq<char> {
        match self {
            ApplicationError::Config(e) => e.message@,
            ApplicationError::RGB(e) => "RGB Error: "@ + e.description(),
            ApplicationError::WebServer(e) => "Web Server Error: "@ + e.description(),
        }
    }

    /// The full text of the error, as written to the log.
    pub fn message(&self) -> (r: String)
        ensures
            r@ == self.description(),
    {
        match self {
            ApplicationError::Config(e) => e.message.clone(),
            ApplicationError::RGB(e) => {
                let mut s = String::from_str("RGB Error: ");
                let inner = e.message();
                s.append(inner.as_str());
                s
            },
            ApplicationError::WebServer(e) => {
                let mut s = String::from_str("Web Server Error: ");
                let inner = e.message();
                s.append(inner.as_str());
                s
            },
        }
    }
}

impl From<RGBError> for ApplicationError {
    fn from(e: RGBError) -> (r: ApplicationError)
        ensures
            r == ApplicationError::RGB(e),
    {
        ApplicationError::RGB(e)
    }
}

impl vstd::std_specs::convert::FromSpecImpl<RGBError> for ApplicationError {
    open spec fn obeys_from_spec() -> bool {
        true
    }

    open spec fn from_spec(e: RGBError) -> ApplicationError {
        ApplicationError::RGB(e)
    }
}

impl From<WebServerError> for ApplicationError {
    fn from(e: WebServerError) -> (r: ApplicationError)
        ensures
            r == ApplicationError::WebServer(e),
    {
        ApplicationError::WebServer(e)
    }
}

impl vstd::std_specs::convert::FromSpecImpl<WebServerError> for ApplicationError {
    open spec fn obeys_from_spec() -> bool {
        true
    }

    open spec fn from_spec(e: WebServerError) -> ApplicationError {
        ApplicationError::WebServer(e)
    }
}

} // verus!
