//! Session Initiation Protocol vocabulary: request methods, status codes
//! with their reason phrases, and the shapes of messages and URIs.
use vstd::prelude::*;
use vstd::string::StrSliceExecFns;

verus! {

/// A `sip:` or `sips:` URI.
pub struct SipUri {
    pub user: Option<String>,
    pub password: Option<String>,
    pub host: String,
    pub port: Option<u16>,
    pub params: Vec<(String, String)>,
    pub headers: Vec<(String, String)>,
}

pub enum Uri {
    Sip(SipUri),
    Sips(SipUri),
    Other { schema: String, schema_specific_part: String },
}

pub struct Msg {
    pub start_line: StartLine,
    pub headers: Vec<Header>,
    pub body: Option<String>,
}

pub enum StartLine {
    Request(Request),
    Response(Status),
}

pub enum Method {
    Register,
    Invite,
    Ack,
    Cancel,
    Bye,
    Options,
    Other(String),
}

/// `a` and `b` hold the same characters.
fn same_text(a: &str, b: &str) -> (r: bool)
    ensures
        r == (a@ == b@),
{
    let n = a.unicode_len();
    if n != b.unicode_len() {
        return false;
    }
    let mut i: usize = 0;
    while i < n
        invariant
            n == a@.len(),
            n == b@.len(),
            i <= n,
            forall|j: int| 0 <= j < i ==> a@[j] == b@[j],
        decreases n - i,
    {
        if a.get_char(i) != b.get_char(i) {
            return false;
        }
        i = i + 1;
    }
    assert(a@ =~= b@);
    true
}

/// `name` is one of the methods with a variant of their own.
pub open spec fn is_standard_method(name: Seq<char>) -> bool {
    ||| name == "REGISTER"@
    ||| name == "INVITE"@
    ||| name == "ACK"@
    ||| name == "CANCEL"@
    ||| name == "BYE"@
    ||| name == "OPTIONS"@
}

impl Method {
    /// The method's name as it appears on the wire.
    pub open spec fn name(&self) -> Seq<char> {
        match self {
            Method::Register => "REGISTER"@,
            Method::Invite => "INVITE"@,
            Method::Ack => "ACK"@,
            Method::Cancel => "CANCEL"@,
            Method::Bye => "BYE"@,
            Method::Options => "OPTIONS"@,
            Method::Other(s) => s@,
        }
    }

    pub fn from_str(s: &str) -> (r: Self)
        ensures
            r.name() == s@,
            (r is Other) == !is_standard_method(s@),
    {
        if same_text(s, "REGISTER") {
            Method::Register
        } else if same_text(s, "INVITE") {
            Method::Invite
        } else if same_text(s, "ACK") {
            Method::Ack
        } else if same_text(s, "CANCEL") {
            Method::Cancel
        } else if same_text(s, "BYE") {
            Method::Bye
        } else if same_text(s, "OPTIONS") {
            Method::Options
        } else {
            Method::Other(s.to_owned())
        }
    }

    pub fn to_str(&self) -> (r: &str)
        ensures
            r@ == self.name(),
    {
        match self {
            Method::Register => "REGISTER",
            Method::Invite => "INVITE",
            Method::Ack => "ACK",
            Method::Cancel => "CANCEL",
            Method::Bye => "BYE",
            Method::Options => "OPTIONS",
            Method::Other(s) => s.as_str(),
        }
    }
}

#[derive(Clone, Copy, PartialEq, Eq, Structural, Debug)]
pub enum StatusCode {
    Trying,
    Ringing,
    CallBeingForwarded,
    Queued,
    SessionProgress,
    OK,
    MultipleChoices,
    MovedPermanently,
    MovedTemporarily,
    UseProxy,
    AlternativeService,
    BadRequest,
    Unauthorized,
    PaymentRequired,
    Forbidden,
    NotFound,
    MethodNotAllowed,
    NotAcceptable406,
    ProxyAuthenticationRequired,
    RequestTimeout,
    Gone,
    RequestEntityTooLarge,
    RequestUriTooLong,
    UnsupportedMediaType,
    UnsupportedUriScheme,
    BadExtension,
    ExtensionRequired,
    IntervalTooBrief,
    TemporarilyUnavailable,
    CallOrTransactionDoesNotExist,
    LoopDetected,
    TooManyHops,
    AddressIncomplete,
    Ambiguous,
    BusyHere,
    RequestTerminated,
    NotAcceptableHere,
    RequestPending,
    Undecipherable,
    ServerInternalError,
    NotImplemented,
    BadGateway,
    ServiceUnavailable,
    ServerTimeout,
    VersionNotSupported,
    MessageTooLarge,
    BusyEverywhere,
    Decline,
    DoesNotExistAnywhere,
    NotAcceptable606,
}

/// The status code with numeric value `code`, if it is one this library names.
pub open spec fn status_from_code(code: u16) -> Option<StatusCode> {
    if code == 100 {
        Some(StatusCode::Trying)
    } else if code == 180 {
        Some(StatusCode::Ringing)
    } else if code == 181 {
        Some(StatusCode::CallBeingForwarded)
    } else if code == 182 {
        Some(StatusCode::Queued)
    } else if code == 183 {
        Some(StatusCode::SessionProgress)
    } else if code == 200 {
        Some(StatusCode::OK)
    } else if code == 300 {
        Some(StatusCode::MultipleChoices)
    } else if code == 301 {
        Some(StatusCode::MovedPermanently)
    } else if code == 302 {
        Some(StatusCode::MovedTemporarily)
    } else if code == 305 {
        Some(StatusCode::UseProxy)
    } else if code == 380 {
        Some(StatusCode::AlternativeService)
    } else if code == 400 {
        Some(StatusCode::BadRequest)
    } else if code == 401 {
        Some(StatusCode::Unauthorized)
    } else if code == 402 {
        Some(StatusCode::PaymentRequired)
    } else if code == 403 {
        Some(StatusCode::Forbidden)
    } else if code == 404 {
        Some(StatusCode::NotFound)
    } else if code == 405 {
        Some(StatusCode::MethodNotAllowed)
    } else if code == 406 {
        Some(StatusCode::NotAcceptable406)
    } else if code == 407 {
        Some(StatusCode::ProxyAuthenticationRequired)
    } else if code == 408 {
        Some(StatusCode::RequestTimeout)
    } else if code == 410 {
        Some(StatusCode::Gone)
    } else if code == 413 {
        Some(StatusCode::RequestEntityTooLarge)
    } else if code == 414 {
        Some(StatusCode::RequestUriTooLong)
    } else if code == 415 {
        Some(StatusCode::UnsupportedMediaType)
    } else if code == 416 {
        Some(StatusCode::UnsupportedUriScheme)
    } else if code == 420 {
        Some(StatusCode::BadExtension)
    } else if code == 421 {
        Some(StatusCode::ExtensionRequired)
    } else if code == 423 {
        Some(StatusCode::IntervalTooBrief)
    } else if code == 480 {
        Some(StatusCode::TemporarilyUnavailable)
    } else if code == 481 {
        Some(StatusCode::CallOrTransactionDoesNotExist)
    } else if code == 482 {
        Some(StatusCode::LoopDetected)
    } else if code == 483 {
        Some(StatusCode::TooManyHops)
    } else if code == 484 {
        Some(StatusCode::AddressIncomplete)
    } else if code == 485 {
        Some(StatusCode::Ambiguous)
    } else if code == 486 {
        Some(StatusCode::BusyHere)
    } else if code == 487 {
        Some(StatusCode::RequestTerminated)
    } else if code == 488 {
        Some(StatusCode::NotAcceptableHere)
    } else if code == 491 {
        Some(StatusCode::RequestPending)
    } else if code == 493 {
        Some(StatusCode::Undecipherable)
    } else if code == 500 {
        Some(StatusCode::ServerInternalError)
    } else if code == 501 {
        Some(StatusCode::NotImplemented)
    } else if code == 502 {
        Some(StatusCode::BadGateway)
    } else if code == 503 {
        Some(StatusCode::ServiceUnavailable)
    } else if code == 504 {
        Some(StatusCode::ServerTimeout)
    } else if code == 505 {
        Some(StatusCode::VersionNotSupported)
    } else if code == 513 {
        Some(StatusCode::MessageTooLarge)
    } else if code == 600 {
        Some(StatusCode::BusyEverywhere)
    } else if code == 603 {
        Some(StatusCode::Decline)
    } else if code == 604 {
        Some(StatusCode::DoesNotExistAnywhere)
    } else if code == 606 {
        Some(StatusCode::NotAcceptable606)
    } else {
        None
    }
}

impl StatusCode {
    /// The numeric value of the status code.
    pub open spec fn code(self) -> u16 {
        match self {
            StatusCode::Trying => 100,
            StatusCode::Ringing => 180,
            StatusCode::CallBeingForwarded => 181,
            StatusCode::Queued => 182,
            StatusCode::SessionProgress => 183,
            StatusCode::OK => 200,
            StatusCode::MultipleChoices => 300,
            StatusCode::MovedPermanently => 301,
            StatusCode::MovedTemporarily => 302,
            StatusCode::UseProxy => 305,
            StatusCode::AlternativeService => 380,
            StatusCode::BadRequest => 400,
            StatusCode::Unauthorized => 401,
            StatusCode::PaymentRequired => 402,
            StatusCode::Forbidden => 403,
            StatusCode::NotFound => 404,
            StatusCode::MethodNotAllowed => 405,
            StatusCode::NotAcceptable406 => 406,
            StatusCode::ProxyAuthenticationRequired => 407,
            StatusCode::RequestTimeout => 408,
            StatusCode::Gone => 410,
            StatusCode::RequestEntityTooLarge => 413,
            StatusCode::RequestUriTooLong => 414,
            StatusCode::UnsupportedMediaType => 415,
            StatusCode::UnsupportedUriScheme => 416,
            StatusCode::BadExtension => 420,
            StatusCode::ExtensionRequired => 421,
            StatusCode::IntervalTooBrief => 423,
            StatusCode::TemporarilyUnavailable => 480,
            StatusCode::CallOrTransactionDoesNotExist => 481,
            StatusCode::LoopDetected => 482,
            StatusCode::TooManyHops => 483,
            StatusCode::AddressIncomplete => 484,
            StatusCode::Ambiguous => 485,
            StatusCode::BusyHere => 486,
            StatusCode::RequestTerminated => 487,
            StatusCode::NotAcceptableHere => 488,
            StatusCode::RequestPending => 491,
            StatusCode::Undecipherable => 493,
            StatusCode::ServerInternalError => 500,
            StatusCode::NotImplemented => 501,
            StatusCode::BadGateway => 502,
            StatusCode::ServiceUnavailable => 503,
            StatusCode::ServerTimeout => 504,
            StatusCode::VersionNotSupported => 505,
            StatusCode::MessageTooLarge => 513,
            StatusCode::BusyEverywhere => 600,
            StatusCode::Decline => 603,
            StatusCode::DoesNotExistAnywhere => 604,
            StatusCode::NotAcceptable606 => 606,
        }
    }

    /// The reason phrase that accompanies the code.
    pub open spec fn reason(self) -> Seq<char> {
        match self {
            StatusCode::Trying => "Trying"@,
            StatusCode::Ringing => "Ringing"@,
            StatusCode::CallBeingForwarded => "Call Is Being Forwarded"@,
            StatusCode::Queued => "Queued"@,
            StatusCode::SessionProgress => "Session Progress"@,
            StatusCode::OK => "OK"@,
            StatusCode::MultipleChoices => "Multiple Choices"@,
            StatusCode::MovedPermanently => "Moved Permanently"@,
            StatusCode::MovedTemporarily => "Moved Temporarily"@,
            StatusCode::UseProxy => "Use Proxy"@,
            StatusCode::AlternativeService => "Alternative Service"@,
            StatusCode::BadRequest => "Bad Request"@,
            StatusCode::Unauthorized => "Unauthorized"@,
            StatusCode::PaymentRequired => "Payment Required"@,
            StatusCode::Forbidden => "Forbidden"@,
            StatusCode::NotFound => "Not Found"@,
            StatusCode::MethodNotAllowed => "Method Not Allowed"@,
            StatusCode::NotAcceptable406 => "Not Acceptable"@,
            StatusCode::ProxyAuthenticationRequired => "Proxy Authentication Required"@,
            StatusCode::RequestTimeout => "Request Timeout"@,
            StatusCode::Gone => "Gone"@,
            StatusCode::RequestEntityTooLarge => "Request Entity Too Large"@,
            StatusCode::RequestUriTooLong => "Request-URI Too Long"@,
            StatusCode::UnsupportedMediaType => "Unsupported Media Type"@,
            StatusCode::UnsupportedUriScheme => "Unsupported URI Scheme"@,
            StatusCode::BadExtension => "Bad Extension"@,
            StatusCode::ExtensionRequired => "Extension Required"@,
            StatusCode::IntervalTooBrief => "Interval Too Brief"@,
            StatusCode::TemporarilyUnavailable => "Temporarily Unavailable"@,
            StatusCode::CallOrTransactionDoesNotExist => "Call/Transaction Does Not Exist"@,
            StatusCode::LoopDetected => "Loop Detected"@,
            StatusCode::TooManyHops => "Too Many Hops"@,
            StatusCode::AddressIncomplete => "Address Incomplete"@,
            StatusCode::Ambiguous => "Ambiguous"@,
            StatusCode::BusyHere => "Busy Here"@,
            StatusCode::RequestTerminated => "Request Terminated"@,
            StatusCode::NotAcceptableHere => "Not Acceptable Here"@,
            StatusCode::RequestPending => "Request Pending"@,
            StatusCode::Undecipherable => "Undecipherable"@,
            StatusCode::ServerInternalError => "Server Internal Error"@,
            StatusCode::NotImplemented => "Not Implemented"@,
            StatusCode::BadGateway => "Bad Gateway"@,
            StatusCode::ServiceUnavailable => "Service Unavailable"@,
            StatusCode::ServerTimeout => "Server Time-out"@,
            StatusCode::VersionNotSupported => "Version Not Supported"@,
            StatusCode::MessageTooLarge => "Message Too Large"@,
            StatusCode::BusyEverywhere => "Busy Everywhere"@,
            StatusCode::Decline => "Decline"@,
            StatusCode::DoesNotExistAnywhere => "Does Not Exist Anywhere"@,
            StatusCode::NotAcceptable606 => "Not Acceptable"@,
        }
    }

    pub fn from_code(code: u16) -> (r: Option<StatusCode>)
        ensures
            r == status_from_code(code),
    {
        match code {
            100 => Some(StatusCode::Trying),
            180 => Some(StatusCode::Ringing),
            181 => Some(StatusCode::CallBeingForwarded),
            182 => Some(StatusCode::Queued),
            183 => Some(StatusCode::SessionProgress),
            200 => Some(StatusCode::OK),
            300 => Some(StatusCode::MultipleChoices),
            301 => Some(StatusCode::MovedPermanently),
            302 => Some(StatusCode::MovedTemporarily),
            305 => Some(StatusCode::UseProxy),
            380 => Some(StatusCode::AlternativeService),
            400 => Some(StatusCode::BadRequest),
            401 => Some(StatusCode::Unauthorized),
            402 => Some(StatusCode::PaymentRequired),
            403 => Some(StatusCode::Forbidden),
            404 => Some(StatusCode::NotFound),
            405 => Some(StatusCode::MethodNotAllowed),
            406 => Some(StatusCode::NotAcceptable406),
            407 => Some(StatusCode::ProxyAuthenticationRequired),
            408 => Some(StatusCode::RequestTimeout),
            410 => Some(StatusCode::Gone),
            413 => Some(StatusCode::RequestEntityTooLarge),
            414 => Some(StatusCode::RequestUriTooLong),
            415 => Some(StatusCode::UnsupportedMediaType),
            416 => Some(StatusCode::UnsupportedUriScheme),
            420 => Some(StatusCode::BadExtension),
            421 => Some(StatusCode::ExtensionRequired),
            423 => Some(StatusCode::IntervalTooBrief),
            480 => Some(StatusCode::TemporarilyUnavailable),
            481 => Some(StatusCode::CallOrTransactionDoesNotExist),
            482 => Some(StatusCode::LoopDetected),
            483 => Some(StatusCode::TooManyHops),
            484 => Some(StatusCode::AddressIncomplete),
            485 => Some(StatusCode::Ambiguous),
            486 => Some(StatusCode::BusyHere),
            487 => Some(StatusCode::RequestTerminated),
            488 => Some(StatusCode::NotAcceptableHere),
            491 => Some(StatusCode::RequestPending),
            493 => Some(StatusCode::Undecipherable),
            500 => Some(StatusCode::ServerInternalError),
            501 => Some(StatusCode::NotImplemented),
            502 => Some(StatusCode::BadGateway),
            503 => Some(StatusCode::ServiceUnavailable),
            504 => Some(StatusCode::ServerTimeout),
            505 => Some(StatusCode::VersionNotSupported),
            513 => Some(StatusCode::MessageTooLarge),
            600 => Some(StatusCode::BusyEverywhere),
            603 => Some(StatusCode::Decline),
            604 => Some(StatusCode::DoesNotExistAnywhere),
            606 => Some(StatusCode::NotAcceptable606),
            _ => None,
        }
    }

    pub fn to_code(&self) -> (r: u16)
        ensures
            r == self.code(),
    {
        match self {
            StatusCode::Trying => 100,
            StatusCode::Ringing => 180,
            StatusCode::CallBeingForwarded => 181,
            StatusCode::Queued => 182,
            StatusCode::SessionProgress => 183,
            StatusCode::OK => 200,
            StatusCode::MultipleChoices => 300,
            StatusCode::MovedPermanently => 301,
            StatusCode::MovedTemporarily => 302,
            StatusCode::UseProxy => 305,
            StatusCode::AlternativeService => 380,
            StatusCode::BadRequest => 400,
            StatusCode::Unauthorized => 401,
            StatusCode::PaymentRequired => 402,
            StatusCode::Forbidden => 403,
            StatusCode::NotFound => 404,
            StatusCode::MethodNotAllowed => 405,
            StatusCode::NotAcceptable406 => 406,
            StatusCode::ProxyAuthenticationRequired => 407,
            StatusCode::RequestTimeout => 408,
            StatusCode::Gone => 410,
            StatusCode::RequestEntityTooLarge => 413,
            StatusCode::RequestUriTooLong => 414,
            StatusCode::UnsupportedMediaType => 415,
            StatusCode::UnsupportedUriScheme => 416,
            StatusCode::BadExtension => 420,
            StatusCode::ExtensionRequired => 421,
            StatusCode::IntervalTooBrief => 423,
            StatusCode::TemporarilyUnavailable => 480,
            StatusCode::CallOrTransactionDoesNotExist => 481,
            StatusCode::LoopDetected => 482,
            StatusCode::TooManyHops => 483,
            StatusCode::AddressIncomplete => 484,
            StatusCode::Ambiguous => 485,
            StatusCode::BusyHere => 486,
            StatusCode::RequestTerminated => 487,
            StatusCode::NotAcceptableHere => 488,
            StatusCode::RequestPending => 491,
            StatusCode::Undecipherable => 493,
            StatusCode::ServerInternalError => 500,
            StatusCode::NotImplemented => 501,
            StatusCode::BadGateway => 502,
            StatusCode::ServiceUnavailable => 503,
            StatusCode::ServerTimeout => 504,
            StatusCode::VersionNotSupported => 505,
            StatusCode::MessageTooLarge => 513,
            StatusCode::BusyEverywhere => 600,
            StatusCode::Decline => 603,
            StatusCode::DoesNotExistAnywhere => 604,
            StatusCode::NotAcceptable606 => 606,
        }
    }

    pub fn to_reason_phrase(&self) -> (r: &'static str)
        ensures
            r@ == self.reason(),
    {
        match self {
            StatusCode::Trying => "Trying",
            StatusCode::Ringing => "Ringing",
            StatusCode::CallBeingForwarded => "Call Is Being Forwarded",
            StatusCode::Queued => "Queued",
            StatusCode::SessionProgress => "Session Progress",
            StatusCode::OK => "OK",
            StatusCode::MultipleChoices => "Multiple Choices",
            StatusCode::MovedPermanently => "Moved Permanently",
            StatusCode::MovedTemporarily => "Moved Temporarily",
            StatusCode::UseProxy => "Use Proxy",
            StatusCode::AlternativeService => "Alternative Service",
            StatusCode::BadRequest => "Bad Request",
            StatusCode::Unauthorized => "Unauthorized",
            StatusCode::PaymentRequired => "Payment Required",
            StatusCode::Forbidden => "Forbidden",
            StatusCode::NotFound => "Not Found",
            StatusCode::MethodNotAllowed => "Method Not Allowed",
            StatusCode::NotAcceptable406 => "Not Acceptable",
            StatusCode::ProxyAuthenticationRequired => "Proxy Authentication Required",
            StatusCode::RequestTimeout => "Request Timeout",
            StatusCode::Gone => "Gone",
            StatusCode::RequestEntityTooLarge => "Request Entity Too Large",
            StatusCode::RequestUriTooLong => "Request-URI Too Long",
            StatusCode::UnsupportedMediaType => "Unsupported Media Type",
            StatusCode::UnsupportedUriScheme => "Unsupported URI Scheme",
            StatusCode::BadExtension => "Bad Extension",
            StatusCode::ExtensionRequired => "Extension Required",
            StatusCode::IntervalTooBrief => "Interval Too Brief",
            StatusCode::TemporarilyUnavailable => "Temporarily Unavailable",
            StatusCode::CallOrTransactionDoesNotExist => "Call/Transaction Does Not Exist",
            StatusCode::LoopDetected => "Loop Detected",
            StatusCode::TooManyHops => "Too Many Hops",
            StatusCode::AddressIncomplete => "Address Incomplete",
            StatusCode::Ambiguous => "Ambiguous",
            StatusCode::BusyHere => "Busy Here",
            StatusCode::RequestTerminated => "Request Terminated",
            StatusCode::NotAcceptableHere => "Not Acceptable Here",
            StatusCode::RequestPending => "Request Pending",
            StatusCode::Undecipherable => "Undecipherable",
            StatusCode::ServerInternalError => "Server Internal Error",
            StatusCode::NotImplemented => "Not Implemented",
            StatusCode::BadGateway => "Bad Gateway",
            StatusCode::ServiceUnavailable => "Service Unavailable",
            StatusCode::ServerTimeout => "Server Time-out",
            StatusCode::VersionNotSupported => "Version Not Supported",
            StatusCode::MessageTooLarge => "Message Too Large",
            StatusCode::BusyEverywhere => "Busy Everywhere",
            StatusCode::Decline => "Decline",
            StatusCode::DoesNotExistAnywhere => "Does Not Exist Anywhere",
            StatusCode::NotAcceptable606 => "Not Acceptable",
        }
    }
}

/// Every status code survives the trip to its number and back.
pub proof fn lemma_code_round_trip(s: StatusCode)
    ensures
        status_from_code(s.code()) == Some(s),
{
}

/// A number that names a status code is that code's number.
pub proof fn lemma_code_names_status(code: u16)
    requires
        status_from_code(code) is Some,
    ensures
        status_from_code(code)->0.code() == code,
{
}

pub enum Version {
    V1,
    V2,
    Other(String),
}

pub struct Request {
    pub method: Method,
    pub uri: Uri,
    pub version: Version,
}

pub struct Status {
    pub version: Version,
    pub status: StatusCode,
}

pub struct Header {
    pub name: String,
    pub value: String,
}

} // verus!
