//! The registry of HTTP status codes.
//!
//! [`HttpCode`] has one variant for each registered status code, one for the
//! absence of a code and one that carries any other number unchanged. The
//! registry itself is [`HttpCode::to_integer`], which gives each registered
//! variant its number; [`HttpCode::from_integer`] is the lookup in the other
//! direction.
//!
//! Each conversion is a function to call and, under its `spec_` name, the
//! definition that its contract and the laws speak of. In a contract the
//! function's own name stands for that definition.

use vstd::prelude::*;
use crate::laws::known_iff_registered;

verus! {

/// An HTTP status code.
///
/// A number that the registry does not hold is kept as [`HttpCode::Unknown`]
/// rather than rejected, so every `u32` has a code and no conversion fails.
#[derive(Copy, Clone, Debug, PartialEq, Eq, Structural)]
pub enum HttpCode {
    /// 100: the request may go on, or be ignored if it is already complete.
    Continue,
    /// 101: the server switches to the protocol named in the `Upgrade` header.
    SwitchingProtocols,
    /// 102 (WebDAV): the request is being processed, no response is ready yet.
    Processing,
    /// 103: the client may start preloading the linked resources.
    EarlyHints,
    /// 200: the request succeeded.
    OK,
    /// 201: the request succeeded and a resource was created.
    Created,
    /// 202: the request was received and has not been acted upon yet.
    Accepted,
    /// 203: the metadata comes from a copy, not from the origin server.
    NonAuthoritativeInformation,
    /// 204: there is no content to send, the headers may still be of use.
    NoContent,
    /// 205: the user agent should reset the document that sent the request.
    ResetContent,
    /// 206: only the requested range of the resource is sent.
    PartialContent,
    /// 207 (WebDAV): the body reports on several resources.
    MultiStatus,
    /// 208 (WebDAV): the members of this binding were listed before.
    AlreadyReported,
    /// 226 (delta encoding): the response is the result of instance
    /// manipulations applied to the current instance.
    ImUsed,
    /// 300: the request has more than one possible response.
    MultipleChoices,
    /// 301: the resource has moved for good to the given URL.
    MovedPermanently,
    /// 302: the resource is at another URI for the time being.
    Found,
    /// 303: the resource is to be fetched at another URI with a `GET`.
    SeeOther,
    /// 304: the cached copy is still good.
    NotModified,
    /// 307: as 302, and the method must not change.
    TemporaryRedirect,
    /// 308: as 301, and the method must not change.
    PermanentRedirect,
    /// 400: the server will not process what it takes for a client error.
    BadRequest,
    /// 401: the client must authenticate itself.
    Unauthorized,
    /// 402: reserved for future use.
    PaymentRequired,
    /// 403: the client is known and has no right to the content.
    Forbidden,
    /// 404: the server cannot find the resource.
    NotFound,
    /// 405: the resource does not support the request method.
    MethodNotAllowed,
    /// 406: no content matches the criteria the user agent gave.
    NotAcceptable,
    /// 407: as 401, and a proxy must do the authentication.
    ProxyAuthentificationRequired,
    /// 408: the server shuts down an idle connection.
    RequestTimeout,
    /// 409: the request conflicts with the state of the server.
    Conflict,
    /// 410: the content was deleted for good, with no forwarding address.
    Gone,
    /// 411: the `Content-Length` header is missing and required.
    LengthRequired,
    /// 412: the server does not meet the preconditions in the headers.
    PreconditionFailed,
    /// 413: the request entity is larger than the server accepts.
    PayloadTooLarge,
    /// 414: the URI is longer than the server is willing to read.
    UriTooLong,
    /// 415: the server does not support the media format of the data.
    UnsupportedMediaType,
    /// 416: the range in the `Range` header cannot be served.
    RangeNotSatisfiable,
    /// 417: the expectation in the `Expect` header cannot be met.
    ExpectationFailed,
    /// 418: the server refuses to brew coffee with a teapot.
    ImATeapot,
    /// 421: the request went to a server that cannot produce a response.
    MisdirectedRequest,
    /// 422 (WebDAV): the request is well formed and has semantic errors.
    UnprocessableContent,
    /// 423 (WebDAV): the resource is locked.
    Locked,
    /// 424 (WebDAV): a request that this one depends on failed.
    FailedDependency,
    /// 425: the server will not risk a request that might be replayed.
    TooEarly,
    /// 426: the client must upgrade to another protocol first.
    UpgradeRequired,
    /// 428: the origin server wants the request to be conditional.
    PreconditionRequired,
    /// 429: the user sent too many requests in a given time.
    TooManyRequests,
    /// 431: the header fields are too large for the server.
    RequestHeaderFieldsTooLarge,
    /// 451: the resource cannot be provided for legal reasons.
    UnavailableForLegalReasons,
    /// 500: the server met a situation that it cannot handle.
    InternalServerError,
    /// 501: the server does not support the request method.
    NotImplemented,
    /// 502: the gateway got an invalid response.
    BadGateway,
    /// 503: the server is not ready to handle the request.
    ServiceUnavailable,
    /// 504: the gateway got no response in time.
    GatewayTimeout,
    /// 505: the server does not support the HTTP version of the request.
    HttpVersionNotSupported,
    /// 506: the chosen variant is itself set up for content negotiation.
    VariantAlsoNegotiates,
    /// 507 (WebDAV): the server cannot store what the request needs.
    InsufficientStorage,
    /// 508 (WebDAV): the server found an infinite loop in the request.
    LoopDetected,
    /// 510: the request needs further extensions.
    NotExtended,
    /// 511: the client must authenticate itself to reach the network.
    NetworkAuthetificationRequired,
    /// No status code is present.
    Absent,
    /// A number that the registry does not hold, kept as it came.
    Unknown(u32),
}

impl HttpCode {
    /// A registered code: any variant but `Absent` and `Unknown`.
    pub open spec fn is_known(self) -> bool {
        !(self is Absent) && !(self is Unknown)
    }

    /// Whether the registry holds `value`: some registered variant has it
    /// for its number.
    pub open spec fn is_registered(value: u32) -> bool {
        exists|code: HttpCode| code.is_known() && #[trigger] code.to_integer() == value
    }

    /// The number of a code. This is the registry: it gives every registered
    /// variant its three-digit number. `Unknown` gives the number it
    /// carries, and `Absent` gives 0, which is no status code and stands
    /// for absence.
    pub open spec fn spec_to_integer(self) -> u32 {
        match self {
            HttpCode::Continue => 100,
            HttpCode::SwitchingProtocols => 101,
            HttpCode::Processing => 102,
            HttpCode::EarlyHints => 103,
            HttpCode::OK => 200,
            HttpCode::Created => 201,
            HttpCode::Accepted => 202,
            HttpCode::NonAuthoritativeInformation => 203,
            HttpCode::NoContent => 204,
            HttpCode::ResetContent => 205,
            HttpCode::PartialContent => 206,
            HttpCode::MultiStatus => 207,
            HttpCode::AlreadyReported => 208,
            HttpCode::ImUsed => 226,
            HttpCode::MultipleChoices => 300,
            HttpCode::MovedPermanently => 301,
            HttpCode::Found => 302,
            HttpCode::SeeOther => 303,
            HttpCode::NotModified => 304,
            HttpCode::TemporaryRedirect => 307,
            HttpCode::PermanentRedirect => 308,
            HttpCode::BadRequest => 400,
            HttpCode::Unauthorized => 401,
            HttpCode::PaymentRequired => 402,
            HttpCode::Forbidden => 403,
            HttpCode::NotFound => 404,
            HttpCode::MethodNotAllowed => 405,
            HttpCode::NotAcceptable => 406,
            HttpCode::ProxyAuthentificationRequired => 407,
            HttpCode::RequestTimeout => 408,
            HttpCode::Conflict => 409,
            HttpCode::Gone => 410,
            HttpCode::LengthRequired => 411,
            HttpCode::PreconditionFailed => 412,
            HttpCode::PayloadTooLarge => 413,
            HttpCode::UriTooLong => 414,
            HttpCode::UnsupportedMediaType => 415,
            HttpCode::RangeNotSatisfiable => 416,
            HttpCode::ExpectationFailed => 417,
            HttpCode::ImATeapot => 418,
            HttpCode::MisdirectedRequest => 421,
            HttpCode::UnprocessableContent => 422,
            HttpCode::Locked => 423,
            HttpCode::FailedDependency => 424,
            HttpCode::TooEarly => 425,
            HttpCode::UpgradeRequired => 426,
            HttpCode::PreconditionRequired => 428,
            HttpCode::TooManyRequests => 429,
            HttpCode::RequestHeaderFieldsTooLarge => 431,
            HttpCode::UnavailableForLegalReasons => 451,
            HttpCode::InternalServerError => 500,
            HttpCode::NotImplemented => 501,
            HttpCode::BadGateway => 502,
            HttpCode::ServiceUnavailable => 503,
            HttpCode::GatewayTimeout => 504,
            HttpCode::HttpVersionNotSupported => 505,
            HttpCode::VariantAlsoNegotiates => 506,
            HttpCode::InsufficientStorage => 507,
            HttpCode::LoopDetected => 508,
            HttpCode::NotExtended => 510,
            HttpCode::NetworkAuthetificationRequired => 511,
            HttpCode::Absent => 0,
            HttpCode::Unknown(value) => value,
        }
    }

    /// The code of a number: the registered variant whose number it is, and
    /// `Unknown` with the number itself where the registry holds none. No
    /// number gives `Absent`.
    pub open spec fn spec_from_integer(value: u32) -> HttpCode {
        match value {
            100 => HttpCode::Continue,
            101 => HttpCode::SwitchingProtocols,
            102 => HttpCode::Processing,
            103 => HttpCode::EarlyHints,
            200 => HttpCode::OK,
            201 => HttpCode::Created,
            202 => HttpCode::Accepted,
            203 => HttpCode::NonAuthoritativeInformation,
            204 => HttpCode::NoContent,
            205 => HttpCode::ResetContent,
            206 => HttpCode::PartialContent,
            207 => HttpCode::MultiStatus,
            208 => HttpCode::AlreadyReported,
            226 => HttpCode::ImUsed,
            300 => HttpCode::MultipleChoices,
            301 => HttpCode::MovedPermanently,
            302 => HttpCode::Found,
            303 => HttpCode::SeeOther,
            304 => HttpCode::NotModified,
            307 => HttpCode::TemporaryRedirect,
            308 => HttpCode::PermanentRedirect,
            400 => HttpCode::BadRequest,
            401 => HttpCode::Unauthorized,
            402 => HttpCode::PaymentRequired,
            403 => HttpCode::Forbidden,
            404 => HttpCode::NotFound,
            405 => HttpCode::MethodNotAllowed,
            406 => HttpCode::NotAcceptable,
            407 => HttpCode::ProxyAuthentificationRequired,
            408 => HttpCode::RequestTimeout,
            409 => HttpCode::Conflict,
            410 => HttpCode::Gone,
            411 => HttpCode::LengthRequired,
            412 => HttpCode::PreconditionFailed,
            413 => HttpCode::PayloadTooLarge,
            414 => HttpCode::UriTooLong,
            415 => HttpCode::UnsupportedMediaType,
            416 => HttpCode::RangeNotSatisfiable,
            417 => HttpCode::ExpectationFailed,
            418 => HttpCode::ImATeapot,
            421 => HttpCode::MisdirectedRequest,
            422 => HttpCode::UnprocessableContent,
            423 => HttpCode::Locked,
            424 => HttpCode::FailedDependency,
            425 => HttpCode::TooEarly,
            426 => HttpCode::UpgradeRequired,
            428 => HttpCode::PreconditionRequired,
            429 => HttpCode::TooManyRequests,
            431 => HttpCode::RequestHeaderFieldsTooLarge,
            451 => HttpCode::UnavailableForLegalReasons,
            500 => HttpCode::InternalServerError,
            501 => HttpCode::NotImplemented,
            502 => HttpCode::BadGateway,
            503 => HttpCode::ServiceUnavailable,
            504 => HttpCode::GatewayTimeout,
            505 => HttpCode::HttpVersionNotSupported,
            506 => HttpCode::VariantAlsoNegotiates,
            507 => HttpCode::InsufficientStorage,
            508 => HttpCode::LoopDetected,
            510 => HttpCode::NotExtended,
            511 => HttpCode::NetworkAuthetificationRequired,
            _ => HttpCode::Unknown(value),
        }
    }

    /// The number of a code where there is one: nothing for `Absent`, and
    /// the code's number for every other code.
    pub open spec fn spec_to_optional_integer(self) -> Option<u32> {
        if self is Absent {
            None
        } else {
            Some(self.to_integer())
        }
    }

    /// The code of a number that may be missing: `Absent` for nothing, and
    /// the code of the number otherwise.
    pub open spec fn spec_from_optional_integer(value: Option<u32>) -> HttpCode {
        match value {
            None => HttpCode::Absent,
            Some(number) => HttpCode::from_integer(number),
        }
    }

    /// Looks `value` up in the registry. The code found has `value` for its
    /// number; it is a registered one exactly when the registry holds
    /// `value`, and `Unknown(value)` otherwise.
    #[verifier::when_used_as_spec(spec_from_integer)]
    pub fn from_integer(value: u32) -> (code: HttpCode)
        ensures
            code == HttpCode::spec_from_integer(value),
            code.to_integer() == value,
            code.is_known() <==> HttpCode::is_registered(value),
            !code.is_known() ==> code == HttpCode::Unknown(value),
    {
        proof {
            known_iff_registered(value);
        }
        match value {
            100 => HttpCode::Continue,
            101 => HttpCode::SwitchingProtocols,
            102 => HttpCode::Processing,
            103 => HttpCode::EarlyHints,
            200 => HttpCode::OK,
            201 => HttpCode::Created,
            202 => HttpCode::Accepted,
            203 => HttpCode::NonAuthoritativeInformation,
            204 => HttpCode::NoContent,
            205 => HttpCode::ResetContent,
            206 => HttpCode::PartialContent,
            207 => HttpCode::MultiStatus,
            208 => HttpCode::AlreadyReported,
            226 => HttpCode::ImUsed,
            300 => HttpCode::MultipleChoices,
            301 => HttpCode::MovedPermanently,
            302 => HttpCode::Found,
            303 => HttpCode::SeeOther,
            304 => HttpCode::NotModified,
            307 => HttpCode::TemporaryRedirect,
            308 => HttpCode::PermanentRedirect,
            400 => HttpCode::BadRequest,
            401 => HttpCode::Unauthorized,
            402 => HttpCode::PaymentRequired,
            403 => HttpCode::Forbidden,
            404 => HttpCode::NotFound,
            405 => HttpCode::MethodNotAllowed,
            406 => HttpCode::NotAcceptable,
            407 => HttpCode::ProxyAuthentificationRequired,
            408 => HttpCode::RequestTimeout,
            409 => HttpCode::Conflict,
            410 => HttpCode::Gone,
            411 => HttpCode::LengthRequired,
            412 => HttpCode::PreconditionFailed,
            413 => HttpCode::PayloadTooLarge,
            414 => HttpCode::UriTooLong,
            415 => HttpCode::UnsupportedMediaType,
            416 => HttpCode::RangeNotSatisfiable,
            417 => HttpCode::ExpectationFailed,
            418 => HttpCode::ImATeapot,
            421 => HttpCode::MisdirectedRequest,
            422 => HttpCode::UnprocessableContent,
            423 => HttpCode::Locked,
            424 => HttpCode::FailedDependency,
            425 => HttpCode::TooEarly,
            426 => HttpCode::UpgradeRequired,
            428 => HttpCode::PreconditionRequired,
            429 => HttpCode::TooManyRequests,
            431 => HttpCode::RequestHeaderFieldsTooLarge,
            451 => HttpCode::UnavailableForLegalReasons,
            500 => HttpCode::InternalServerError,
            501 => HttpCode::NotImplemented,
            502 => HttpCode::BadGateway,
            503 => HttpCode::ServiceUnavailable,
            504 => HttpCode::GatewayTimeout,
            505 => HttpCode::HttpVersionNotSupported,
            506 => HttpCode::VariantAlsoNegotiates,
            507 => HttpCode::InsufficientStorage,
            508 => HttpCode::LoopDetected,
            510 => HttpCode::NotExtended,
            511 => HttpCode::NetworkAuthetificationRequired,
            v => HttpCode::Unknown(v),
        }
    }

    /// `Absent` where there is no number, else the code of the number.
    #[verifier::when_used_as_spec(spec_from_optional_integer)]
    pub fn from_optional_integer(value: Option<u32>) -> (code: HttpCode)
        ensures
            code == HttpCode::spec_from_optional_integer(value),
            code is Absent <==> value is None,
    {
        match value {
            None => HttpCode::Absent,
            Some(v) => HttpCode::from_integer(v),
        }
    }

    /// The number of this code: that of the registry for a registered code,
    /// the number carried for `Unknown`, and 0 for `Absent`.
    #[verifier::when_used_as_spec(spec_to_integer)]
    pub fn to_integer(self) -> (number: u32)
        ensures
            number == self.spec_to_integer(),
    {
        match self {
            HttpCode::Continue => 100,
            HttpCode::SwitchingProtocols => 101,
            HttpCode::Processing => 102,
            HttpCode::EarlyHints => 103,
            HttpCode::OK => 200,
            HttpCode::Created => 201,
            HttpCode::Accepted => 202,
            HttpCode::NonAuthoritativeInformation => 203,
            HttpCode::NoContent => 204,
            HttpCode::ResetContent => 205,
            HttpCode::PartialContent => 206,
            HttpCode::MultiStatus => 207,
            HttpCode::AlreadyReported => 208,
            HttpCode::ImUsed => 226,
            HttpCode::MultipleChoices => 300,
            HttpCode::MovedPermanently => 301,
            HttpCode::Found => 302,
            HttpCode::SeeOther => 303,
            HttpCode::NotModified => 304,
            HttpCode::TemporaryRedirect => 307,
            HttpCode::PermanentRedirect => 308,
            HttpCode::BadRequest => 400,
            HttpCode::Unauthorized => 401,
            HttpCode::PaymentRequired => 402,
            HttpCode::Forbidden => 403,
            HttpCode::NotFound => 404,
            HttpCode::MethodNotAllowed => 405,
            HttpCode::NotAcceptable => 406,
            HttpCode::ProxyAuthentificationRequired => 407,
            HttpCode::RequestTimeout => 408,
            HttpCode::Conflict => 409,
            HttpCode::Gone => 410,
            HttpCode::LengthRequired => 411,
            HttpCode::PreconditionFailed => 412,
            HttpCode::PayloadTooLarge => 413,
            HttpCode::UriTooLong => 414,
            HttpCode::UnsupportedMediaType => 415,
            HttpCode::RangeNotSatisfiable => 416,
            HttpCode::ExpectationFailed => 417,
            HttpCode::ImATeapot => 418,
            HttpCode::MisdirectedRequest => 421,
            HttpCode::UnprocessableContent => 422,
            HttpCode::Locked => 423,
            HttpCode::FailedDependency => 424,
            HttpCode::TooEarly => 425,
            HttpCode::UpgradeRequired => 426,
            HttpCode::PreconditionRequired => 428,
            HttpCode::TooManyRequests => 429,
            HttpCode::RequestHeaderFieldsTooLarge => 431,
            HttpCode::UnavailableForLegalReasons => 451,
            HttpCode::InternalServerError => 500,
            HttpCode::NotImplemented => 501,
            HttpCode::BadGateway => 502,
            HttpCode::ServiceUnavailable => 503,
            HttpCode::GatewayTimeout => 504,
            HttpCode::HttpVersionNotSupported => 505,
            HttpCode::VariantAlsoNegotiates => 506,
            HttpCode::InsufficientStorage => 507,
            HttpCode::LoopDetected => 508,
            HttpCode::NotExtended => 510,
            HttpCode::NetworkAuthetificationRequired => 511,
            HttpCode::Unknown(v) => v,
            HttpCode::Absent => 0,
        }
    }

    /// Nothing for `Absent`, else the number of this code.
    #[verifier::when_used_as_spec(spec_to_optional_integer)]
    pub fn to_optional_integer(self) -> (number: Option<u32>)
        ensures
            number == self.spec_to_optional_integer(),
            number is None <==> self is Absent,
    {
        match self {
            HttpCode::Absent => None,
            _ => Some(self.to_integer()),
        }
    }
}

impl vstd::std_specs::convert::FromSpecImpl<u32> for HttpCode {
    open spec fn obeys_from_spec() -> bool {
        true
    }

    open spec fn from_spec(value: u32) -> HttpCode {
        HttpCode::from_integer(value)
    }
}

impl From<u32> for HttpCode {
    /// The code of `value`: see [`HttpCode::from_integer`].
    fn from(value: u32) -> (code: HttpCode)
        ensures
            code == HttpCode::from_integer(value),
    {
        HttpCode::from_integer(value)
    }
}

impl Default for HttpCode {
    /// A code that has not been set is `Absent`.
    fn default() -> (code: HttpCode)
        ensures
            code == HttpCode::Absent,
    {
        HttpCode::Absent
    }
}

impl vstd::std_specs::convert::FromSpecImpl<Option<u32>> for HttpCode {
    open spec fn obeys_from_spec() -> bool {
        true
    }

    open spec fn from_spec(value: Option<u32>) -> HttpCode {
        HttpCode::from_optional_integer(value)
    }
}

impl From<Option<u32>> for HttpCode {
    /// The code of a number that may be missing: see
    /// [`HttpCode::from_optional_integer`].
    fn from(value: Option<u32>) -> (code: HttpCode)
        ensures
            code == HttpCode::from_optional_integer(value),
    {
        HttpCode::from_optional_integer(value)
    }
}

impl vstd::std_specs::convert::FromSpecImpl<HttpCode> for u32 {
    open spec fn obeys_from_spec() -> bool {
        true
    }

    open spec fn from_spec(value: HttpCode) -> u32 {
        value.to_integer()
    }
}

impl From<HttpCode> for u32 {
    /// The number of `value`: see [`HttpCode::to_integer`].
    fn from(value: HttpCode) -> (number: u32)
        ensures
            number == value.to_integer(),
    {
        value.to_integer()
    }
}

impl vstd::std_specs::convert::FromSpecImpl<HttpCode> for Option<u32> {
    open spec fn obeys_from_spec() -> bool {
        true
    }

    open spec fn from_spec(value: HttpCode) -> Option<u32> {
        value.to_optional_integer()
    }
}

impl From<HttpCode> for Option<u32> {
    /// The number of `value` where there is one: see
    /// [`HttpCode::to_optional_integer`].
    fn from(value: HttpCode) -> (number: Option<u32>)
        ensures
            number == value.to_optional_integer(),
    {
        value.to_optional_integer()
    }
}

} // verus!
