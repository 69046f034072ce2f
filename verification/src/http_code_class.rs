//! The families of status codes.

use vstd::prelude::*;
use crate::http_code::HttpCode;

verus! {

/// The family of a status code, which its first digit names.
#[derive(Copy, Clone, Debug, PartialEq, Eq, Structural)]
pub enum HttpCodeClass {
    /// 100 to 199: an interim response.
    Informational,
    /// 200 to 299: the request succeeded.
    Successful,
    /// 300 to 399: the client has to go elsewhere.
    Redirection,
    /// 400 to 499: the fault is on the client's side.
    ClientError,
    /// 500 to 599: the fault is on the server's side.
    ServerError,
    /// The class of `HttpCode::Absent`.
    Absent,
    /// The class of every `HttpCode::Unknown`, whatever number it carries.
    Unknown,
}

impl HttpCodeClass {
    /// The family that a first digit names. Only the digits 1 to 5 name one.
    pub open spec fn of_first_digit(digit: int) -> HttpCodeClass
        recommends
            1 <= digit <= 5,
    {
        if digit == 1 {
            HttpCodeClass::Informational
        } else if digit == 2 {
            HttpCodeClass::Successful
        } else if digit == 3 {
            HttpCodeClass::Redirection
        } else if digit == 4 {
            HttpCodeClass::ClientError
        } else if digit == 5 {
            HttpCodeClass::ServerError
        } else {
            HttpCodeClass::Unknown
        }
    }
}

impl HttpCode {
    /// The family of a code. A registered code is in the family that the
    /// first digit of its number names. `Absent` and `Unknown` have classes
    /// of their own: the number in an `Unknown` is not looked at, since
    /// nothing says that an unregistered number follows the convention.
    pub open spec fn spec_classify(self) -> HttpCodeClass {
        match self {
            HttpCode::Absent => HttpCodeClass::Absent,
            HttpCode::Unknown(_) => HttpCodeClass::Unknown,
            _ => HttpCodeClass::of_first_digit(self.to_integer() as int / 100),
        }
    }

    /// The family of this code: that of the first digit for a registered
    /// code, and a class of their own for `Absent` and for `Unknown`.
    #[verifier::when_used_as_spec(spec_classify)]
    pub fn classify(self) -> (class: HttpCodeClass)
        ensures
            class == self.spec_classify(),
    {
        match self {
            HttpCode::Continue
            | HttpCode::SwitchingProtocols
            | HttpCode::Processing
            | HttpCode::EarlyHints => HttpCodeClass::Informational,
            HttpCode::OK
            | HttpCode::Created
            | HttpCode::Accepted
            | HttpCode::NonAuthoritativeInformation
            | HttpCode::NoContent
            | HttpCode::ResetContent
            | HttpCode::PartialContent
            | HttpCode::MultiStatus
            | HttpCode::AlreadyReported
            | HttpCode::ImUsed => HttpCodeClass::Successful,
            HttpCode::MultipleChoices
            | HttpCode::MovedPermanently
            | HttpCode::Found
            | HttpCode::SeeOther
            | HttpCode::NotModified
            | HttpCode::TemporaryRedirect
            | HttpCode::PermanentRedirect => HttpCodeClass::Redirection,
            HttpCode::BadRequest
            | HttpCode::Unauthorized
            | HttpCode::PaymentRequired
            | HttpCode::Forbidden
            | HttpCode::NotFound
            | HttpCode::MethodNotAllowed
            | HttpCode::NotAcceptable
            | HttpCode::ProxyAuthentificationRequired
            | HttpCode::RequestTimeout
            | HttpCode::Conflict
            | HttpCode::Gone
            | HttpCode::LengthRequired
            | HttpCode::PreconditionFailed
            | HttpCode::PayloadTooLarge
            | HttpCode::UriTooLong
            | HttpCode::UnsupportedMediaType
            | HttpCode::RangeNotSatisfiable
            | HttpCode::ExpectationFailed
            | HttpCode::ImATeapot
            | HttpCode::MisdirectedRequest
            | HttpCode::UnprocessableContent
            | HttpCode::Locked
            | HttpCode::FailedDependency
            | HttpCode::TooEarly
            | HttpCode::UpgradeRequired
            | HttpCode::PreconditionRequired
            | HttpCode::TooManyRequests
            | HttpCode::RequestHeaderFieldsTooLarge
            | HttpCode::UnavailableForLegalReasons => HttpCodeClass::ClientError,
            HttpCode::InternalServerError
            | HttpCode::NotImplemented
            | HttpCode::BadGateway
            | HttpCode::ServiceUnavailable
            | HttpCode::GatewayTimeout
            | HttpCode::HttpVersionNotSupported
            | HttpCode::VariantAlsoNegotiates
            | HttpCode::InsufficientStorage
            | HttpCode::LoopDetected
            | HttpCode::NotExtended
            | HttpCode::NetworkAuthetificationRequired => HttpCodeClass::ServerError,
            HttpCode::Absent => HttpCodeClass::Absent,
            HttpCode::Unknown(_) => HttpCodeClass::Unknown,
        }
    }
}

impl vstd::std_specs::convert::FromSpecImpl<HttpCode> for HttpCodeClass {
    open spec fn obeys_from_spec() -> bool {
        true
    }

    open spec fn from_spec(value: HttpCode) -> HttpCodeClass {
        value.classify()
    }
}

impl From<HttpCode> for HttpCodeClass {
    /// The family of `value`: see [`HttpCode::classify`].
    fn from(value: HttpCode) -> (class: HttpCodeClass)
        ensures
            class == value.classify(),
    {
        value.classify()
    }
}

} // verus!
