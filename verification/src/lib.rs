//! Strongly typed HTTP status codes.
//!
//! [`HttpCode`] names every registered status code, so that a caller can
//! match on codes instead of comparing numbers, and keeps any other number
//! as `Unknown`. [`HttpCodeClass`] is the family of a code: informational,
//! successful, redirection, client error or server error.
//!
//! Every conversion is total. A number that the registry does not hold is
//! data, not an error, and the absence of a code is a value of its own,
//! `Absent`, whose number is 0.
//!
//! The module `laws` holds what is proved of the conversions taken together:
//! that numbers and codes convert back into each other, that a number is
//! kept where the registry does not hold it, and that the class of a
//! registered code is that of its first digit.

pub mod http_code;
pub mod http_code_class;
pub mod integers;
pub mod laws;

pub use http_code::HttpCode;
pub use http_code_class::HttpCodeClass;
