//! Conversions from the integer types other than `u32`.
//!
//! A status code is a `u32`. An integer of another type that `u32` can hold
//! is looked up in the registry as it is. One that `u32` cannot hold, because
//! it is negative or too large, is no status code at all: it is kept as
//! `Unknown`, and what it carries is the low 32 bits of the integer read as
//! an unsigned number, so that `-1` becomes `Unknown(4294967295)` and
//! 2^32 + 404 becomes `Unknown(404)`, never `NotFound`. None is rejected.

use vstd::prelude::*;
use crate::http_code::HttpCode;

verus! {

/// What is left of an integer of any width and sign when only its low 32
/// bits are read, as an unsigned number: its residue modulo 2^32.
pub open spec fn low_32_bits(value: int) -> u32 {
    (value % 0x1_0000_0000) as u32
}

impl HttpCode {
    /// The code of an integer of any width and sign. Within the range of
    /// `u32` it is the code of that number. Outside of it no registered code
    /// is ever given: the code is `Unknown` with the integer's low 32 bits.
    pub open spec fn from_wide_integer(value: int) -> HttpCode {
        if 0 <= value <= u32::MAX {
            HttpCode::from_integer(value as u32)
        } else {
            HttpCode::Unknown(low_32_bits(value))
        }
    }
}

impl vstd::std_specs::convert::FromSpecImpl<u128> for HttpCode {
    open spec fn obeys_from_spec() -> bool {
        true
    }

    open spec fn from_spec(value: u128) -> HttpCode {
        HttpCode::from_wide_integer(value as int)
    }
}

impl From<u128> for HttpCode {
    /// The code of `value` where `u32` can hold it; `Unknown` with its low 32
    /// bits where it is too large.
    fn from(value: u128) -> (code: HttpCode)
        ensures
            code == HttpCode::from_wide_integer(value as int),
    {
        if value <= 0xFFFF_FFFF {
            HttpCode::from_integer(value as u32)
        } else {
            let low: u32 = #[verifier::truncate] (value as u32);
            assert(low == (value as int) % 0x1_0000_0000) by (bit_vector)
                requires
                    low == value as u32,
            ;
            HttpCode::Unknown(low)
        }
    }
}

impl vstd::std_specs::convert::FromSpecImpl<u64> for HttpCode {
    open spec fn obeys_from_spec() -> bool {
        true
    }

    open spec fn from_spec(value: u64) -> HttpCode {
        HttpCode::from_wide_integer(value as int)
    }
}

impl From<u64> for HttpCode {
    /// The code of `value` where `u32` can hold it; `Unknown` with its low 32
    /// bits where it is too large.
    fn from(value: u64) -> (code: HttpCode)
        ensures
            code == HttpCode::from_wide_integer(value as int),
    {
        if value <= 0xFFFF_FFFF {
            HttpCode::from_integer(value as u32)
        } else {
            let low: u32 = #[verifier::truncate] (value as u32);
            assert(low == (value as int) % 0x1_0000_0000) by (bit_vector)
                requires
                    low == value as u32,
            ;
            HttpCode::Unknown(low)
        }
    }
}

impl vstd::std_specs::convert::FromSpecImpl<u16> for HttpCode {
    open spec fn obeys_from_spec() -> bool {
        true
    }

    open spec fn from_spec(value: u16) -> HttpCode {
        HttpCode::from_wide_integer(value as int)
    }
}

impl From<u16> for HttpCode {
    /// The code of `value`, which `u32` can always hold.
    fn from(value: u16) -> (code: HttpCode)
        ensures
            code == HttpCode::from_wide_integer(value as int),
    {
        HttpCode::from_integer(value as u32)
    }
}

impl vstd::std_specs::convert::FromSpecImpl<usize> for HttpCode {
    open spec fn obeys_from_spec() -> bool {
        true
    }

    open spec fn from_spec(value: usize) -> HttpCode {
        HttpCode::from_wide_integer(value as int)
    }
}

impl From<usize> for HttpCode {
    /// The code of `value` where `u32` can hold it; `Unknown` with its low 32
    /// bits where it is too large.
    fn from(value: usize) -> (code: HttpCode)
        ensures
            code == HttpCode::from_wide_integer(value as int),
    {
        HttpCode::from(value as u64)
    }
}

impl vstd::std_specs::convert::FromSpecImpl<i128> for HttpCode {
    open spec fn obeys_from_spec() -> bool {
        true
    }

    open spec fn from_spec(value: i128) -> HttpCode {
        HttpCode::from_wide_integer(value as int)
    }
}

impl From<i128> for HttpCode {
    /// The code of `value` where `u32` can hold it; `Unknown` with its low 32
    /// bits where it is negative or too large.
    fn from(value: i128) -> (code: HttpCode)
        ensures
            code == HttpCode::from_wide_integer(value as int),
    {
        if 0 <= value && value <= 0xFFFF_FFFF {
            HttpCode::from_integer(value as u32)
        } else {
            let low: u32 = #[verifier::truncate] (value as u32);
            assert(low == (value as int) % 0x1_0000_0000) by (bit_vector)
                requires
                    low == value as u32,
            ;
            HttpCode::Unknown(low)
        }
    }
}

impl vstd::std_specs::convert::FromSpecImpl<i64> for HttpCode {
    open spec fn obeys_from_spec() -> bool {
        true
    }

    open spec fn from_spec(value: i64) -> HttpCode {
        HttpCode::from_wide_integer(value as int)
    }
}

impl From<i64> for HttpCode {
    /// The code of `value` where `u32` can hold it; `Unknown` with its low 32
    /// bits where it is negative or too large.
    fn from(value: i64) -> (code: HttpCode)
        ensures
            code == HttpCode::from_wide_integer(value as int),
    {
        if 0 <= value && value <= 0xFFFF_FFFF {
            HttpCode::from_integer(value as u32)
        } else {
            let low: u32 = #[verifier::truncate] (value as u32);
            assert(low == (value as int) % 0x1_0000_0000) by (bit_vector)
                requires
                    low == value as u32,
            ;
            HttpCode::Unknown(low)
        }
    }
}

impl vstd::std_specs::convert::FromSpecImpl<i32> for HttpCode {
    open spec fn obeys_from_spec() -> bool {
        true
    }

    open spec fn from_spec(value: i32) -> HttpCode {
        HttpCode::from_wide_integer(value as int)
    }
}

impl From<i32> for HttpCode {
    /// The code of `value` where it is not negative; else `Unknown` with its
    /// 32 bits read without a sign.
    fn from(value: i32) -> (code: HttpCode)
        ensures
            code == HttpCode::from_wide_integer(value as int),
    {
        if 0 <= value {
            HttpCode::from_integer(value as u32)
        } else {
            let low: u32 = #[verifier::truncate] (value as u32);
            assert(low == (value as int) % 0x1_0000_0000) by (bit_vector)
                requires
                    low == value as u32,
            ;
            HttpCode::Unknown(low)
        }
    }
}

impl vstd::std_specs::convert::FromSpecImpl<i16> for HttpCode {
    open spec fn obeys_from_spec() -> bool {
        true
    }

    open spec fn from_spec(value: i16) -> HttpCode {
        HttpCode::from_wide_integer(value as int)
    }
}

impl From<i16> for HttpCode {
    /// The code of `value` where it is not negative; else `Unknown` with its
    /// bits, the sign extended to 32 of them, read without a sign.
    fn from(value: i16) -> (code: HttpCode)
        ensures
            code == HttpCode::from_wide_integer(value as int),
    {
        if 0 <= value {
            HttpCode::from_integer(value as u32)
        } else {
            let low: u32 = #[verifier::truncate] (value as u32);
            assert(low == (value as int) % 0x1_0000_0000) by (bit_vector)
                requires
                    low == value as u32,
            ;
            HttpCode::Unknown(low)
        }
    }
}

impl vstd::std_specs::convert::FromSpecImpl<isize> for HttpCode {
    open spec fn obeys_from_spec() -> bool {
        true
    }

    open spec fn from_spec(value: isize) -> HttpCode {
        HttpCode::from_wide_integer(value as int)
    }
}

impl From<isize> for HttpCode {
    /// The code of `value` where `u32` can hold it; `Unknown` with its low 32
    /// bits where it is negative or too large.
    fn from(value: isize) -> (code: HttpCode)
        ensures
            code == HttpCode::from_wide_integer(value as int),
    {
        HttpCode::from(value as i64)
    }
}

impl vstd::std_specs::convert::FromSpecImpl<Option<u128>> for HttpCode {
    open spec fn obeys_from_spec() -> bool {
        true
    }

    open spec fn from_spec(value: Option<u128>) -> HttpCode {
        match value {
            None => HttpCode::Absent,
            Some(number) => HttpCode::from_wide_integer(number as int),
        }
    }
}

impl From<Option<u128>> for HttpCode {
    /// `Absent` where there is no number, else the code of the number as
    /// `From<u128>` gives it.
    fn from(value: Option<u128>) -> (code: HttpCode)
        ensures
            code == (match value {
                None => HttpCode::Absent,
                Some(number) => HttpCode::from_wide_integer(number as int),
            }),
    {
        match value {
            None => HttpCode::Absent,
            Some(v) => HttpCode::from(v),
        }
    }
}

impl vstd::std_specs::convert::FromSpecImpl<Option<u64>> for HttpCode {
    open spec fn obeys_from_spec() -> bool {
        true
    }

    open spec fn from_spec(value: Option<u64>) -> HttpCode {
        match value {
            None => HttpCode::Absent,
            Some(number) => HttpCode::from_wide_integer(number as int),
        }
    }
}

impl From<Option<u64>> for HttpCode {
    /// `Absent` where there is no number, else the code of the number as
    /// `From<u64>` gives it.
    fn from(value: Option<u64>) -> (code: HttpCode)
        ensures
            code == (match value {
                None => HttpCode::Absent,
                Some(number) => HttpCode::from_wide_integer(number as int),
            }),
    {
        match value {
            None => HttpCode::Absent,
            Some(v) => HttpCode::from(v),
        }
    }
}

impl vstd::std_specs::convert::FromSpecImpl<Option<u16>> for HttpCode {
    open spec fn obeys_from_spec() -> bool {
        true
    }

    open spec fn from_spec(value: Option<u16>) -> HttpCode {
        match value {
            None => HttpCode::Absent,
            Some(number) => HttpCode::from_wide_integer(number as int),
        }
    }
}

impl From<Option<u16>> for HttpCode {
    /// `Absent` where there is no number, else the code of the number as
    /// `From<u16>` gives it.
    fn from(value: Option<u16>) -> (code: HttpCode)
        ensures
            code == (match value {
                None => HttpCode::Absent,
                Some(number) => HttpCode::from_wide_integer(number as int),
            }),
    {
        match value {
            None => HttpCode::Absent,
            Some(v) => HttpCode::from(v),
        }
    }
}

impl vstd::std_specs::convert::FromSpecImpl<Option<usize>> for HttpCode {
    open spec fn obeys_from_spec() -> bool {
        true
    }

    open spec fn from_spec(value: Option<usize>) -> HttpCode {
        match value {
            None => HttpCode::Absent,
            Some(number) => HttpCode::from_wide_integer(number as int),
        }
    }
}

impl From<Option<usize>> for HttpCode {
    /// `Absent` where there is no number, else the code of the number as
    /// `From<usize>` gives it.
    fn from(value: Option<usize>) -> (code: HttpCode)
        ensures
            code == (match value {
                None => HttpCode::Absent,
                Some(number) => HttpCode::from_wide_integer(number as int),
            }),
    {
        match value {
            None => HttpCode::Absent,
            Some(v) => HttpCode::from(v),
        }
    }
}

impl vstd::std_specs::convert::FromSpecImpl<Option<i128>> for HttpCode {
    open spec fn obeys_from_spec() -> bool {
        true
    }

    open spec fn from_spec(value: Option<i128>) -> HttpCode {
        match value {
            None => HttpCode::Absent,
            Some(number) => HttpCode::from_wide_integer(number as int),
        }
    }
}

impl From<Option<i128>> for HttpCode {
    /// `Absent` where there is no number, else the code of the number as
    /// `From<i128>` gives it.
    fn from(value: Option<i128>) -> (code: HttpCode)
        ensures
            code == (match value {
                None => HttpCode::Absent,
                Some(number) => HttpCode::from_wide_integer(number as int),
            }),
    {
        match value {
            None => HttpCode::Absent,
            Some(v) => HttpCode::from(v),
        }
    }
}

impl vstd::std_specs::convert::FromSpecImpl<Option<i64>> for HttpCode {
    open spec fn obeys_from_spec() -> bool {
        true
    }

    open spec fn from_spec(value: Option<i64>) -> HttpCode {
        match value {
            None => HttpCode::Absent,
            Some(number) => HttpCode::from_wide_integer(number as int),
        }
    }
}

impl From<Option<i64>> for HttpCode {
    /// `Absent` where there is no number, else the code of the number as
    /// `From<i64>` gives it.
    fn from(value: Option<i64>) -> (code: HttpCode)
        ensures
            code == (match value {
                None => HttpCode::Absent,
                Some(number) => HttpCode::from_wide_integer(number as int),
            }),
    {
        match value {
            None => HttpCode::Absent,
            Some(v) => HttpCode::from(v),
        }
    }
}

impl vstd::std_specs::convert::FromSpecImpl<Option<i32>> for HttpCode {
    open spec fn obeys_from_spec() -> bool {
        true
    }

    open spec fn from_spec(value: Option<i32>) -> HttpCode {
        match value {
            None => HttpCode::Absent,
            Some(number) => HttpCode::from_wide_integer(number as int),
        }
    }
}

impl From<Option<i32>> for HttpCode {
    /// `Absent` where there is no number, else the code of the number as
    /// `From<i32>` gives it.
    fn from(value: Option<i32>) -> (code: HttpCode)
        ensures
            code == (match value {
                None => HttpCode::Absent,
                Some(number) => HttpCode::from_wide_integer(number as int),
            }),
    {
        match value {
            None => HttpCode::Absent,
            Some(v) => HttpCode::from(v),
        }
    }
}

impl vstd::std_specs::convert::FromSpecImpl<Option<i16>> for HttpCode {
    open spec fn obeys_from_spec() -> bool {
        true
    }

    open spec fn from_spec(value: Option<i16>) -> HttpCode {
        match value {
            None => HttpCode::Absent,
            Some(number) => HttpCode::from_wide_integer(number as int),
        }
    }
}

impl From<Option<i16>> for HttpCode {
    /// `Absent` where there is no number, else the code of the number as
    /// `From<i16>` gives it.
    fn from(value: Option<i16>) -> (code: HttpCode)
        ensures
            code == (match value {
                None => HttpCode::Absent,
                Some(number) => HttpCode::from_wide_integer(number as int),
            }),
    {
        match value {
            None => HttpCode::Absent,
            Some(v) => HttpCode::from(v),
        }
    }
}

impl vstd::std_specs::convert::FromSpecImpl<Option<isize>> for HttpCode {
    open spec fn obeys_from_spec() -> bool {
        true
    }

    open spec fn from_spec(value: Option<isize>) -> HttpCode {
        match value {
            None => HttpCode::Absent,
            Some(number) => HttpCode::from_wide_integer(number as int),
        }
    }
}

impl From<Option<isize>> for HttpCode {
    /// `Absent` where there is no number, else the code of the number as
    /// `From<isize>` gives it.
    fn from(value: Option<isize>) -> (code: HttpCode)
        ensures
            code == (match value {
                None => HttpCode::Absent,
                Some(number) => HttpCode::from_wide_integer(number as int),
            }),
    {
        match value {
            None => HttpCode::Absent,
            Some(v) => HttpCode::from(v),
        }
    }
}

} // verus!
