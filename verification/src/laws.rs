//! What holds of the registry and of the conversions between codes and
//! numbers, each proved from the definitions in the other modules.

use vstd::prelude::*;
use crate::http_code::HttpCode;
use crate::http_code_class::HttpCodeClass;
use crate::integers::low_32_bits;

verus! {

/// The number of a registered code has three digits and starts with a digit
/// from 1 to 5.
pub proof fn registered_number_in_range(code: HttpCode)
    requires
        code.is_known(),
    ensures
        100 <= code.to_integer() <= 599,
{
}

/// No two registered codes have the same number.
pub proof fn registered_numbers_differ(first: HttpCode, second: HttpCode)
    requires
        first.is_known(),
        second.is_known(),
        first.to_integer() == second.to_integer(),
    ensures
        first == second,
{
}

/// A registered code is the code of its own number.
pub proof fn code_round_trip(code: HttpCode)
    requires
        code.is_known(),
    ensures
        HttpCode::from_integer(code.to_integer()) == code,
{
}

/// The codes that come back from their own number are the registered ones
/// and each `Unknown` that carries a number the registry does not hold. The
/// others do not: `Absent` has the number 0, whose code is `Unknown(0)`, and
/// an `Unknown` that carries a registered number gives the registered code.
pub proof fn code_round_trip_exactly(code: HttpCode)
    ensures
        HttpCode::from_integer(code.to_integer()) == code <==> code.is_known() || (code matches
        HttpCode::Unknown(value) && !HttpCode::is_registered(value)),
{
    known_iff_registered(code.to_integer());
}

/// Every number is the number of its own code, whether the registry holds it
/// or not.
pub proof fn integer_round_trip(value: u32)
    ensures
        HttpCode::from_integer(value).to_integer() == value,
{
}

/// The code of a number is a registered one exactly when the registry holds
/// the number, and is never `Absent`.
pub proof fn known_iff_registered(value: u32)
    ensures
        HttpCode::from_integer(value).is_known() <==> HttpCode::is_registered(value),
        !(HttpCode::from_integer(value) is Absent),
{
    let code = HttpCode::from_integer(value);
    if code.is_known() {
        assert(code.to_integer() == value);
    } else {
        assert forall|other: HttpCode| other.is_known() implies #[trigger] other.to_integer()
            != value by {}
    }
}

/// A number that the registry does not hold is kept: its code is `Unknown`
/// with that number, and the number of that code is the number again.
pub proof fn unregistered_number_is_kept(value: u32)
    requires
        !HttpCode::is_registered(value),
    ensures
        HttpCode::from_integer(value) == HttpCode::Unknown(value),
        HttpCode::Unknown(value).to_integer() == value,
{
    known_iff_registered(value);
}

/// The registry holds no number below 100 and none above 599.
pub proof fn registry_has_three_digits(value: u32)
    requires
        HttpCode::is_registered(value),
    ensures
        100 <= value <= 599,
{
}

/// Absence goes both ways: no number gives `Absent`, and `Absent` gives no
/// number.
pub proof fn absence_round_trip()
    ensures
        HttpCode::from_optional_integer(None) == HttpCode::Absent,
        HttpCode::Absent.to_optional_integer() == None::<u32>,
{
}

/// A number that is present comes back as it went in, whether the registry
/// holds it or not.
pub proof fn optional_integer_round_trip(value: u32)
    ensures
        HttpCode::from_optional_integer(Some(value)).to_optional_integer() == Some(value),
{
}

/// `Absent` is the only code without a number.
pub proof fn only_absent_has_no_number(code: HttpCode)
    ensures
        code.to_optional_integer() is None <==> code is Absent,
        code.to_optional_integer() is Some ==> code.to_optional_integer() == Some(
            code.to_integer(),
        ),
{
}

/// The class of a registered code is the family of the hundred that its
/// number lies in.
pub proof fn class_follows_number(code: HttpCode)
    requires
        code.is_known(),
    ensures
        code.classify() == HttpCodeClass::of_first_digit(code.to_integer() as int / 100),
        code.classify() is Informational <==> 100 <= code.to_integer() <= 199,
        code.classify() is Successful <==> 200 <= code.to_integer() <= 299,
        code.classify() is Redirection <==> 300 <= code.to_integer() <= 399,
        code.classify() is ClientError <==> 400 <= code.to_integer() <= 499,
        code.classify() is ServerError <==> 500 <= code.to_integer() <= 599,
{
}

/// `Absent` and `Unknown` have their own classes, which no registered code
/// is in; the number that an `Unknown` carries does not count.
pub proof fn class_of_the_rest(code: HttpCode)
    ensures
        code.classify() is Absent <==> code is Absent,
        code.classify() is Unknown <==> code is Unknown,
{
}

/// An integer of any width that `u32` can hold is converted as that number.
pub proof fn wide_integer_in_range(value: int)
    requires
        0 <= value <= u32::MAX,
    ensures
        low_32_bits(value) == value,
        HttpCode::from_wide_integer(value) == HttpCode::from_integer(value as u32),
{
}

/// An integer that `u32` cannot hold is never a registered code, whatever
/// its low 32 bits are: it is kept as `Unknown` with those bits.
pub proof fn wide_integer_out_of_range(value: int)
    requires
        value < 0 || value > u32::MAX,
    ensures
        HttpCode::from_wide_integer(value) == HttpCode::Unknown(low_32_bits(value)),
        !HttpCode::from_wide_integer(value).is_known(),
{
}

/// A wide integer gives a registered code only where it is itself a number
/// that the registry holds.
pub proof fn wide_integer_known_iff_registered(value: int)
    ensures
        HttpCode::from_wide_integer(value).is_known() <==> 0 <= value <= u32::MAX
            && HttpCode::is_registered(value as u32),
        !(HttpCode::from_wide_integer(value) is Absent),
{
    if 0 <= value <= u32::MAX {
        known_iff_registered(value as u32);
    }
}

/// A negative integer that 32 bits can hold with a sign is kept as `Unknown`
/// with 2^32 added to it.
pub proof fn negative_integer_is_unknown(value: int)
    requires
        i32::MIN <= value < 0,
    ensures
        low_32_bits(value) == value + 0x1_0000_0000,
        HttpCode::from_wide_integer(value) == HttpCode::Unknown((value + 0x1_0000_0000) as u32),
{
}

/// Two integers that differ by a multiple of 2^32 have the same low 32 bits.
pub proof fn low_32_bits_wrap(value: int, turns: int)
    ensures
        low_32_bits(value + turns * 0x1_0000_0000) == low_32_bits(value),
{
    assert((value + turns * 0x1_0000_0000) % 0x1_0000_0000 == value % 0x1_0000_0000) by {
        vstd::arithmetic::div_mod::lemma_mod_multiples_vanish(turns, value, 0x1_0000_0000);
    }
}

/// The number of the code of a wide integer is what its low 32 bits hold,
/// and is never missing.
pub proof fn wide_integer_round_trip(value: int)
    ensures
        HttpCode::from_wide_integer(value).to_integer() == low_32_bits(value),
        HttpCode::from_wide_integer(value).to_optional_integer() == Some(low_32_bits(value)),
{
}

} // verus!
