use http_codex::HttpCode;

#[test]
fn every_width_finds_not_found() {
    assert_eq!(HttpCode::from(404u128), HttpCode::NotFound);
    assert_eq!(HttpCode::from(404u64), HttpCode::NotFound);
    assert_eq!(HttpCode::from(404u32), HttpCode::NotFound);
    assert_eq!(HttpCode::from(404u16), HttpCode::NotFound);
    assert_eq!(HttpCode::from(404usize), HttpCode::NotFound);
    assert_eq!(HttpCode::from(404i128), HttpCode::NotFound);
    assert_eq!(HttpCode::from(404i64), HttpCode::NotFound);
    assert_eq!(HttpCode::from(404i32), HttpCode::NotFound);
    assert_eq!(HttpCode::from(404i16), HttpCode::NotFound);
    assert_eq!(HttpCode::from(404isize), HttpCode::NotFound);
}

#[test]
fn every_optional_width_finds_early_hints() {
    assert_eq!(HttpCode::from(Some(103u128)), HttpCode::EarlyHints);
    assert_eq!(HttpCode::from(Some(103u64)), HttpCode::EarlyHints);
    assert_eq!(HttpCode::from(Some(103u32)), HttpCode::EarlyHints);
    assert_eq!(HttpCode::from(Some(103u16)), HttpCode::EarlyHints);
    assert_eq!(HttpCode::from(Some(103usize)), HttpCode::EarlyHints);
    assert_eq!(HttpCode::from(Some(103i128)), HttpCode::EarlyHints);
    assert_eq!(HttpCode::from(Some(103i64)), HttpCode::EarlyHints);
    assert_eq!(HttpCode::from(Some(103i32)), HttpCode::EarlyHints);
    assert_eq!(HttpCode::from(Some(103i16)), HttpCode::EarlyHints);
    assert_eq!(HttpCode::from(Some(103isize)), HttpCode::EarlyHints);
}

#[test]
fn every_missing_width_is_absent() {
    assert_eq!(HttpCode::from(None::<u128>), HttpCode::Absent);
    assert_eq!(HttpCode::from(None::<u64>), HttpCode::Absent);
    assert_eq!(HttpCode::from(None::<u32>), HttpCode::Absent);
    assert_eq!(HttpCode::from(None::<u16>), HttpCode::Absent);
    assert_eq!(HttpCode::from(None::<usize>), HttpCode::Absent);
    assert_eq!(HttpCode::from(None::<i128>), HttpCode::Absent);
    assert_eq!(HttpCode::from(None::<i64>), HttpCode::Absent);
    assert_eq!(HttpCode::from(None::<i32>), HttpCode::Absent);
    assert_eq!(HttpCode::from(None::<i16>), HttpCode::Absent);
    assert_eq!(HttpCode::from(None::<isize>), HttpCode::Absent);
}

#[test]
fn negative_numbers_wrap_round() {
    assert_eq!(HttpCode::from(-1i16), HttpCode::Unknown(4294967295));
    assert_eq!(HttpCode::from(-1i32), HttpCode::Unknown(4294967295));
    assert_eq!(HttpCode::from(-1i64), HttpCode::Unknown(4294967295));
    assert_eq!(HttpCode::from(-1i128), HttpCode::Unknown(4294967295));
    assert_eq!(HttpCode::from(-1isize), HttpCode::Unknown(4294967295));
    assert_eq!(HttpCode::from(-404i32), HttpCode::Unknown(4294966892));
    assert_eq!(HttpCode::from(i16::MIN), HttpCode::Unknown(4294934528));
    assert_eq!(HttpCode::from(i32::MIN), HttpCode::Unknown(2147483648));
    assert_eq!(HttpCode::from(Some(-1i64)), HttpCode::Unknown(4294967295));
}

#[test]
fn too_large_is_never_registered() {
    assert_eq!(HttpCode::from(4294967296u64), HttpCode::Unknown(0));
    assert_eq!(HttpCode::from(4294967296u64 + 404), HttpCode::Unknown(404));
    assert_eq!(HttpCode::from(4294967296u64 + 100), HttpCode::Unknown(100));
    assert_eq!(HttpCode::from(4294967296i64 + 200), HttpCode::Unknown(200));
    assert_eq!(HttpCode::from(4294967296u128 + 511), HttpCode::Unknown(511));
    assert_eq!(HttpCode::from(4294967296i128 + 226), HttpCode::Unknown(226));
    assert_eq!(HttpCode::from(u64::MAX), HttpCode::Unknown(u32::MAX));
    assert_eq!(HttpCode::from(u128::MAX), HttpCode::Unknown(u32::MAX));
    assert_eq!(HttpCode::from((1u128 << 100) + 503), HttpCode::Unknown(503));
    assert_eq!(HttpCode::from(Some(4294967296u64 + 103)), HttpCode::Unknown(103));
    assert_eq!(HttpCode::from(Some(4294967700u64)), HttpCode::Unknown(404));
}

#[test]
fn negative_is_never_registered() {
    assert_eq!(HttpCode::from(i64::MIN), HttpCode::Unknown(0));
    assert_eq!(HttpCode::from(i128::MIN + 307), HttpCode::Unknown(307));
    assert_eq!(HttpCode::from(-4294967296i64 + 410), HttpCode::Unknown(410));
    assert_eq!(HttpCode::from(-4294966892i64), HttpCode::Unknown(404));
    assert_eq!(HttpCode::from(-4294966892i128), HttpCode::Unknown(404));
    assert_eq!(HttpCode::from(Some(-4294967296i64 + 200)), HttpCode::Unknown(200));
}

#[test]
fn largest_numbers_that_fit() {
    assert_eq!(HttpCode::from(4294967295u64), HttpCode::Unknown(4294967295));
    assert_eq!(HttpCode::from(4294967295i64), HttpCode::Unknown(4294967295));
    assert_eq!(HttpCode::from(4294967295u128), HttpCode::Unknown(4294967295));
    assert_eq!(HttpCode::from(4294967295i128), HttpCode::Unknown(4294967295));
    assert_eq!(HttpCode::from(511u64), HttpCode::NetworkAuthetificationRequired);
    assert_eq!(HttpCode::from(100i128), HttpCode::Continue);
}

#[test]
fn wide_integers_are_registered_only_in_range() {
    for low in 0u64..=700 {
        let in_range = HttpCode::from(low);
        assert_eq!(in_range, HttpCode::from(low as u32));
        for turns in [1u64, 2, 1 << 31] {
            let wide = low + turns * 4294967296;
            assert_eq!(HttpCode::from(wide), HttpCode::Unknown(low as u32));
            assert_eq!(HttpCode::from(wide as u128), HttpCode::Unknown(low as u32));
            assert_eq!(HttpCode::from(wide as i128), HttpCode::Unknown(low as u32));
            let negative = low as i128 - (turns as i128) * 4294967296;
            assert_eq!(HttpCode::from(negative), HttpCode::Unknown(low as u32));
        }
    }
}

#[test]
fn pointer_sized_integers() {
    assert_eq!(HttpCode::from(410usize), HttpCode::Gone);
    assert_eq!(HttpCode::from(410isize), HttpCode::Gone);
    assert_eq!(HttpCode::from(-410isize), HttpCode::Unknown(4294966886));
    assert_eq!(HttpCode::from(Some(-1isize)), HttpCode::Unknown(4294967295));
    if usize::BITS > 32 {
        let large = ((1u64 << 32) + 404) as usize;
        assert_eq!(HttpCode::from(large), HttpCode::Unknown(404));
        assert_eq!(HttpCode::from(Some(large)), HttpCode::Unknown(404));
        let negative = (404i64 - (1i64 << 32)) as isize;
        assert_eq!(HttpCode::from(negative), HttpCode::Unknown(404));
        assert_eq!(HttpCode::from(Some(negative)), HttpCode::Unknown(404));
    }
}

#[test]
fn numbers_that_fit_are_kept() {
    assert_eq!(HttpCode::from(u16::MAX), HttpCode::Unknown(65535));
    assert_eq!(HttpCode::from(i16::MAX), HttpCode::Unknown(32767));
    assert_eq!(HttpCode::from(i32::MAX), HttpCode::Unknown(2147483647));
    assert_eq!(HttpCode::from(12345u64), HttpCode::Unknown(12345));
    assert_eq!(HttpCode::from(999i128), HttpCode::Unknown(999));
    assert_eq!(HttpCode::from(600usize), HttpCode::Unknown(600));
    assert_eq!(HttpCode::from(99isize), HttpCode::Unknown(99));
    assert_eq!(HttpCode::from(0u16), HttpCode::Unknown(0));
}

#[test]
fn wide_round_trip_keeps_the_low_bits() {
    for value in [0u64, 404, 999, 4294967295, 4294967296, 4294967700, u64::MAX] {
        let back: Option<u32> = HttpCode::from(Some(value)).into();
        assert_eq!(back, Some((value % 4294967296) as u32));
    }
}
