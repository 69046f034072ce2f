use http_codex::{HttpCode, HttpCodeClass};

#[test]
fn not_found_is_a_client_error() {
    assert_eq!(HttpCodeClass::from(HttpCode::NotFound), HttpCodeClass::ClientError);
}

#[test]
fn service_unavailable_is_a_server_error() {
    assert_eq!(
        HttpCodeClass::from(HttpCode::ServiceUnavailable),
        HttpCodeClass::ServerError
    );
}

#[test]
fn unknown_has_its_own_class() {
    assert_eq!(HttpCodeClass::from(HttpCode::Unknown(999)), HttpCodeClass::Unknown);
}

#[test]
fn unknown_number_is_not_looked_at() {
    for number in [0u32, 150, 250, 350, 404, 450, 550, u32::MAX] {
        assert_eq!(HttpCodeClass::from(HttpCode::Unknown(number)), HttpCodeClass::Unknown);
    }
}

#[test]
fn absent_has_its_own_class() {
    assert_eq!(HttpCodeClass::from(HttpCode::Absent), HttpCodeClass::Absent);
    assert_eq!(HttpCodeClass::from(HttpCode::default()), HttpCodeClass::Absent);
}

#[test]
fn one_code_of_each_class() {
    assert_eq!(HttpCodeClass::from(HttpCode::Continue), HttpCodeClass::Informational);
    assert_eq!(HttpCodeClass::from(HttpCode::OK), HttpCodeClass::Successful);
    assert_eq!(HttpCodeClass::from(HttpCode::ImUsed), HttpCodeClass::Successful);
    assert_eq!(HttpCodeClass::from(HttpCode::Found), HttpCodeClass::Redirection);
    assert_eq!(HttpCodeClass::from(HttpCode::ImATeapot), HttpCodeClass::ClientError);
    assert_eq!(
        HttpCodeClass::from(HttpCode::NetworkAuthetificationRequired),
        HttpCodeClass::ServerError
    );
}

#[test]
fn class_follows_first_digit() {
    for number in 100u32..=599 {
        let code = HttpCode::from(number);
        let class = HttpCodeClass::from(code);
        if code == HttpCode::Unknown(number) {
            assert_eq!(class, HttpCodeClass::Unknown);
        } else {
            let expected = match number / 100 {
                1 => HttpCodeClass::Informational,
                2 => HttpCodeClass::Successful,
                3 => HttpCodeClass::Redirection,
                4 => HttpCodeClass::ClientError,
                _ => HttpCodeClass::ServerError,
            };
            assert_eq!(class, expected);
        }
    }
}

#[test]
fn class_sizes() {
    let mut sizes = [0usize; 5];
    for number in 100u32..=599 {
        match HttpCodeClass::from(HttpCode::from(number)) {
            HttpCodeClass::Informational => sizes[0] += 1,
            HttpCodeClass::Successful => sizes[1] += 1,
            HttpCodeClass::Redirection => sizes[2] += 1,
            HttpCodeClass::ClientError => sizes[3] += 1,
            HttpCodeClass::ServerError => sizes[4] += 1,
            HttpCodeClass::Absent => panic!("a number has no absent class"),
            HttpCodeClass::Unknown => {}
        }
    }
    assert_eq!(sizes, [4, 10, 7, 29, 11]);
}
