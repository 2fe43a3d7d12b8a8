use ticktock::Attempt;

#[test]
fn attempt_works_on_ok_results() {
    let rs = vec![Err(1), Err(2), Err(3), Ok(4), Ok(5)];

    assert_eq!(Some(Ok(4)), rs.into_iter().attempt());
}

#[test]
fn attempt_works_on_err_results() {
    let rs: Vec<Result<(), _>> = vec![Err(1), Err(2), Err(3)];

    assert_eq!(Some(Err(3)), rs.into_iter().attempt());
}

#[test]
fn attempt_works_on_empty_result_vecs() {
    let rs: Vec<Result<(), ()>> = Vec::new();

    assert_eq!(None, rs.into_iter().attempt());
}

#[test]
fn attempt_works_on_some_options() {
    let rs = vec![None, None, None, Some(4), Some(5)];

    assert_eq!(Some(Some(4)), rs.into_iter().attempt());
}

#[test]
fn attempt_works_on_none_options() {
    let rs: Vec<Option<()>> = vec![None, None, None];

    assert_eq!(Some(None), rs.into_iter().attempt());
}

#[test]
fn attempt_works_on_empty_option_vecs() {
    let rs: Vec<Option<()>> = Vec::new();

    assert_eq!(None, rs.into_iter().attempt());
}

#[test]
fn attempt_stops_at_the_first_success() {
    let calls = std::cell::Cell::new(0);
    let outcomes = (1..=5).map(|n| {
        calls.set(calls.get() + 1);
        if n >= 3 {
            Ok(n)
        } else {
            Err(n)
        }
    });

    assert_eq!(Some(Ok(3)), outcomes.attempt());
    assert_eq!(calls.get(), 3);
}

#[test]
fn attempt_returns_a_single_failure() {
    let rs: Vec<Result<u8, u8>> = vec![Err(7)];

    assert_eq!(Some(Err(7)), rs.into_iter().attempt());
}

#[test]
fn attempt_returns_a_leading_success() {
    let rs: Vec<Option<u8>> = vec![Some(1), None, Some(3)];

    assert_eq!(Some(Some(1)), rs.into_iter().attempt());
}
