use alpaca_sdk::pagination::{PageStep, Paginator};
use alpaca_sdk::ApiClientError;

type Page<T> = Result<(Vec<T>, Option<String>), ApiClientError>;

/// Runs a gathering against `fetch`, as a caller does.
fn paginate<T>(mut fetch: impl FnMut(Option<String>) -> Page<T>) -> Result<Vec<T>, ApiClientError> {
    let mut paginator = Paginator::new();
    let mut cursor = None;
    loop {
        match paginator.advance(fetch(cursor)) {
            PageStep::Fetch {
                paginator: next,
                cursor: token,
            } => {
                paginator = next;
                cursor = Some(token);
            }
            PageStep::Finished(outcome) => return outcome,
        }
    }
}

#[test]
fn paginate_single_page() {
    let result = paginate(|_token| Ok((vec![1, 2, 3], None)));
    assert_eq!(result.unwrap(), vec![1, 2, 3]);
}

#[test]
fn paginate_multiple_pages() {
    let mut call_count = 0u32;

    let result = paginate(|token| {
        let count = call_count;
        call_count += 1;
        match count {
            0 => {
                assert!(token.is_none());
                Ok((vec![1, 2], Some("page2".to_string())))
            }
            1 => {
                assert_eq!(token.as_deref(), Some("page2"));
                Ok((vec![3, 4], Some("page3".to_string())))
            }
            2 => {
                assert_eq!(token.as_deref(), Some("page3"));
                Ok((vec![5], None))
            }
            _ => panic!("too many calls"),
        }
    });

    assert_eq!(result.unwrap(), vec![1, 2, 3, 4, 5]);
    assert_eq!(call_count, 3);
}

#[test]
fn paginate_empty_token_stops() {
    let result = paginate(|_token| Ok((vec![1], Some(String::new()))));
    assert_eq!(result.unwrap(), vec![1]);
}

#[test]
fn paginate_error_propagates() {
    let result: Result<Vec<i32>, _> = paginate(|_token| {
        Err(ApiClientError::Api {
            status: 500,
            body: "server error".to_string(),
        })
    });
    assert!(result.is_err());
}

#[test]
fn empty_token_stops_after_one_call() {
    let mut calls = 0;
    let result = paginate(|_token| {
        calls += 1;
        Ok((vec!["a"], Some(String::new())))
    });
    assert_eq!(result.unwrap(), vec!["a"]);
    assert_eq!(calls, 1);
}

#[test]
fn failure_on_a_later_call_drops_what_was_gathered() {
    let mut cursors = Vec::new();
    let result: Result<Vec<i32>, _> = paginate(|token| {
        cursors.push(token.clone());
        match cursors.len() {
            1 => Ok((vec![1, 2], Some("b".to_string()))),
            2 => Ok((vec![3], Some("c".to_string()))),
            3 => Err(ApiClientError::RateLimited {
                retry_after_secs: 9,
            }),
            _ => panic!("too many calls"),
        }
    });
    match result {
        Err(ApiClientError::RateLimited { retry_after_secs }) => assert_eq!(retry_after_secs, 9),
        _ => panic!("expected the failure of the third call"),
    }
    assert_eq!(
        cursors,
        vec![None, Some("b".to_string()), Some("c".to_string())]
    );
}

#[test]
fn advance_hands_out_the_next_cursor() {
    let paginator = Paginator::new();
    match paginator.advance(Ok((vec![1u8], Some("next".to_string())))) {
        PageStep::Fetch { paginator, cursor } => {
            assert_eq!(cursor, "next");
            match paginator.advance(Ok((vec![2u8, 3u8], None))) {
                PageStep::Finished(Ok(items)) => assert_eq!(items, vec![1, 2, 3]),
                _ => panic!("expected the end"),
            }
        }
        PageStep::Finished(_) => panic!("expected another fetch"),
    }
}

#[test]
fn pages_without_items_are_fine() {
    let mut calls = 0;
    let result: Result<Vec<i32>, _> = paginate(|_token| {
        calls += 1;
        if calls < 3 {
            Ok((Vec::new(), Some("more".to_string())))
        } else {
            Ok((Vec::new(), None))
        }
    });
    assert!(result.unwrap().is_empty());
    assert_eq!(calls, 3);
}
