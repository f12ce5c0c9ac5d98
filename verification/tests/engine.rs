use bilibili_msg_history::engine::{Outcome, State};
use bilibili_msg_history::models::response::{BilibiliResponse, ResponseData};

fn answer_of(
    code: i32,
    has_more: i32,
    min_seqno: u64,
    max_seqno: u64,
    messages: Option<Vec<u8>>,
) -> BilibiliResponse<ResponseData<u8>> {
    BilibiliResponse {
        code,
        msg: String::new(),
        message: String::new(),
        ttl: 1,
        data: ResponseData { messages, min_seqno, max_seqno, has_more },
    }
}

#[test]
fn latest_message_seeds_the_cursor() {
    let a = answer_of(0, 1, 100, 100, Some(vec![0]));
    assert_eq!(State::on_latest(&a), State::Paging { cursor: 100 });
}

#[test]
fn no_latest_message_means_empty_history() {
    let a = answer_of(0, 0, 0, 0, None);
    assert_eq!(State::on_latest(&a), State::Done(Outcome::EmptyHistory));
    let a = answer_of(0, 1, 5, 5, Some(vec![]));
    assert_eq!(State::on_latest(&a), State::Done(Outcome::EmptyHistory));
}

#[test]
fn failed_latest_message_ends_the_run() {
    let a = answer_of(-101, 1, 100, 100, Some(vec![0]));
    assert_eq!(State::on_latest(&a), State::Done(Outcome::RemoteFailure));
}

#[test]
fn page_with_more_history_moves_the_cursor_below_it() {
    let a = answer_of(0, 1, 96, 100, Some(vec![0, 0, 0]));
    assert_eq!(State::on_page(100, &a), State::Paging { cursor: 95 });
    assert!(State::takes(100, &a));
}

#[test]
fn last_page_completes_the_run() {
    let a = answer_of(0, 0, 95, 100, Some(vec![0]));
    assert_eq!(State::on_page(100, &a), State::Done(Outcome::Complete));
    assert!(State::takes(100, &a));
    let a = answer_of(0, 0, 0, 0, None);
    assert_eq!(State::on_page(0, &a), State::Done(Outcome::Complete));
    assert!(State::takes(0, &a));
}

#[test]
fn failed_page_is_discarded() {
    let a = answer_of(1, 1, 96, 100, Some(vec![0]));
    assert_eq!(State::on_page(100, &a), State::Done(Outcome::RemoteFailure));
    assert!(!State::takes(100, &a));
    let a = answer_of(-1, 0, 96, 100, Some(vec![0]));
    assert_eq!(State::on_page(100, &a), State::Done(Outcome::RemoteFailure));
    assert!(!State::takes(100, &a));
}

#[test]
fn empty_page_with_more_history_still_moves_on() {
    let a = answer_of(0, 1, 90, 95, None);
    assert_eq!(State::on_page(100, &a), State::Paging { cursor: 89 });
    assert!(State::takes(100, &a));
}

#[test]
fn page_without_bounds_that_claims_more_is_inconsistent() {
    let a = answer_of(0, 1, 0, 0, None);
    assert_eq!(State::on_page(100, &a), State::Done(Outcome::Inconsistent));
    assert!(!State::takes(100, &a));
}

#[test]
fn page_that_would_not_lower_the_cursor_is_inconsistent() {
    let a = answer_of(0, 1, 101, 105, Some(vec![0]));
    assert_eq!(State::on_page(100, &a), State::Done(Outcome::Inconsistent));
    assert!(!State::takes(100, &a));
    let a = answer_of(0, 1, 1, 1, Some(vec![0]));
    assert_eq!(State::on_page(0, &a), State::Done(Outcome::Inconsistent));
}

#[test]
fn lowest_page_that_still_moves_the_cursor() {
    let a = answer_of(0, 1, 100, 100, Some(vec![0]));
    assert_eq!(State::on_page(100, &a), State::Paging { cursor: 99 });
    let a = answer_of(0, 1, 1, 1, Some(vec![0]));
    assert_eq!(State::on_page(1, &a), State::Paging { cursor: 0 });
    let a = answer_of(0, -1, u64::MAX, u64::MAX, Some(vec![0]));
    assert_eq!(State::on_page(u64::MAX, &a), State::Paging { cursor: u64::MAX - 1 });
}

#[test]
fn page_counts_its_envelopes() {
    assert_eq!(answer_of(0, 0, 0, 0, None).data.count(), 0);
    assert_eq!(answer_of(0, 0, 0, 0, Some(vec![])).data.count(), 0);
    assert_eq!(answer_of(0, 0, 0, 0, Some(vec![1, 2, 3])).data.count(), 3);
}

#[test]
fn outcomes_that_fail_a_run() {
    assert!(Outcome::Inconsistent.is_fatal());
    assert!(Outcome::TransportFailure.is_fatal());
    assert!(Outcome::DecodeFailure.is_fatal());
    assert!(!Outcome::Complete.is_fatal());
    assert!(!Outcome::EmptyHistory.is_fatal());
    assert!(!Outcome::RemoteFailure.is_fatal());
    assert!(!Outcome::Cancelled.is_fatal());
}
