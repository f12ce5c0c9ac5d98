use bilibili_msg_history::models::message::Message;

fn envelope_at(timestamp: u64) -> Message {
    Message {
        sender_uid: 1,
        receiver_id: 2,
        receiver_type: 1,
        msg_type: 1,
        msg_seqno: 1,
        content: String::new(),
        timestamp,
    }
}

#[test]
fn epoch_in_utc() {
    assert_eq!(envelope_at(0).datetime(0), Some(String::from("1970-01-01 00:00:00")));
}

#[test]
fn instant_east_of_utc() {
    assert_eq!(
        envelope_at(1_700_000_000).datetime(8 * 3600),
        Some(String::from("2023-11-15 06:13:20"))
    );
}

#[test]
fn instant_in_utc() {
    assert_eq!(
        envelope_at(1_700_000_000).datetime(0),
        Some(String::from("2023-11-14 22:13:20"))
    );
}

#[test]
fn instant_west_of_utc() {
    assert_eq!(envelope_at(0).datetime(-3600), Some(String::from("1969-12-31 23:00:00")));
}

#[test]
fn offset_of_a_whole_day_is_no_clock() {
    assert_eq!(envelope_at(0).datetime(86_400), None);
    assert_eq!(envelope_at(0).datetime(-86_400), None);
    assert!(envelope_at(0).datetime(86_399).is_some());
    assert!(envelope_at(0).datetime(-86_399).is_some());
}

#[test]
fn timestamp_beyond_the_calendar() {
    assert_eq!(envelope_at(10_000_000_000_000).datetime(0), None);
    assert_eq!(envelope_at(i64::MAX as u64).datetime(0), None);
}

#[test]
fn timestamp_beyond_signed_seconds() {
    assert_eq!(envelope_at(i64::MAX as u64 + 1).datetime(0), None);
    assert_eq!(envelope_at(u64::MAX).datetime(0), None);
}

#[test]
fn clone_keeps_every_field() {
    let m = Message {
        sender_uid: 3,
        receiver_id: 4,
        receiver_type: 5,
        msg_type: 6,
        msg_seqno: 7,
        content: String::from("c"),
        timestamp: 8,
    };
    assert_eq!(m.clone(), m);
}

#[test]
fn last_second_of_the_calendar() {
    assert_eq!(
        envelope_at(8_210_266_876_799).datetime(0),
        Some(String::from("+262142-12-31 23:59:59"))
    );
    assert_eq!(envelope_at(8_210_266_876_800).datetime(0), None);
    assert!(envelope_at(8_210_266_876_799).datetime(86_399).is_some());
    assert!(envelope_at(8_210_266_876_799).datetime(-86_399).is_some());
}

#[test]
fn year_ten_thousand() {
    assert_eq!(envelope_at(253_402_300_799).datetime(0), Some(String::from("9999-12-31 23:59:59")));
    assert_eq!(
        envelope_at(253_402_300_800).datetime(0),
        Some(String::from("+10000-01-01 00:00:00"))
    );
}
