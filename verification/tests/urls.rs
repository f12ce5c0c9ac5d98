use bilibili_msg_history::api::collect::{latest_message_api, message_collect_api};
use bilibili_msg_history::text::decimal_text;

#[test]
fn latest_message_address_is_exact() {
    assert_eq!(
        latest_message_api(319521269),
        "https://api.vc.bilibili.com/svr_sync/v1/svr_sync/fetch_session_msgs?sender_device_id=1&talker_id=319521269&session_type=1&size=1&build=0&mobi_app=web"
    );
}

#[test]
fn latest_message_address_of_peer_zero() {
    assert_eq!(
        latest_message_api(0),
        "https://api.vc.bilibili.com/svr_sync/v1/svr_sync/fetch_session_msgs?sender_device_id=1&talker_id=0&session_type=1&size=1&build=0&mobi_app=web"
    );
}

#[test]
fn page_address_passes_boundary_plus_one() {
    assert_eq!(
        message_collect_api(42, 200, 100),
        "https://api.vc.bilibili.com/svr_sync/v1/svr_sync/fetch_session_msgs?sender_device_id=1&talker_id=42&session_type=1&size=200&end_seqno=101&build=0&mobi_app=web"
    );
}

#[test]
fn page_address_at_cursor_zero() {
    let url = message_collect_api(7, 20, 0);
    assert!(url.contains("&size=20&end_seqno=1&build=0"));
}

#[test]
fn page_address_at_highest_cursor() {
    let url = message_collect_api(u64::MAX, u32::MAX, u64::MAX);
    assert_eq!(
        url,
        "https://api.vc.bilibili.com/svr_sync/v1/svr_sync/fetch_session_msgs?sender_device_id=1&talker_id=18446744073709551615&session_type=1&size=4294967295&end_seqno=18446744073709551616&build=0&mobi_app=web"
    );
}

#[test]
fn decimal_of_single_digits() {
    assert_eq!(decimal_text(0), "0");
    assert_eq!(decimal_text(7), "7");
    assert_eq!(decimal_text(9), "9");
}

#[test]
fn decimal_of_longer_numbers() {
    assert_eq!(decimal_text(10), "10");
    assert_eq!(decimal_text(101), "101");
    assert_eq!(decimal_text(1234567890), "1234567890");
    assert_eq!(decimal_text(u128::MAX), "340282366920938463463374607431768211455");
}

#[test]
fn decimal_agrees_with_std() {
    let mut n: u128 = 1;
    for _ in 0..38 {
        assert_eq!(decimal_text(n), n.to_string());
        assert_eq!(decimal_text(n - 1), (n - 1).to_string());
        n *= 10;
    }
}
