//! Addresses of the two fetches: the latest message, and one bounded page.

use crate::text::{decimal, decimal_text};
use vstd::prelude::*;
use vstd::string::*;

verus! {

/// The address that yields the most recent message exchanged with
/// `talker_uid`.
pub open spec fn latest_message_url(talker_uid: u64) -> Seq<char> {
    "https://api.vc.bilibili.com/svr_sync/v1/svr_sync/fetch_session_msgs?sender_device_id=1&talker_id="@
        + decimal(talker_uid as nat) + "&session_type=1&size=1&build=0&mobi_app=web"@
}

/// The address that yields at most `size` messages exchanged with
/// `talker_uid`, none of them with a sequence number above `end_seqno`.  The
/// service reads its end marker as an exclusive bound, so the marker in the
/// address is `end_seqno + 1`.
pub open spec fn message_collect_url(talker_uid: u64, size: u32, end_seqno: u64) -> Seq<char> {
    "https://api.vc.bilibili.com/svr_sync/v1/svr_sync/fetch_session_msgs?sender_device_id=1&talker_id="@
        + decimal(talker_uid as nat) + "&session_type=1&size="@ + decimal(size as nat)
        + "&end_seqno="@ + decimal((end_seqno + 1) as nat) + "&build=0&mobi_app=web"@
}

/// Builds the address of the fetch of the latest message.
pub fn latest_message_api(talker_uid: u64) -> (url: String)
    ensures
        url@ == latest_message_url(talker_uid),
{
    let mut url = String::from_str(
        "https://api.vc.bilibili.com/svr_sync/v1/svr_sync/fetch_session_msgs?sender_device_id=1&talker_id=",
    );
    url.append(decimal_text(talker_uid as u128).as_str());
    url.append("&session_type=1&size=1&build=0&mobi_app=web");
    url
}

/// Builds the address of the fetch of one page that ends at `end_seqno`.
pub fn message_collect_api(talker_uid: u64, size: u32, end_seqno: u64) -> (url: String)
    ensures
        url@ == message_collect_url(talker_uid, size, end_seqno),
{
    let mut url = String::from_str(
        "https://api.vc.bilibili.com/svr_sync/v1/svr_sync/fetch_session_msgs?sender_device_id=1&talker_id=",
    );
    url.append(decimal_text(talker_uid as u128).as_str());
    url.append("&session_type=1&size=");
    url.append(decimal_text(size as u128).as_str());
    url.append("&end_seqno=");
    url.append(decimal_text(end_seqno as u128 + 1).as_str());
    url.append("&build=0&mobi_app=web");
    url
}

} // verus!
