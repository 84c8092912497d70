use vstd::prelude::*;
use vstd::string::StringExecFns;
use crate::discovery::PageCursor;

verus! {

/// The decimal digit character of `d`, for `d < 10`.
pub open spec fn digit_char(d: nat) -> char {
    if d == 0 {
        '0'
    } else if d == 1 {
        '1'
    } else if d == 2 {
        '2'
    } else if d == 3 {
        '3'
    } else if d == 4 {
        '4'
    } else if d == 5 {
        '5'
    } else if d == 6 {
        '6'
    } else if d == 7 {
        '7'
    } else if d == 8 {
        '8'
    } else {
        '9'
    }
}

/// The decimal notation of `n`, without leading zeros.
pub open spec fn decimal_of(n: nat) -> Seq<char>
    decreases n,
{
    if n < 10 {
        seq![digit_char(n)]
    } else {
        decimal_of(n / 10).push(digit_char(n % 10))
    }
}

fn digit_str(d: u64) -> (r: &'static str)
    requires
        d < 10,
    ensures
        r@ == seq![digit_char(d as nat)],
{
    proof {
        reveal_strlit("0");
        reveal_strlit("1");
        reveal_strlit("2");
        reveal_strlit("3");
        reveal_strlit("4");
        reveal_strlit("5");
        reveal_strlit("6");
        reveal_strlit("7");
        reveal_strlit("8");
        reveal_strlit("9");
    }
    let r = if d == 0 {
        "0"
    } else if d == 1 {
        "1"
    } else if d == 2 {
        "2"
    } else if d == 3 {
        "3"
    } else if d == 4 {
        "4"
    } else if d == 5 {
        "5"
    } else if d == 6 {
        "6"
    } else if d == 7 {
        "7"
    } else if d == 8 {
        "8"
    } else {
        "9"
    };
    assert(r@ =~= seq![digit_char(d as nat)]);
    r
}

/// Writes `n` in decimal.
pub fn decimal(n: u64) -> (r: String)
    ensures
        r@ == decimal_of(n as nat),
    decreases n,
{
    if n < 10 {
        String::from_str(digit_str(n))
    } else {
        let mut s = decimal(n / 10);
        s.append(digit_str(n % 10));
        s
    }
}

/// The first page of the popularity listing.
pub open spec fn lives_base() -> Seq<char> {
    "https://api.chzzk.naver.com/service/v1/lives?size=50&sortType=POPULAR"@
}

/// The listing page that a cursor points at; the first page without one.
pub open spec fn lives_url_of(next: Option<PageCursor>) -> Seq<char> {
    match next {
        Some(c) => lives_base() + "&concurrentUserCount="@ + decimal_of(
            c.concurrent_user_count as nat,
        ) + "&liveId="@ + decimal_of(c.live_id as nat),
        None => lives_base(),
    }
}

/// The address of a listing page.
pub fn lives_url(next: Option<PageCursor>) -> (r: String)
    ensures
        r@ == lives_url_of(next),
{
    let mut url = String::from_str("https://api.chzzk.naver.com/service/v1/lives?size=50&sortType=POPULAR");
    match next {
        Some(c) => {
            url.append("&concurrentUserCount=");
            url.append(decimal(c.concurrent_user_count).as_str());
            url.append("&liveId=");
            url.append(decimal(c.live_id).as_str());
        },
        None => {},
    }
    url
}

/// The address of a channel's detail.
pub fn channel_url(channel_id: &str) -> (r: String)
    ensures
        r@ == "https://api.chzzk.naver.com/service/v1/channels/"@ + channel_id@,
{
    let mut url = String::from_str("https://api.chzzk.naver.com/service/v1/channels/");
    url.append(channel_id);
    url
}

/// The address of a channel's live detail.
pub fn live_detail_url(channel_id: &str) -> (r: String)
    ensures
        r@ == "https://api.chzzk.naver.com/service/v3/channels/"@ + channel_id@ + "/live-detail"@,
{
    let mut url = String::from_str("https://api.chzzk.naver.com/service/v3/channels/");
    url.append(channel_id);
    url.append("/live-detail");
    url
}

} // verus!
