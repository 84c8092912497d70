use chzzk_chat::discovery::{
    after_channel_detail, after_live_detail, drop_adult, drop_registered, ChannelDetail,
    ChannelStep, EnrichAction, Enrichment, LiveCandidate, LiveDetail, PageCursor, Pagination,
    ScrapeReadyChannel,
};
use chzzk_chat::registry::ChannelRegistry;

fn cand(id: &str, viewers: u64, adult: bool) -> LiveCandidate {
    LiveCandidate { channel_id: id.to_string(), concurrent_user_count: viewers, adult }
}

fn ids(v: &[LiveCandidate]) -> Vec<String> {
    v.iter().map(|c| c.channel_id.clone()).collect()
}

#[test]
fn pagination_stops_on_page_with_short_item() {
    let mut p = Pagination::new(100);
    let cursor = PageCursor { concurrent_user_count: 150, live_id: 42 };
    let next = p.on_page(vec![cand("a", 500, false), cand("b", 150, false)], Some(cursor));
    assert_eq!(next, Some(cursor));
    let later = PageCursor { concurrent_user_count: 90, live_id: 43 };
    let next = p.on_page(vec![cand("c", 120, false), cand("d", 99, false), cand("e", 100, false)], Some(later));
    assert_eq!(next, None);
    assert_eq!(ids(&p.into_collected()), vec!["a", "b", "c", "e"]);
}

#[test]
fn pagination_stops_without_cursor() {
    let mut p = Pagination::new(10);
    let next = p.on_page(vec![cand("a", 50, false)], None);
    assert_eq!(next, None);
    assert_eq!(ids(&p.into_collected()), vec!["a"]);
}

#[test]
fn empty_first_page_gives_empty_result() {
    let mut p = Pagination::new(100);
    let next = p.on_page(vec![], None);
    assert_eq!(next, None);
    assert!(p.into_collected().is_empty());
}

#[test]
fn threshold_is_inclusive() {
    let mut p = Pagination::new(100);
    let cursor = PageCursor { concurrent_user_count: 100, live_id: 1 };
    assert_eq!(p.on_page(vec![cand("a", 100, false)], Some(cursor)), Some(cursor));
    assert_eq!(ids(&p.into_collected()), vec!["a"]);
}

#[test]
fn adult_broadcasts_are_dropped() {
    let lives = vec![cand("a", 500, true), cand("b", 400, false), cand("c", 300, true), cand("d", 200, false)];
    assert_eq!(ids(&drop_adult(&lives)), vec!["b", "d"]);
}

#[test]
fn missing_follower_count_skips_before_live_detail() {
    let detail = Some(ChannelDetail { channel_id: "a".to_string(), follower_count: None, open_live: Some(true) });
    assert_eq!(after_channel_detail(&detail), ChannelStep::Skip);
    assert_eq!(after_channel_detail(&None), ChannelStep::Skip);
}

#[test]
fn follower_count_leads_to_live_detail() {
    let detail = Some(ChannelDetail { channel_id: "a".to_string(), follower_count: Some(1234), open_live: None });
    assert_eq!(after_channel_detail(&detail), ChannelStep::FetchLiveDetail(1234));
}

#[test]
fn live_detail_with_chat_channel_assembles_ready_channel() {
    let live = Some(LiveDetail { chat_channel_id: Some("chat-9".to_string()) });
    let ready = after_live_detail("a", 77, &live).unwrap();
    assert_eq!(ready.channel_id, "a");
    assert_eq!(ready.chat_channel_id, "chat-9");
    assert_eq!(ready.follower_count, 77);
}

#[test]
fn live_detail_without_chat_channel_is_skipped() {
    assert!(after_live_detail("a", 77, &Some(LiveDetail { chat_channel_id: None })).is_none());
    assert!(after_live_detail("a", 77, &None).is_none());
}

#[test]
fn registered_channels_are_dropped() {
    let mut reg = ChannelRegistry::new();
    assert!(reg.try_acquire("b"));
    let mk = |id: &str| ScrapeReadyChannel { channel_id: id.to_string(), chat_channel_id: format!("c-{}", id), follower_count: 1 };
    let ready = vec![mk("a"), mk("b"), mk("c")];
    let left: Vec<String> = drop_registered(&ready, &reg).iter().map(|c| c.channel_id.clone()).collect();
    assert_eq!(left, vec!["a", "c"]);
}

#[test]
fn enrichment_runs_lookups_in_order() {
    let lives = vec![cand("a", 500, false), cand("x", 450, true), cand("b", 400, false), cand("c", 300, false)];
    let mut e = Enrichment::new(&lives);
    let mut lookups: Vec<String> = Vec::new();
    loop {
        match e.next_action() {
            EnrichAction::FetchChannel(id) => {
                lookups.push(format!("channel:{}", id));
                let follower = if id == "b" { None } else { Some(10) };
                e.on_channel_detail(&Some(ChannelDetail { channel_id: id.clone(), follower_count: follower, open_live: Some(true) }));
            }
            EnrichAction::FetchLiveDetail(id) => {
                lookups.push(format!("live:{}", id));
                let chat = if id == "c" { None } else { Some(format!("chat-{}", id)) };
                e.on_live_detail(&Some(LiveDetail { chat_channel_id: chat }));
            }
            EnrichAction::Finished => break,
        }
    }
    assert_eq!(lookups, vec!["channel:a", "live:a", "channel:b", "channel:c", "live:c"]);
    let mut reg = ChannelRegistry::new();
    let ready = e.finish(&reg);
    assert_eq!(ready.len(), 1);
    assert_eq!(ready[0].channel_id, "a");
    assert_eq!(ready[0].chat_channel_id, "chat-a");
    assert_eq!(ready[0].follower_count, 10);
    assert!(reg.try_acquire("a"));
}

#[test]
fn enrichment_of_nothing_finishes_at_once() {
    let e = Enrichment::new(&vec![cand("x", 500, true)]);
    assert!(matches!(e.next_action(), EnrichAction::Finished));
    assert!(e.finish(&ChannelRegistry::new()).is_empty());
}

#[test]
fn finish_drops_registered_channels() {
    let mut e = Enrichment::new(&vec![cand("a", 500, false)]);
    assert!(matches!(e.next_action(), EnrichAction::FetchChannel(_)));
    e.on_channel_detail(&Some(ChannelDetail { channel_id: "a".to_string(), follower_count: Some(3), open_live: None }));
    assert!(matches!(e.next_action(), EnrichAction::FetchLiveDetail(_)));
    e.on_live_detail(&Some(LiveDetail { chat_channel_id: Some("z".to_string()) }));
    let mut reg = ChannelRegistry::new();
    assert!(reg.try_acquire("a"));
    assert!(e.finish(&reg).is_empty());
}

#[test]
fn empty_ids_are_not_scrape_ready() {
    assert!(after_live_detail("a", 77, &Some(LiveDetail { chat_channel_id: Some(String::new()) })).is_none());
    assert!(after_live_detail("", 77, &Some(LiveDetail { chat_channel_id: Some("chat-9".to_string()) })).is_none());
}

#[test]
fn enrichment_skips_empty_chat_channel() {
    let mut e = Enrichment::new(&vec![cand("a", 500, false), cand("b", 400, false)]);
    e.on_channel_detail(&Some(ChannelDetail { channel_id: "a".to_string(), follower_count: Some(3), open_live: None }));
    e.on_live_detail(&Some(LiveDetail { chat_channel_id: Some(String::new()) }));
    match e.next_action() {
        EnrichAction::FetchChannel(id) => assert_eq!(id, "b"),
        _ => panic!("expected next candidate"),
    }
    e.on_channel_detail(&Some(ChannelDetail { channel_id: "b".to_string(), follower_count: Some(4), open_live: None }));
    e.on_live_detail(&Some(LiveDetail { chat_channel_id: Some("chat-b".to_string()) }));
    let ready = e.finish(&ChannelRegistry::new());
    assert_eq!(ready.len(), 1);
    assert_eq!(ready[0].channel_id, "b");
}
