use post_cache::service::{CallKind, ServiceMethod};

const ALL: [ServiceMethod; 10] = [
    ServiceMethod::GetCycleBalance,
    ServiceMethod::GetTopPostsForHomeFeedCursor,
    ServiceMethod::GetTopPostsForHotOrNotFeedCursor,
    ServiceMethod::GetWellKnownPrincipalValue,
    ServiceMethod::HttpRequest,
    ServiceMethod::ReceiveTopHomeFeedPosts,
    ServiceMethod::ReceiveTopHotOrNotFeedPosts,
    ServiceMethod::RemoveAllFeedEntries,
    ServiceMethod::UpdatePostHomeFeed,
    ServiceMethod::UpdatePostHotOrNotFeed,
];

#[test]
fn names_are_the_exported_names() {
    assert_eq!(ServiceMethod::GetCycleBalance.name(), "get_cycle_balance");
    assert_eq!(
        ServiceMethod::GetTopPostsForHomeFeedCursor.name(),
        "get_top_posts_aggregated_from_canisters_on_this_network_for_home_feed_cursor"
    );
    assert_eq!(
        ServiceMethod::GetTopPostsForHotOrNotFeedCursor.name(),
        "get_top_posts_aggregated_from_canisters_on_this_network_for_hot_or_not_feed_cursor"
    );
    assert_eq!(
        ServiceMethod::GetWellKnownPrincipalValue.name(),
        "get_well_known_principal_value"
    );
    assert_eq!(ServiceMethod::HttpRequest.name(), "http_request");
    assert_eq!(
        ServiceMethod::ReceiveTopHomeFeedPosts.name(),
        "receive_top_home_feed_posts_from_publishing_canister"
    );
    assert_eq!(
        ServiceMethod::ReceiveTopHotOrNotFeedPosts.name(),
        "receive_top_hot_or_not_feed_posts_from_publishing_canister"
    );
    assert_eq!(ServiceMethod::RemoveAllFeedEntries.name(), "remove_all_feed_entries");
    assert_eq!(ServiceMethod::UpdatePostHomeFeed.name(), "update_post_home_feed");
    assert_eq!(ServiceMethod::UpdatePostHotOrNotFeed.name(), "update_post_hot_or_not_feed");
}

#[test]
fn reads_are_queries_and_writes_are_updates() {
    for m in ALL {
        let expected = if m.name().starts_with("get_") || m == ServiceMethod::HttpRequest {
            CallKind::Query
        } else {
            CallKind::Update
        };
        assert_eq!(m.kind(), expected, "{:?}", m);
    }
    assert_eq!(ServiceMethod::RemoveAllFeedEntries.kind(), CallKind::Update);
    assert_eq!(ServiceMethod::GetCycleBalance.kind(), CallKind::Query);
}

#[test]
fn each_name_belongs_to_one_method() {
    for a in ALL {
        for b in ALL {
            assert_eq!(a == b, a.name() == b.name());
        }
    }
}
