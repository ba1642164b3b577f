use vstd::prelude::*;

verus! {

/// How a remote method is invoked: a read-only query, or an update that the
/// network agrees on before it answers.
#[derive(Clone, Copy, Debug, PartialEq, Eq, Structural)]
pub enum CallKind {
    Query,
    Update,
}

/// The remote methods of the post cache canister.
#[derive(Clone, Copy, Debug, PartialEq, Eq, Structural)]
pub enum ServiceMethod {
    GetCycleBalance,
    GetTopPostsForHomeFeedCursor,
    GetTopPostsForHotOrNotFeedCursor,
    GetWellKnownPrincipalValue,
    HttpRequest,
    ReceiveTopHomeFeedPosts,
    ReceiveTopHotOrNotFeedPosts,
    RemoveAllFeedEntries,
    UpdatePostHomeFeed,
    UpdatePostHotOrNotFeed,
}

impl ServiceMethod {
    /// The name under which the canister exports the method.
    pub open spec fn spec_name(self) -> Seq<char> {
        match self {
            ServiceMethod::GetCycleBalance => "get_cycle_balance"@,
            ServiceMethod::GetTopPostsForHomeFeedCursor =>
                "get_top_posts_aggregated_from_canisters_on_this_network_for_home_feed_cursor"@,
            ServiceMethod::GetTopPostsForHotOrNotFeedCursor =>
                "get_top_posts_aggregated_from_canisters_on_this_network_for_hot_or_not_feed_cursor"@,
            ServiceMethod::GetWellKnownPrincipalValue => "get_well_known_principal_value"@,
            ServiceMethod::HttpRequest => "http_request"@,
            ServiceMethod::ReceiveTopHomeFeedPosts =>
                "receive_top_home_feed_posts_from_publishing_canister"@,
            ServiceMethod::ReceiveTopHotOrNotFeedPosts =>
                "receive_top_hot_or_not_feed_posts_from_publishing_canister"@,
            ServiceMethod::RemoveAllFeedEntries => "remove_all_feed_entries"@,
            ServiceMethod::UpdatePostHomeFeed => "update_post_home_feed"@,
            ServiceMethod::UpdatePostHotOrNotFeed => "update_post_hot_or_not_feed"@,
        }
    }

    /// Reads (the cycle balance, feed pages, well-known ids, HTTP) are
    /// queries; everything that changes the feeds is an update.
    pub open spec fn spec_kind(self) -> CallKind {
        match self {
            ServiceMethod::GetCycleBalance
            | ServiceMethod::GetTopPostsForHomeFeedCursor
            | ServiceMethod::GetTopPostsForHotOrNotFeedCursor
            | ServiceMethod::GetWellKnownPrincipalValue
            | ServiceMethod::HttpRequest => CallKind::Query,
            _ => CallKind::Update,
        }
    }

    /// The exported name of the method.
    pub fn name(&self) -> (r: &'static str)
        ensures
            r@ == self.spec_name(),
    {
        match self {
            ServiceMethod::GetCycleBalance => "get_cycle_balance",
            ServiceMethod::GetTopPostsForHomeFeedCursor =>
                "get_top_posts_aggregated_from_canisters_on_this_network_for_home_feed_cursor",
            ServiceMethod::GetTopPostsForHotOrNotFeedCursor =>
                "get_top_posts_aggregated_from_canisters_on_this_network_for_hot_or_not_feed_cursor",
            ServiceMethod::GetWellKnownPrincipalValue => "get_well_known_principal_value",
            ServiceMethod::HttpRequest => "http_request",
            ServiceMethod::ReceiveTopHomeFeedPosts =>
                "receive_top_home_feed_posts_from_publishing_canister",
            ServiceMethod::ReceiveTopHotOrNotFeedPosts =>
                "receive_top_hot_or_not_feed_posts_from_publishing_canister",
            ServiceMethod::RemoveAllFeedEntries => "remove_all_feed_entries",
            ServiceMethod::UpdatePostHomeFeed => "update_post_home_feed",
            ServiceMethod::UpdatePostHotOrNotFeed => "update_post_hot_or_not_feed",
        }
    }

    /// Whether the method is invoked as a query or as an update.
    pub fn kind(&self) -> (r: CallKind)
        ensures
            r == self.spec_kind(),
    {
        match self {
            ServiceMethod::GetCycleBalance
            | ServiceMethod::GetTopPostsForHomeFeedCursor
            | ServiceMethod::GetTopPostsForHotOrNotFeedCursor
            | ServiceMethod::GetWellKnownPrincipalValue
            | ServiceMethod::HttpRequest => CallKind::Query,
            _ => CallKind::Update,
        }
    }
}

/// Distinct methods are exported under distinct names, so a name identifies
/// the method it invokes.
pub proof fn lemma_names_identify_methods(a: ServiceMethod, b: ServiceMethod)
    requires
        a != b,
    ensures
        a.spec_name() != b.spec_name(),
{
    assert(a.spec_name().len() != b.spec_name().len()) by {
        reveal_strlit("get_cycle_balance");
        reveal_strlit("get_top_posts_aggregated_from_canisters_on_this_network_for_home_feed_cursor");
        reveal_strlit("get_top_posts_aggregated_from_canisters_on_this_network_for_hot_or_not_feed_cursor");
        reveal_strlit("get_well_known_principal_value");
        reveal_strlit("http_request");
        reveal_strlit("receive_top_home_feed_posts_from_publishing_canister");
        reveal_strlit("receive_top_hot_or_not_feed_posts_from_publishing_canister");
        reveal_strlit("remove_all_feed_entries");
        reveal_strlit("update_post_home_feed");
        reveal_strlit("update_post_hot_or_not_feed");
    }
}

} // verus!
