use vstd::prelude::*;

verus! {

/// `candid::Principal` (a canister or user id): carried through the records
/// below without being read.
#[verifier::external_type_specification]
#[verifier::external_body]
pub struct ExPrincipal(candid::Principal);

/// Well-known services whose ids the post cache can report.
#[derive(Clone, Copy, Debug, PartialEq, Eq, Structural)]
pub enum KnownPrincipalType {
    CanisterIdUserIndex,
    CanisterIdPlatformOrchestrator,
    CanisterIdConfiguration,
    CanisterIdProjectMemberIndex,
    CanisterIdTopicCacheIndex,
    CanisterIdRootCanister,
    CanisterIdDataBackup,
    CanisterIdPostCache,
    CanisterIdSnsController,
    CanisterIdSnsGovernance,
    UserIdGlobalSuperAdmin,
}

/// Arguments the post cache canister is installed or upgraded with.
pub struct PostCacheInitArgs {
    pub known_principal_ids: Option<Vec<(KnownPrincipalType, candid::Principal)>>,
    pub version: String,
    pub upgrade_version_number: Option<u64>,
}

/// Lifecycle state of a post.
#[derive(Clone, Copy, Debug, PartialEq, Eq, Structural)]
pub enum PostStatus {
    BannedForExplicitness,
    BannedDueToUserReporting,
    Uploaded,
    CheckingExplicitness,
    ReadyToView,
    Transcoding,
    Deleted,
}

/// Which posts a feed query returns with respect to their NSFW flag.
#[derive(Clone, Copy, Debug, PartialEq, Eq, Structural)]
pub enum NsfwFilter {
    IncludeNsfw,
    OnlyNsfw,
    ExcludeNsfw,
}

/// A point in time as seconds and nanoseconds since the Unix epoch.
#[derive(Clone, Copy, Debug, PartialEq, Eq, Structural)]
pub struct SystemTime {
    pub nanos_since_epoch: u32,
    pub secs_since_epoch: u64,
}

/// One scored entry of a feed index.
pub struct PostScoreIndexItemV1 {
    pub is_nsfw: bool,
    pub status: PostStatus,
    pub post_id: u64,
    pub created_at: Option<SystemTime>,
    pub score: u64,
    pub publisher_canister_id: candid::Principal,
}

/// Why a page of top posts could not be returned.
#[derive(Clone, Copy, Debug, PartialEq, Eq, Structural)]
pub enum TopPostsFetchError {
    ReachedEndOfItemsList,
    InvalidBoundsPassed,
    ExceededMaxNumberOfItemsAllowedInOneRequest,
}

/// Reply of the top-posts queries: a page of entries, or the reason for none.
pub enum Result_ {
    Posts(Vec<PostScoreIndexItemV1>),
    Error(TopPostsFetchError),
}

/// An HTTP request relayed to the canister.
pub struct HttpRequest {
    pub url: String,
    pub method: String,
    pub body: Vec<u8>,
    pub headers: Vec<(String, String)>,
}

/// The canister's answer to an [`HttpRequest`].
pub struct HttpResponse {
    pub body: Vec<u8>,
    pub headers: Vec<(String, String)>,
    pub status_code: u16,
}

} // verus!
