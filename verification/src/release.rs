//! The release catalog: what it answers, and what the library makes of it.

use vstd::prelude::*;
use crate::error::{ErrorKind, ErrorKindView, InstallError, InstallErrorView, failure};
use crate::text::{join, decimal, decimal_text};
use crate::version::{normalize_tag, tag_version};
use vstd::string::StringExecFns;

verus! {

/// How many releases a listing shows at most.
pub const MAX_LISTED_RELEASES: usize = 5;

/// The address of the release collection.
pub open spec fn releases_api() -> Seq<char> {
    "https://api.github.com/repos/openai/codex/releases"@
}

/// The address of the release collection.
pub fn releases_url() -> (url: &'static str)
    ensures
        url@ == releases_api(),
{
    "https://api.github.com/repos/openai/codex/releases"
}

/// The address that answers with the most recent release.
pub fn latest_release_url() -> (url: String)
    ensures
        url@ == releases_api() + "/latest"@,
{
    join(releases_url(), "/latest")
}

/// The name by which requests to the catalog identify their sender.
pub fn client_identifier() -> (agent: &'static str)
    ensures
        agent@ == "Jean-App/1.0"@,
{
    "Jean-App/1.0"
}

/// A file attached to a release.
#[derive(Clone, Debug, PartialEq, Eq)]
pub struct GitHubAsset {
    pub name: String,
    pub browser_download_url: String,
}

/// A release as the catalog describes it.
#[derive(Clone, Debug, PartialEq, Eq)]
pub struct GitHubRelease {
    pub tag_name: String,
    pub published_at: String,
    pub prerelease: bool,
    pub assets: Vec<GitHubAsset>,
}

/// A release as this library reports it.
#[derive(Clone, Debug, PartialEq, Eq)]
pub struct CodexReleaseInfo {
    /// The tag without its leading `v`.
    pub version: String,
    /// The tag as the catalog gives it.
    pub tag_name: String,
    /// When the release was published, as the catalog writes it.
    pub published_at: String,
    /// Whether the release is marked as not yet final.
    pub prerelease: bool,
}

/// A [`CodexReleaseInfo`] as contracts see it.
pub struct ReleaseInfoView {
    pub version: Seq<char>,
    pub tag_name: Seq<char>,
    pub published_at: Seq<char>,
    pub prerelease: bool,
}

impl View for CodexReleaseInfo {
    type V = ReleaseInfoView;

    open spec fn view(&self) -> ReleaseInfoView {
        ReleaseInfoView {
            version: self.version@,
            tag_name: self.tag_name@,
            published_at: self.published_at@,
            prerelease: self.prerelease,
        }
    }
}

/// The view of each element of a listing.
pub open spec fn listing_view(list: Seq<CodexReleaseInfo>) -> Seq<ReleaseInfoView> {
    list.map_values(|info: CodexReleaseInfo| info@)
}

/// What came back from a request: nothing at all, or a status, the reason
/// phrase that goes with it, and a body that either decoded to a `T` or
/// did not, for the reason given.
#[derive(Debug, PartialEq, Eq)]
pub enum HttpReply<T> {
    Unreachable { reason: String },
    Answered { status: u16, phrase: String, body: Result<T, String> },
}

/// The statuses that count as success.
pub open spec fn is_success(status: u16) -> bool {
    200 <= status <= 299
}

/// Whether a status counts as success.
pub fn status_is_success(status: u16) -> (ok: bool)
    ensures
        ok == is_success(status),
{
    200 <= status && status <= 299
}

/// Whether a release has anything to download.
pub open spec fn has_assets(release: GitHubRelease) -> bool {
    release.assets@.len() > 0
}

/// What is reported of a release: its tag, the version the tag stands for,
/// and the catalog's date and flag unchanged.
pub open spec fn info_of(release: GitHubRelease) -> ReleaseInfoView {
    ReleaseInfoView {
        version: tag_version(release.tag_name@),
        tag_name: release.tag_name@,
        published_at: release.published_at@,
        prerelease: release.prerelease,
    }
}

/// The first `limit` releases that have assets, in catalog order.
pub open spec fn listed(releases: Seq<GitHubRelease>, limit: nat) -> Seq<ReleaseInfoView>
    decreases releases.len(),
{
    if limit == 0 || releases.len() == 0 {
        Seq::empty()
    } else if has_assets(releases[0]) {
        seq![info_of(releases[0])] + listed(releases.skip(1), (limit - 1) as nat)
    } else {
        listed(releases.skip(1), limit)
    }
}

/// The failure for a request of `what` that got no answer.
pub open spec fn no_answer(what: Seq<char>, reason: Seq<char>) -> InstallErrorView {
    failure(ErrorKindView::Network, what, reason)
}

/// A status as it is written in messages: the number, then the phrase.
pub open spec fn status_text(status: u16, phrase: Seq<char>) -> Seq<char> {
    decimal_text(status as nat) + " "@ + phrase
}

/// The failure for an answer with a status outside the success range.
pub open spec fn refused(what: Seq<char>, status: u16, phrase: Seq<char>) -> InstallErrorView {
    failure(ErrorKindView::Http { status }, what, status_text(status, phrase))
}

/// The failure for an answer whose body did not decode.
pub open spec fn malformed(what: Seq<char>, reason: Seq<char>) -> InstallErrorView {
    failure(ErrorKindView::Parse, what, reason)
}

/// What a listing request comes to.
pub open spec fn available_versions(reply: HttpReply<Vec<GitHubRelease>>) -> Result<
    Seq<ReleaseInfoView>,
    InstallErrorView,
> {
    match reply {
        HttpReply::Unreachable { reason } => Err(
            no_answer("Failed to fetch releases: "@, reason@),
        ),
        HttpReply::Answered { status, phrase, body } => if !is_success(status) {
            Err(refused("GitHub API returned status: "@, status, phrase@))
        } else {
            match body {
                Err(reason) => Err(malformed("Failed to parse GitHub API response: "@, reason@)),
                Ok(releases) => Ok(listed(releases@, MAX_LISTED_RELEASES as nat)),
            }
        },
    }
}

/// What a request for the latest release comes to: its version.
pub open spec fn latest_version(reply: HttpReply<GitHubRelease>) -> Result<
    Seq<char>,
    InstallErrorView,
> {
    match reply {
        HttpReply::Unreachable { reason } => Err(
            no_answer("Failed to fetch latest release: "@, reason@),
        ),
        HttpReply::Answered { status, phrase, body } => if !is_success(status) {
            Err(refused("Failed to fetch latest release: HTTP "@, status, phrase@))
        } else {
            match body {
                Err(reason) => Err(malformed("Failed to parse release info: "@, reason@)),
                Ok(release) => Ok(tag_version(release.tag_name@)),
            }
        },
    }
}

/// Whether `info` describes one of `releases` that has assets.
pub open spec fn describes_release_with_assets(
    releases: Seq<GitHubRelease>,
    info: ReleaseInfoView,
) -> bool {
    exists|j: int|
        0 <= j < releases.len() && has_assets(#[trigger] releases[j]) && info == info_of(
            releases[j],
        )
}

/// A listing never has more than `limit` entries, and each of them describes
/// a release of the catalog that has assets.
pub proof fn lemma_listed_from_releases_with_assets(releases: Seq<GitHubRelease>, limit: nat)
    ensures
        listed(releases, limit).len() <= limit,
        listed(releases, limit).len() <= releases.len(),
        forall|k: int|
            0 <= k < listed(releases, limit).len() ==> describes_release_with_assets(
                releases,
                #[trigger] listed(releases, limit)[k],
            ),
    decreases releases.len(),
{
    if limit == 0 || releases.len() == 0 {
    } else {
        let rest = releases.skip(1);
        let sub_limit = if has_assets(releases[0]) {
            (limit - 1) as nat
        } else {
            limit
        };
        lemma_listed_from_releases_with_assets(rest, sub_limit);
        let sub = listed(rest, sub_limit);
        let all = listed(releases, limit);
        assert forall|k: int| 0 <= k < all.len() implies describes_release_with_assets(
            releases,
            #[trigger] all[k],
        ) by {
            if has_assets(releases[0]) && k == 0 {
                assert(has_assets(releases[0]) && all[0] == info_of(releases[0]));
            } else {
                let k2 = if has_assets(releases[0]) {
                    k - 1
                } else {
                    k
                };
                assert(all[k] == sub[k2]);
                assert(describes_release_with_assets(rest, sub[k2]));
                let j2 = choose|j: int|
                    0 <= j < rest.len() && has_assets(#[trigger] rest[j]) && sub[k2] == info_of(
                        rest[j],
                    );
                assert(rest[j2] == releases[j2 + 1]);
                assert(has_assets(releases[j2 + 1]) && all[k] == info_of(releases[j2 + 1]));
            }
        }
    }
}

/// The failure for an answer with a status outside the success range.
pub fn refusal(what: &str, status: u16, phrase: &str) -> (error: InstallError)
    ensures
        error@ == refused(what@, status, phrase@),
{
    let mut text = decimal(status as u64);
    text.append(" ");
    text.append(phrase);
    InstallError::new(ErrorKind::Http { status }, what, text.as_str())
}

fn info_from(release: &GitHubRelease) -> (info: CodexReleaseInfo)
    ensures
        info@ == info_of(*release),
{
    CodexReleaseInfo {
        version: normalize_tag(release.tag_name.as_str()),
        tag_name: release.tag_name.clone(),
        published_at: release.published_at.clone(),
        prerelease: release.prerelease,
    }
}

/// The releases to offer, newest first as the catalog lists them: those that
/// have assets, five at most.
pub fn select_releases(releases: &Vec<GitHubRelease>) -> (list: Vec<CodexReleaseInfo>)
    ensures
        listing_view(list@) == listed(releases@, MAX_LISTED_RELEASES as nat),
        list.len() <= MAX_LISTED_RELEASES,
{
    let mut list: Vec<CodexReleaseInfo> = Vec::new();
    let mut i: usize = 0;
    assert(releases@.skip(0) =~= releases@);
    assert(listing_view(list@) + listed(releases@, MAX_LISTED_RELEASES as nat) =~= listed(
        releases@,
        MAX_LISTED_RELEASES as nat,
    ));
    while i < releases.len() && list.len() < MAX_LISTED_RELEASES
        invariant
            i <= releases.len(),
            list.len() <= MAX_LISTED_RELEASES,
            listed(releases@, MAX_LISTED_RELEASES as nat) == listing_view(list@) + listed(
                releases@.skip(i as int),
                (MAX_LISTED_RELEASES - list.len()) as nat,
            ),
        decreases releases.len() - i,
    {
        let ghost before = listing_view(list@);
        let ghost rest = releases@.skip(i as int);
        assert(rest[0] == releases@[i as int]);
        assert(rest.skip(1) =~= releases@.skip(i + 1));
        if releases[i].assets.len() > 0 {
            let info = info_from(&releases[i]);
            list.push(info);
            assert(listing_view(list@) =~= before + seq![info_of(releases@[i as int])]);
            assert(listing_view(list@) + listed(
                releases@.skip(i + 1),
                (MAX_LISTED_RELEASES - list.len()) as nat,
            ) =~= before + (seq![info_of(releases@[i as int])] + listed(
                releases@.skip(i + 1),
                (MAX_LISTED_RELEASES - list.len()) as nat,
            )));
        }
        i += 1;
    }
    assert(listing_view(list@) + Seq::<ReleaseInfoView>::empty() =~= listing_view(list@));
    list
}

/// The versions on offer, from the catalog's answer to a listing request.
///
/// No answer is a network failure, a status outside 200..=299 an HTTP
/// failure, a body that did not decode a parse failure. Otherwise the
/// releases that have assets are listed, five at most, in catalog order.
pub fn get_available_codex_versions(reply: &HttpReply<Vec<GitHubRelease>>) -> (versions: Result<
    Vec<CodexReleaseInfo>,
    InstallError,
>)
    ensures
        match available_versions(*reply) {
            Ok(expected) => versions matches Ok(list) && listing_view(list@) == expected
                && list.len() <= MAX_LISTED_RELEASES,
            Err(expected) => versions matches Err(e) && e@ == expected,
        },
{
    match reply {
        HttpReply::Unreachable { reason } => Err(
            InstallError::new(ErrorKind::Network, "Failed to fetch releases: ", reason.as_str()),
        ),
        HttpReply::Answered { status, phrase, body } => {
            if !status_is_success(*status) {
                Err(refusal("GitHub API returned status: ", *status, phrase.as_str()))
            } else {
                match body {
                    Err(reason) => Err(
                        InstallError::new(
                            ErrorKind::Parse,
                            "Failed to parse GitHub API response: ",
                            reason.as_str(),
                        ),
                    ),
                    Ok(releases) => Ok(select_releases(releases)),
                }
            }
        },
    }
}

/// The version of the latest release, from the catalog's answer to the
/// request for it: the release's tag without its leading `v`.
pub fn fetch_latest_codex_version(reply: &HttpReply<GitHubRelease>) -> (version: Result<
    String,
    InstallError,
>)
    ensures
        match latest_version(*reply) {
            Ok(expected) => version matches Ok(v) && v@ == expected,
            Err(expected) => version matches Err(e) && e@ == expected,
        },
{
    match reply {
        HttpReply::Unreachable { reason } => Err(
            InstallError::new(
                ErrorKind::Network,
                "Failed to fetch latest release: ",
                reason.as_str(),
            ),
        ),
        HttpReply::Answered { status, phrase, body } => {
            if !status_is_success(*status) {
                Err(refusal("Failed to fetch latest release: HTTP ", *status, phrase.as_str()))
            } else {
                match body {
                    Err(reason) => Err(
                        InstallError::new(
                            ErrorKind::Parse,
                            "Failed to parse release info: ",
                            reason.as_str(),
                        ),
                    ),
                    Ok(release) => Ok(normalize_tag(release.tag_name.as_str())),
                }
            }
        },
    }
}

} // verus!
