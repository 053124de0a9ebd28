//! Shaping the code-review feeds: which notifications are shown and how
//! their addresses are turned into web addresses, and what is kept of each
//! pull request.
//!
//! One item that lacks a field it needs is skipped and never stops the
//! others; a document that is no JSON at all is an error of the whole
//! fetch, which the caller answers by keeping what it showed before.

use vstd::prelude::*;
use vstd::string::StringExecFns;
use crate::json::{json_of_text, json_views, read_json, Json, JsonView};
use crate::pattern::{captures, captures_view, group, group_of, regex_captures, regex_compiles};
use crate::poller::FeedError;
use crate::state::{GitHubNotification, NotificationView, PullRequest, PullRequestView};
use crate::text::{optional_text, replace_all, replaced, same_text};
use crate::timestamps::{read_timestamp, rfc3339_timestamp};

verus! {

/// Host and path prefix of a subject's address in the programming
/// interface.
pub const API_PREFIX: &'static str = "api.github.com/repos";

/// Host that takes the prefix's place in a web address.
pub const WEB_HOST: &'static str = "github.com";

/// Path segment of a pull request in the programming interface.
pub const API_PULLS: &'static str = "/pulls/";

/// Path segment of a pull request in a web address.
pub const WEB_PULL: &'static str = "/pull/";

/// Whether notifications raised for `reason` are left out.
pub open spec fn dropped_reason(reason: Seq<char>) -> bool {
    reason == "state_change"@ || reason == "team_mention"@ || reason == "assign"@
}

/// Whether notifications raised for `reason` are left out.
pub fn is_dropped_reason(reason: &str) -> (dropped: bool)
    ensures
        dropped == dropped_reason(reason@),
{
    same_text(reason, "state_change") || same_text(reason, "team_mention") || same_text(
        reason,
        "assign",
    )
}

/// The web address for a subject's address in the programming interface.
pub open spec fn web_url(api_url: Seq<char>) -> Seq<char> {
    replaced(replaced(api_url, API_PREFIX@, WEB_HOST@), API_PULLS@, WEB_PULL@)
}

/// Turns a subject's address in the programming interface into the web
/// address of the same subject.
pub fn resolve_url(api_url: &str) -> (url: String)
    ensures
        url@ == web_url(api_url@),
        url@.len() == 0 <==> api_url@.len() == 0,
{
    proof {
        reveal_strlit("api.github.com/repos");
        reveal_strlit("github.com");
        reveal_strlit("/pulls/");
        reveal_strlit("/pull/");
        crate::text::lemma_replaced_keeps_nonempty(api_url@, API_PREFIX@, WEB_HOST@);
        crate::text::lemma_replaced_keeps_nonempty(
            replaced(api_url@, API_PREFIX@, WEB_HOST@),
            API_PULLS@,
            WEB_PULL@,
        );
    }
    let on_web = replace_all(api_url, API_PREFIX, WEB_HOST);
    replace_all(on_web.as_str(), API_PULLS, WEB_PULL)
}

/// The text of member `name` of the item's subject, or the empty text.
pub open spec fn subject_text(item: JsonView, name: Seq<char>) -> Seq<char> {
    match item.member_of("subject"@) {
        Some(subject) => match subject.member_text(name) {
            Some(t) => t,
            None => Seq::empty(),
        },
        None => Seq::empty(),
    }
}

/// The name of the item's repository.
pub open spec fn repository_name(item: JsonView) -> Option<Seq<char>> {
    match item.member_of("repository"@) {
        Some(repository) => repository.member_text("name"@),
        None => None,
    }
}

/// The notification that a feed item with the update instant `time` gives.
///
/// An item gives none when it names no reason, no repository or no instant,
/// when its reason is one of those left out, or when its subject has no
/// address.
pub open spec fn notification_at(item: JsonView, time: Option<i64>) -> Option<NotificationView> {
    match (item.member_text("reason"@), repository_name(item), time) {
        (Some(reason), Some(repository), Some(seconds)) => {
            let url = web_url(subject_text(item, "url"@));
            if dropped_reason(reason) || url.len() == 0 {
                None
            } else {
                Some(
                    NotificationView {
                        title: subject_text(item, "title"@),
                        action: reason,
                        repository,
                        time: seconds,
                        url,
                    },
                )
            }
        },
        _ => None,
    }
}

/// The update instant that a feed item names.
pub open spec fn updated_at(item: JsonView) -> Option<i64> {
    match item.member_text("updated_at"@) {
        Some(t) => rfc3339_timestamp(t),
        None => None,
    }
}

/// The notification that a feed item gives.
pub open spec fn notification_of(item: JsonView) -> Option<NotificationView> {
    notification_at(item, updated_at(item))
}

/// The notifications that a list of feed items gives, in feed order.
pub open spec fn notifications_in(items: Seq<JsonView>) -> Seq<NotificationView>
    decreases items.len(),
{
    if items.len() == 0 {
        Seq::empty()
    } else {
        let before = notifications_in(items.drop_last());
        match notification_of(items.last()) {
            Some(n) => before.push(n),
            None => before,
        }
    }
}

/// The notifications that a feed document gives: those of its items when
/// it is an array, none otherwise.
pub open spec fn notifications_of(doc: JsonView) -> Seq<NotificationView> {
    match doc.items_of() {
        Some(items) => notifications_in(items),
        None => Seq::empty(),
    }
}

/// The views of a list of notifications.
pub open spec fn notification_views(list: Seq<GitHubNotification>) -> Seq<NotificationView> {
    list.map_values(|n: GitHubNotification| n@)
}

fn subject_field(item: &Json, name: &str) -> (text: String)
    ensures
        text@ == subject_text(item@, name@),
{
    match item.member("subject") {
        Some(subject) => match subject.text_at(name) {
            Some(t) => t.clone(),
            None => String::new(),
        },
        None => String::new(),
    }
}

fn read_updated_at(item: &Json) -> (time: Option<i64>)
    ensures
        time == updated_at(item@),
{
    match item.text_at("updated_at") {
        Some(t) => read_timestamp(t.as_str()),
        None => None,
    }
}

/// Builds the notification of a feed item whose update instant has been
/// read as `time`.
pub fn notification_with_time(item: &Json, time: Option<i64>) -> (shown: Option<GitHubNotification>)
    ensures
        match shown {
            Some(n) => notification_at(item@, time) == Some(n@),
            None => notification_at(item@, time) is None,
        },
{
    let reason = match item.text_at("reason") {
        Some(r) => r,
        None => { return None; },
    };
    let repository = match item.member("repository") {
        Some(r) => match r.text_at("name") {
            Some(name) => name,
            None => { return None; },
        },
        None => { return None; },
    };
    let seconds = match time {
        Some(s) => s,
        None => { return None; },
    };
    if is_dropped_reason(reason.as_str()) {
        return None;
    }
    let api_url = subject_field(item, "url");
    let url = resolve_url(api_url.as_str());
    if url.as_str().is_empty() {
        return None;
    }
    Some(
        GitHubNotification {
            title: subject_field(item, "title"),
            action: reason.clone(),
            repository: repository.clone(),
            time: seconds,
            url,
        },
    )
}

/// Builds the notification of one feed item, or `None` where the item is
/// left out.
pub fn notification(item: &Json) -> (shown: Option<GitHubNotification>)
    ensures
        match shown {
            Some(n) => notification_of(item@) == Some(n@),
            None => notification_of(item@) is None,
        },
        item@.member_text("reason"@) matches Some(reason) && dropped_reason(reason) ==> shown is None,
{
    notification_with_time(item, read_updated_at(item))
}

/// Builds the notifications of a feed document, in feed order.
pub fn notifications(doc: &Json) -> (list: Vec<GitHubNotification>)
    ensures
        notification_views(list@) == notifications_of(doc@),
{
    let mut list: Vec<GitHubNotification> = Vec::new();
    match doc.items() {
        Some(items) => {
            let mut i: usize = 0;
            let ghost views = json_views(items@);
            assert(notification_views(list@) =~= notifications_in(views.take(0)));
            while i < items.len()
                invariant
                    i <= items@.len(),
                    views == json_views(items@),
                    notification_views(list@) == notifications_in(views.take(i as int)),
                decreases items@.len() - i,
            {
                let ghost before = notification_views(list@);
                assert(views.take(i + 1).drop_last() =~= views.take(i as int));
                assert(views.take(i + 1).last() == items@[i as int]@);
                match notification(&items[i]) {
                    Some(n) => {
                        list.push(n);
                        assert(notification_views(list@) =~= before.push(
                            notification_of(items@[i as int]@)->0,
                        ));
                    },
                    None => {},
                }
                i += 1;
            }
            assert(views.take(i as int) =~= views);
        },
        None => {
            assert(notification_views(list@) =~= Seq::empty());
        },
    }
    list
}

/// Reads the response of the notification feed.
pub fn notifications_from_text(text: &str) -> (read: Result<Vec<GitHubNotification>, FeedError>)
    ensures
        match read {
            Ok(list) => json_of_text(text@) matches Some(doc) && notification_views(list@)
                == notifications_of(doc),
            Err(e) => json_of_text(text@) is None && e == FeedError::NotJson,
        },
{
    match read_json(text) {
        Ok(doc) => Ok(notifications(&doc)),
        Err(_) => Err(FeedError::NotJson),
    }
}

/// The web address of a pull request: the host, then the owner and the
/// repository as the first two path segments.
pub const REPO_PATTERN: &'static str = "^https://github.com/([^/]+)/([^/]+)";

/// The repository name that a match of the address pattern gives: group 2,
/// the second path segment; the empty text without it.
pub open spec fn repo_name_of(found: Option<Seq<Option<Seq<char>>>>) -> Seq<char> {
    match group_of(found, 2) {
        Some(name) => name,
        None => Seq::empty(),
    }
}

/// The repository name in the web address of a pull request, or the empty
/// text where the address is of another shape.
pub open spec fn repo_name(url: Seq<char>) -> Seq<char> {
    if regex_compiles(REPO_PATTERN@) {
        repo_name_of(regex_captures(REPO_PATTERN@, url))
    } else {
        Seq::empty()
    }
}

/// Takes the repository name out of a match of the address pattern.
pub fn repo_name_from_captures(found: &Option<Vec<Option<String>>>) -> (name: String)
    ensures
        name@ == repo_name_of(captures_view(*found)),
{
    match group(found, 2) {
        Some(name) => name,
        None => String::new(),
    }
}

/// Derives the repository name from the web address of a pull request.
pub fn repo_name_from_url(url: &str) -> (name: String)
    ensures
        name@ == repo_name(url@),
{
    match captures(REPO_PATTERN, url) {
        Ok(found) => repo_name_from_captures(&found),
        Err(_) => String::new(),
    }
}

/// The pull request that a search result with the update instant `time`
/// gives; none where the title, the address or the instant is missing.
pub open spec fn pull_at(item: JsonView, time: Option<i64>) -> Option<PullRequestView> {
    match (item.member_text("title"@), item.member_text("html_url"@), time) {
        (Some(title), Some(url), Some(seconds)) => Some(
            PullRequestView { title, url, updated_at: seconds, repo_name: repo_name(url) },
        ),
        _ => None,
    }
}

/// The pull request that a search result gives.
pub open spec fn pull_of(item: JsonView) -> Option<PullRequestView> {
    pull_at(item, updated_at(item))
}

/// The pull requests that a list of search results gives, in feed order.
pub open spec fn pulls_in(items: Seq<JsonView>) -> Seq<PullRequestView>
    decreases items.len(),
{
    if items.len() == 0 {
        Seq::empty()
    } else {
        let before = pulls_in(items.drop_last());
        match pull_of(items.last()) {
            Some(p) => before.push(p),
            None => before,
        }
    }
}

/// The pull requests that a search response gives: those of its member
/// `items` when that is an array, none otherwise.
pub open spec fn pulls_of(doc: JsonView) -> Seq<PullRequestView> {
    match doc.member_of("items"@) {
        Some(items) => match items.items_of() {
            Some(list) => pulls_in(list),
            None => Seq::empty(),
        },
        None => Seq::empty(),
    }
}

/// The views of a list of pull requests.
pub open spec fn pull_views(list: Seq<PullRequest>) -> Seq<PullRequestView> {
    list.map_values(|p: PullRequest| p@)
}

/// Builds the pull request of a search result whose update instant has
/// been read as `time`.
pub fn pull_with_time(item: &Json, time: Option<i64>) -> (pull: Option<PullRequest>)
    ensures
        match pull {
            Some(p) => pull_at(item@, time) == Some(p@),
            None => pull_at(item@, time) is None,
        },
{
    match (item.text_at("title"), item.text_at("html_url"), time) {
        (Some(title), Some(url), Some(seconds)) => Some(
            PullRequest {
                title: title.clone(),
                url: url.clone(),
                updated_at: seconds,
                repo_name: repo_name_from_url(url.as_str()),
            },
        ),
        _ => None,
    }
}

/// Builds the pull request of one search result, or `None` where the
/// result lacks a field.
pub fn extract_pr(item: &Json) -> (pull: Option<PullRequest>)
    ensures
        match pull {
            Some(p) => pull_of(item@) == Some(p@),
            None => pull_of(item@) is None,
        },
{
    pull_with_time(item, read_updated_at(item))
}

/// Builds the pull requests of a search response, in feed order.
pub fn pulls(doc: &Json) -> (list: Vec<PullRequest>)
    ensures
        pull_views(list@) == pulls_of(doc@),
{
    let mut list: Vec<PullRequest> = Vec::new();
    let items = match doc.member("items") {
        Some(member) => member.items(),
        None => None,
    };
    match items {
        Some(items) => {
            let mut i: usize = 0;
            let ghost views = json_views(items@);
            assert(pull_views(list@) =~= pulls_in(views.take(0)));
            while i < items.len()
                invariant
                    i <= items@.len(),
                    views == json_views(items@),
                    pull_views(list@) == pulls_in(views.take(i as int)),
                decreases items@.len() - i,
            {
                let ghost before = pull_views(list@);
                assert(views.take(i + 1).drop_last() =~= views.take(i as int));
                assert(views.take(i + 1).last() == items@[i as int]@);
                match extract_pr(&items[i]) {
                    Some(p) => {
                        list.push(p);
                        assert(pull_views(list@) =~= before.push(pull_of(items@[i as int]@)->0));
                    },
                    None => {},
                }
                i += 1;
            }
            assert(views.take(i as int) =~= views);
        },
        None => {
            assert(pull_views(list@) =~= Seq::empty());
        },
    }
    list
}

/// Reads the response of a pull-request search.
pub fn pulls_from_text(text: &str) -> (read: Result<Vec<PullRequest>, FeedError>)
    ensures
        match read {
            Ok(list) => json_of_text(text@) matches Some(doc) && pull_views(list@) == pulls_of(doc),
            Err(e) => json_of_text(text@) is None && e == FeedError::NotJson,
        },
{
    match read_json(text) {
        Ok(doc) => Ok(pulls(&doc)),
        Err(_) => Err(FeedError::NotJson),
    }
}

/// The text that `base64::encode` gives for `bytes`: the standard alphabet
/// with padding.
pub uninterp spec fn base64_text(bytes: Seq<u8>) -> Seq<char>;

/// Whether `base64::encode` can size its output for `len` bytes.
pub open spec fn base64_fits(len: nat) -> bool {
    (len / 3 + 1) * 4 <= usize::MAX
}

/// Encodes `bytes` with `base64::encode`.
///
/// Trusted: the text depends on the bytes alone. The crate panics where
/// the length of the text does not fit in `usize`, so such inputs are left
/// out.
#[verifier::external_body]
pub(crate) fn base64_encode(bytes: &[u8]) -> (text: String)
    requires
        base64_fits(bytes@.len()),
    ensures
        text@ == base64_text(bytes@),
{
    base64::encode(bytes)
}

/// What opens the value of a basic authorization header.
pub const BASIC_SCHEME: &'static str = "Basic ";

/// What separates the user from the token in basic credentials.
pub const CREDENTIAL_SEPARATOR: &'static str = ":";

/// The credentials of `user` with `token`, before encoding.
pub open spec fn credentials(user: Seq<char>, token: Seq<char>) -> Seq<char> {
    user + CREDENTIAL_SEPARATOR@ + token
}

/// The value of the basic authorization header for `user` with `token`.
pub open spec fn basic_auth_text(user: Seq<char>, token: Seq<char>) -> Seq<char> {
    BASIC_SCHEME@ + base64_text(vstd::utf8::encode_utf8(credentials(user, token)))
}

/// Builds the value of the authorization header that the feeds ask for:
/// the scheme, then the credentials `user:token` in base64. Credentials too
/// long to encode give `None`.
pub fn basic_auth(user: &str, token: &str) -> (header: Option<String>)
    ensures
        match header {
            Some(h) => h@ == basic_auth_text(user@, token@),
            None => !base64_fits(vstd::utf8::encode_utf8(credentials(user@, token@)).len()),
        },
{
    let mut plain = String::from_str(user);
    plain.append(CREDENTIAL_SEPARATOR);
    plain.append(token);
    let bytes = plain.as_str().as_bytes();
    if bytes.len() / 3 >= usize::MAX / 4 {
        return None;
    }
    let mut header = String::from_str(BASIC_SCHEME);
    header.append(base64_encode(bytes).as_str());
    Some(header)
}

} // verus!
