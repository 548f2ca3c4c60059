use vstd::prelude::*;

verus! {

/// Who may see a post on the primary instance.
#[derive(Debug, Clone, Copy, PartialEq, Eq, Structural)]
#[allow(non_camel_case_types)]
pub enum Visibility {
    public,
    unlisted,
    private,
    direct,
}

impl Default for Visibility {
    fn default() -> (r: Self)
        ensures
            r == Visibility::public,
    {
        Visibility::public
    }
}

/// A poll attached to a post that is being submitted.
#[derive(Debug, Clone)]
pub struct Poll {
    pub options: Vec<String>,
    pub multiple: bool,
    pub expires_in: i32,
    pub hide_totals: bool,
}

/// A post to submit: the reply body together with its threading and
/// visibility settings.
#[derive(Debug, Clone)]
pub struct Post {
    pub status: String,
    pub media_ids: Vec<String>,
    pub poll: Option<Poll>,
    pub in_reply_to_id: Option<String>,
    pub sensitive: bool,
    pub spoiler_text: Option<String>,
    pub visibility: Option<Visibility>,
    pub language: Option<String>,
    pub scheduled_at: Option<String>,
}

impl Default for Post {
    /// An empty public post with no attachments and no threading.
    fn default() -> (r: Self)
        ensures
            r.status@ == Seq::<char>::empty(),
            r.media_ids@ == Seq::<String>::empty(),
            r.poll is None,
            r.in_reply_to_id is None,
            r.sensitive == false,
            r.spoiler_text is None,
            r.visibility is None,
            r.language is None,
            r.scheduled_at is None,
    {
        Post {
            status: String::new(),
            media_ids: Vec::new(),
            poll: None,
            in_reply_to_id: None,
            sensitive: false,
            spoiler_text: None,
            visibility: None,
            language: None,
            scheduled_at: None,
        }
    }
}

/// A custom pictogram an instance serves for a shortcode.
#[derive(Debug, Clone)]
pub struct CustomEmoji {
    pub shortcode: String,
    pub url: String,
    pub static_url: String,
    pub visible_in_picker: bool,
    pub category: Option<String>,
}

/// One name/value pair of an account's profile table.
#[derive(Debug, Clone)]
pub struct Field {
    pub name: String,
    pub value: String,
    pub verified_at: Option<String>,
}

/// An account as the primary instance reports it.
#[derive(Debug)]
pub struct Account {
    pub id: String,
    pub username: String,
    pub acct: String,
    pub url: String,
    pub uri: String,
    pub display_name: String,
    pub note: String,
    pub avatar: String,
    pub avatar_static: String,
    pub header: String,
    pub locked: bool,
    pub fields: Vec<Field>,
    pub emojis: Vec<CustomEmoji>,
    pub bot: bool,
    pub group: Option<bool>,
    pub discoverable: Option<bool>,
    pub noindex: Option<bool>,
    pub moved: Option<Box<Account>>,
    pub suspended: Option<bool>,
    pub limited: Option<bool>,
    pub created_at: String,
    pub last_status_at: Option<String>,
    pub statuses_count: i32,
    pub followers_count: i32,
    pub following_count: i32,
    pub hide_collections: Option<bool>,
}

/// What kind of media a status attachment holds.
#[derive(Debug, Clone, Copy, PartialEq, Eq, Structural)]
#[allow(non_camel_case_types)]
pub enum MediaType {
    unknown,
    image,
    gifv,
    video,
    audio,
}

/// The application a status was posted from.
#[derive(Debug, Clone)]
pub struct Application {
    pub name: String,
    pub website: Option<String>,
}

/// One account referenced by a status, with the profile URL the ping
/// rewriting reads.
#[derive(Debug, Clone)]
pub struct Mention {
    pub id: String,
    pub username: String,
    pub url: String,
    pub accr: Option<String>,
}

/// A hashtag referenced by a status.
#[derive(Debug, Clone)]
pub struct Tag {
    pub name: String,
    pub url: String,
}

/// The author a link preview credits.
#[derive(Debug)]
pub struct PreviewCardAuthor {
    pub name: String,
    pub url: String,
    pub account: Option<Account>,
}

/// What kind of preview a link card shows.
#[derive(Debug, Clone, Copy, PartialEq, Eq, Structural)]
#[allow(non_camel_case_types)]
pub enum PreviewCardType {
    link,
    photo,
    video,
    rich,
}

/// A link preview card attached to a status.
#[derive(Debug)]
pub struct PreviewCard {
    pub url: String,
    pub title: String,
    pub desctiption: String,
    pub card_type: PreviewCardType,
    pub authors: Vec<PreviewCardAuthor>,
    pub author_name: Option<String>,
    pub author_url: Option<String>,
    pub provider_name: String,
    pub provider_url: String,
    pub html: String,
    pub width: i32,
    pub height: i32,
    pub image: Option<String>,
    pub embed_url: String,
    pub blurhash: Option<String>,
}

/// Where a quoted status stands in its approval flow.
#[derive(Debug, Clone, Copy, PartialEq, Eq, Structural)]
#[allow(non_camel_case_types)]
pub enum QuoteState {
    pending,
    accepted,
    rejected,
    revoked,
    deleted,
    unauthorized,
}

/// Where a filter applies.
#[derive(Debug, Clone, Copy, PartialEq, Eq, Structural)]
#[allow(non_camel_case_types)]
pub enum FilterContext {
    home,
    notifications,
    public,
    thread,
    account,
}

/// What a matching filter does with a status.
#[derive(Debug, Clone, Copy, PartialEq, Eq, Structural)]
#[allow(non_camel_case_types)]
pub enum FilterAction {
    warn,
    hidden,
    blur,
}

/// One keyword a filter watches for.
#[derive(Debug, Clone)]
pub struct FilterKeyword {
    pub id: String,
    pub keyword: String,
    pub whole_word: bool,
}

/// One status a filter singles out.
#[derive(Debug, Clone)]
pub struct FilterStatus {
    pub id: String,
    pub status_id: String,
}

/// A server-side content filter.
#[derive(Debug, Clone)]
pub struct Filter {
    pub id: String,
    pub title: String,
    pub context: Vec<FilterContext>,
    pub expires_at: Option<String>,
    pub filter_action: FilterAction,
    pub keywords: Option<Vec<FilterKeyword>>,
    pub statuses: Option<Vec<FilterStatus>>,
}

/// Why a filter matched a status.
#[derive(Debug, Clone)]
pub struct FilterResult {
    pub filter: Filter,
    pub keyword_matches: Option<Vec<String>>,
    pub status_matches: Option<Vec<String>>,
}

/// One choice of a poll inside a status.
#[derive(Debug, Clone)]
pub struct StatusPollOption {
    pub title: String,
    pub votes_count: Option<i32>,
}

/// A poll inside a received status.
#[derive(Debug, Clone)]
pub struct StatusPoll {
    pub id: String,
    pub expires_at: Option<String>,
    pub expired: bool,
    pub multiple: bool,
    pub votes_count: i32,
    pub voters_count: Option<i32>,
    pub options: Vec<StatusPollOption>,
    pub emojis: Vec<CustomEmoji>,
    pub voted: Option<bool>,
    pub own_votes: Option<Vec<i32>>,
}

/// Why an account was reported.
#[derive(Debug, Clone, Copy, PartialEq, Eq, Structural)]
#[allow(non_camel_case_types)]
pub enum ReportCategory {
    spam,
    violation,
    other,
}

/// A moderation report.
#[derive(Debug)]
pub struct Report {
    pub id: String,
    pub action_taken: bool,
    pub action_taken_at: Option<String>,
    pub category: ReportCategory,
    pub comment: String,
    pub forwarded: bool,
    pub created_at: String,
    pub status_ids: Option<Vec<String>>,
    pub rule_ids: Option<Vec<String>>,
    pub target_account: Account,
}

/// What event a notification reports; the bot answers mentions only.
#[derive(Debug, Clone, Copy, PartialEq, Eq, Structural)]
#[allow(non_camel_case_types)]
pub enum NotificationType {
    mention,
    status,
    reblog,
    reaction,
    follow,
    follow_request,
    favourite,
    poll,
    update,
    severed_relationships,
    moderation_warning,
}

/// Why relationships were severed.
#[derive(Debug, Clone, Copy, PartialEq, Eq, Structural)]
#[allow(non_camel_case_types)]
pub enum RelationShipSeveranceEventType {
    domaint_block,
    user_domain_block,
    account_suspension,
}

/// A relationship severance event delivered with a notification.
#[derive(Debug, Clone)]
pub struct RelationshipSeveranceEvent {
    pub id: String,
    pub event_type: RelationShipSeveranceEventType,
    pub purged: bool,
    pub target_name: String,
    pub followers_count: i32,
    pub following_couint: i32,
    pub created_at: String,
}

/// Where an appeal of a moderation decision stands.
#[derive(Debug, Clone, Copy, PartialEq, Eq, Structural)]
#[allow(non_camel_case_types)]
pub enum AppealState {
    approved,
    rejected,
    pending,
}

/// An appeal of a moderation decision.
#[derive(Debug, Clone)]
pub struct Appeal {
    pub test: String,
    pub state: AppealState,
}

/// What a moderation warning did to the account.
#[derive(Debug, Clone, Copy, PartialEq, Eq, Structural)]
#[allow(non_camel_case_types)]
pub enum AccountWarningAction {
    none,
    disable,
    mark_statuses_as_sensitive,
    delete_statuses,
    silence,
    suspend,
}

/// A moderation warning delivered with a notification.
#[derive(Debug)]
pub struct AccountWarning {
    pub id: String,
    pub action: AccountWarningAction,
    pub text: String,
    pub status_id: Option<Vec<String>>,
    pub target_account: Account,
    pub appeal: Option<Appeal>,
    pub created_at: String,
}

} // verus!
