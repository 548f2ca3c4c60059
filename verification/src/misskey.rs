use vstd::prelude::*;

verus! {

/// Who may see a note on the secondary instance.
#[derive(Debug, Clone, Copy, PartialEq, Eq, Structural)]
#[allow(non_camel_case_types)]
pub enum Visibility {
    public,
    home,
    followers,
    specified,
}

impl Default for Visibility {
    fn default() -> (r: Self)
        ensures
            r == Visibility::public,
    {
        Visibility::public
    }
}

/// Which reactions a note accepts.
#[derive(Debug, Clone, Copy, PartialEq, Eq, Structural)]
#[allow(non_camel_case_types)]
pub enum ReactionAcceptance {
    null,
    likeOnly,
    nonSenseitiveOnly,
    nonSensitiveOnlyForLocalLikeOnlyForRemote,
}

impl Default for ReactionAcceptance {
    fn default() -> (r: Self)
        ensures
            r == ReactionAcceptance::null,
    {
        ReactionAcceptance::null
    }
}

/// A poll attached to a note that is being submitted.
#[derive(Debug, Clone)]
pub struct Poll {
    pub choices: Vec<String>,
    pub multiple: bool,
    pub expires_at: Option<i64>,
    pub expired_after: Option<i64>,
}

/// A note to submit to the secondary instance.
#[derive(Debug, Clone)]
pub struct Note {
    pub visibility: Visibility,
    pub visible_user_ids: Vec<String>,
    pub cw: Option<String>,
    pub local_only: bool,
    pub reaction_acceptance: ReactionAcceptance,
    pub no_extract_mentions: bool,
    pub no_extract_hashtags: bool,
    pub no_extract_emojis: bool,
    pub reply_id: Option<String>,
    pub renote_id: Option<String>,
    pub channel_id: Option<String>,
    pub text: Option<String>,
    pub file_ids: Option<String>,
    pub media_ids: Option<String>,
    pub poll: Option<Poll>,
}

} // verus!
