use vstd::prelude::*;

use crate::config::Config;
use crate::generator::{
    emoji_only, generate_response_guarded, generated, guardable, table_can_comply, text_view,
};
use crate::mastodon::{Mention, Post, Visibility};

verus! {

/// The scheme prefix the ping rewriting strips from profile URLs.
pub open spec fn scheme_seq() -> Seq<char> {
    seq!['h', 't', 't', 'p', 's', ':', '/', '/']
}

/// The pattern stands in `s` starting at position `i`.
pub open spec fn occurs_at(s: Seq<char>, pat: Seq<char>, i: int) -> bool {
    &&& 0 <= i
    &&& i + pat.len() <= s.len()
    &&& forall|k: int| 0 <= k < pat.len() ==> s[i + k] == pat[k]
}

/// `i` is the rightmost position where the scheme prefix stands in `s`.
pub open spec fn is_last_scheme_at(s: Seq<char>, i: int) -> bool {
    &&& occurs_at(s, scheme_seq(), i)
    &&& forall|j: int| occurs_at(s, scheme_seq(), j) ==> j <= i
}

/// Where the host part of a profile URL starts: right after the last
/// scheme prefix, or at the front when no scheme prefix occurs.
pub open spec fn host_start(url: Seq<char>) -> int {
    if exists|i: int| is_last_scheme_at(url, i) {
        (choose|i: int| is_last_scheme_at(url, i)) + scheme_seq().len()
    } else {
        0
    }
}

/// The first position at or after `i` that holds a slash, or the length
/// when none does.
pub open spec fn first_slash_from(s: Seq<char>, i: int) -> int
    decreases s.len() - i,
{
    if i < 0 || i >= s.len() {
        s.len() as int
    } else if s[i] == '/' {
        i
    } else {
        first_slash_from(s, i + 1)
    }
}

/// The host token of a profile URL: what stands between the last scheme
/// prefix (or the front) and the next slash (or the end).
pub open spec fn host_of(url: Seq<char>) -> Seq<char> {
    url.subrange(host_start(url), first_slash_from(url, host_start(url)))
}

proof fn lemma_first_slash_value(s: Seq<char>, i: int, j: int)
    requires
        0 <= i <= j <= s.len(),
        forall|m: int| i <= m < j ==> s[m] != '/',
        j == s.len() || s[j] == '/',
    ensures
        first_slash_from(s, i) == j,
    decreases j - i,
{
    if i < j {
        lemma_first_slash_value(s, i + 1, j);
    }
}

/// Rewrites a profile URL into the instance host it points at, the way the
/// ping prefix wants it: everything after the last scheme prefix and before
/// the next slash.
pub fn host_from_url(url: &str) -> (h: String)
    ensures
        h@ == host_of(url@),
{
    let n = url.unicode_len();
    let pat = "https://";
    proof {
        reveal_strlit("https://");
        assert(pat@ =~= scheme_seq());
    }
    let mut last_found: Option<usize> = None;
    if n >= 8 {
        let mut i: usize = 0;
        while i <= n - 8
            invariant
                n == url@.len(),
                n >= 8,
                pat@ == scheme_seq(),
                0 <= i <= n - 7,
                match last_found {
                    Some(f) => {
                        &&& f < i
                        &&& occurs_at(url@, scheme_seq(), f as int)
                        &&& forall|j: int| f < j < i ==> !occurs_at(url@, scheme_seq(), j)
                    },
                    None => forall|j: int| 0 <= j < i ==> !occurs_at(url@, scheme_seq(), j),
                },
            decreases n - i,
        {
            let mut k: usize = 0;
            let mut matches_here = true;
            while k < 8
                invariant
                    n == url@.len(),
                    pat@ == scheme_seq(),
                    i + 8 <= n,
                    0 <= k <= 8,
                    matches_here ==> forall|m: int|
                        0 <= m < k ==> url@[i + m] == scheme_seq()[m],
                    !matches_here ==> !occurs_at(url@, scheme_seq(), i as int),
                decreases 8 - k,
            {
                if url.get_char(i + k) != pat.get_char(k) {
                    matches_here = false;
                }
                k = k + 1;
            }
            if matches_here {
                proof {
                    assert(occurs_at(url@, scheme_seq(), i as int));
                }
                last_found = Some(i);
            }
            i = i + 1;
        }
    }
    let start: usize = match last_found {
        Some(f) => f + 8,
        None => 0,
    };
    proof {
        assert(forall|j: int|
            occurs_at(url@, scheme_seq(), j) ==> 0 <= j && j + 8 <= url@.len());
        match last_found {
            Some(f) => {
                assert(is_last_scheme_at(url@, f as int));
                let c = choose|i0: int| is_last_scheme_at(url@, i0);
                assert(is_last_scheme_at(url@, c));
                assert(c == f as int);
                assert(host_start(url@) == start as int);
            },
            None => {
                assert(forall|j: int| !occurs_at(url@, scheme_seq(), j));
                assert(!(exists|i0: int| is_last_scheme_at(url@, i0)));
                assert(host_start(url@) == 0);
            },
        }
    }
    let mut j: usize = start;
    while j < n && url.get_char(j) != '/'
        invariant
            n == url@.len(),
            start <= j <= n,
            forall|m: int| start <= m < j ==> url@[m] != '/',
        decreases n - j,
    {
        j = j + 1;
    }
    proof {
        lemma_first_slash_value(url@, start as int, j as int);
    }
    let h = url.substring_char(start, j);
    h.to_owned()
}

/// The ping token one mention contributes: its username and the host of
/// its profile URL, followed by a single space.
pub open spec fn ping_of(username: Seq<char>, url: Seq<char>) -> Seq<char> {
    seq!['@'] + username + seq!['@'] + host_of(url) + seq![' ']
}

/// The ping prefix a mention list contributes, in order, leaving out every
/// mention whose username equals the bot's own.
pub open spec fn pings_of(mentions: Seq<Mention>, self_name: Seq<char>) -> Seq<char>
    decreases mentions.len(),
{
    if mentions.len() == 0 {
        Seq::<char>::empty()
    } else if mentions[0].username@ == self_name {
        pings_of(mentions.drop_first(), self_name)
    } else {
        ping_of(mentions[0].username@, mentions[0].url@) + pings_of(
            mentions.drop_first(),
            self_name,
        )
    }
}

proof fn lemma_pings_push(mentions: Seq<Mention>, self_name: Seq<char>, m: Mention)
    ensures
        pings_of(mentions.push(m), self_name) == pings_of(mentions, self_name) + (
        if m.username@ == self_name {
            Seq::<char>::empty()
        } else {
            ping_of(m.username@, m.url@)
        }),
    decreases mentions.len(),
{
    let tail = if m.username@ == self_name {
        Seq::<char>::empty()
    } else {
        ping_of(m.username@, m.url@)
    };
    if mentions.len() == 0 {
        reveal_with_fuel(pings_of, 2);
        assert(mentions.push(m).drop_first() =~= Seq::<Mention>::empty());
        assert(mentions.push(m)[0] == m);
        assert(pings_of(Seq::<Mention>::empty(), self_name) == Seq::<char>::empty());
        assert(pings_of(mentions, self_name) + tail =~= tail);
        if m.username@ == self_name {
            assert(pings_of(mentions.push(m), self_name) =~= tail);
        } else {
            assert(ping_of(m.username@, m.url@) + Seq::<char>::empty() =~= ping_of(
                m.username@,
                m.url@,
            ));
            assert(pings_of(mentions.push(m), self_name) =~= tail);
        }
    } else {
        lemma_pings_push(mentions.drop_first(), self_name, m);
        assert(mentions.push(m).drop_first() =~= mentions.drop_first().push(m));
        assert(mentions.push(m)[0] == mentions[0]);
        if mentions[0].username@ == self_name {
            assert(pings_of(mentions.push(m), self_name) == pings_of(
                mentions.drop_first().push(m),
                self_name,
            ));
        } else {
            assert(pings_of(mentions, self_name) + tail =~= ping_of(
                mentions[0].username@,
                mentions[0].url@,
            ) + (pings_of(mentions.drop_first(), self_name) + tail));
        }
    }
}

/// Builds the ping prefix for the mention list: one token per mention, in
/// order, leaving out every mention of the bot itself.
pub fn format_pings(mentions: &Vec<Mention>, self_username: &String) -> (p: String)
    ensures
        p@ == pings_of(mentions@, self_username@),
{
    let mut p = String::new();
    let mut i: usize = 0;
    while i < mentions.len()
        invariant
            0 <= i <= mentions@.len(),
            p@ == pings_of(mentions@.take(i as int), self_username@),
        decreases mentions@.len() - i,
    {
        let m = &mentions[i];
        if m.username.eq(self_username) {
            proof {
                lemma_pings_push(mentions@.take(i as int), self_username@, mentions@[i as int]);
                assert(mentions@.take(i + 1 as int) =~= mentions@.take(i as int).push(
                    mentions@[i as int],
                ));
                assert(p@ + Seq::<char>::empty() =~= p@);
            }
        } else {
            p.append("@");
            p.append(m.username.as_str());
            p.append("@");
            let host = host_from_url(m.url.as_str());
            p.append(host.as_str());
            p.append(" ");
            proof {
                reveal_strlit("@");
                reveal_strlit(" ");
                assert("@"@ =~= seq!['@']);
                assert(" "@ =~= seq![' ']);
                lemma_pings_push(mentions@.take(i as int), self_username@, mentions@[i as int]);
                assert(mentions@.take(i + 1 as int) =~= mentions@.take(i as int).push(
                    mentions@[i as int],
                ));
                assert(p@ =~= pings_of(mentions@.take(i as int), self_username@) + ping_of(
                    mentions@[i as int].username@,
                    mentions@[i as int].url@,
                ));
            }
        }
        i = i + 1;
    }
    proof {
        assert(mentions@.take(mentions@.len() as int) =~= mentions@);
    }
    p
}

/// Inserting a mention of the bot itself anywhere in the mention list does
/// not change the ping prefix: a self-mention is left out entirely.
pub proof fn lemma_self_mention_ignored(
    before: Seq<Mention>,
    after: Seq<Mention>,
    m: Mention,
    self_name: Seq<char>,
)
    requires
        m.username@ == self_name,
    ensures
        pings_of(before + seq![m] + after, self_name) == pings_of(before + after, self_name),
    decreases before.len(),
{
    if before.len() == 0 {
        assert(before + seq![m] + after =~= seq![m] + after);
        assert((seq![m] + after).drop_first() =~= after);
        assert(before + after =~= after);
        assert((seq![m] + after)[0] == m);
    } else {
        lemma_self_mention_ignored(before.drop_first(), after, m, self_name);
        assert((before + seq![m] + after).drop_first() =~= before.drop_first() + seq![m] + after);
        assert((before + after).drop_first() =~= before.drop_first() + after);
        assert((before + seq![m] + after)[0] == before[0]);
        assert((before + after)[0] == before[0]);
    }
}

/// The submitted reply text: the author handle, a space, the ping prefix,
/// and the generated body.
pub open spec fn reply_text(author: Seq<char>, pings: Seq<char>, body: Seq<char>) -> Seq<char> {
    seq!['@'] + author + seq![' '] + pings + body
}

/// Joins the author handle, the ping prefix and the generated body into
/// the text the reply submits.
pub fn compose_status(author_acct: &String, pings: &String, body: &String) -> (s: String)
    ensures
        s@ == reply_text(author_acct@, pings@, body@),
{
    let mut s = String::new();
    s.append("@");
    s.append(author_acct.as_str());
    s.append(" ");
    s.append(pings.as_str());
    s.append(body.as_str());
    proof {
        reveal_strlit("@");
        reveal_strlit(" ");
        assert("@"@ =~= seq!['@']);
        assert(" "@ =~= seq![' ']);
        assert(s@ =~= reply_text(author_acct@, pings@, body@));
    }
    s
}

/// What the polling loop hands over for one mention notification: the
/// fields of the mention's status that the reply depends on.
pub struct MentionContext {
    pub author_acct: String,
    pub text: Option<String>,
    pub status_id: String,
    pub visibility: Visibility,
    pub mentions: Vec<Mention>,
}

/// What the submitted post must look like for a mention: a reply to the
/// triggering status, with its visibility, whose text is the author
/// handle, the ping prefix over the other mentions, and a guarded
/// generator output, and which carries nothing else.
pub open spec fn is_reply_post(
    config: Config,
    self_name: Seq<char>,
    ctx: MentionContext,
    post: Post,
) -> bool {
    &&& post.in_reply_to_id is Some && post.in_reply_to_id->0@ == ctx.status_id@
    &&& post.visibility is Some && post.visibility->0 == ctx.visibility
    &&& exists|body: Seq<char>, c: u32|
        #![auto]
        {
            &&& generated(config.responses@, text_view(ctx.text), body, c)
            &&& !emoji_only(body, c)
            &&& post.status@ == reply_text(
                ctx.author_acct@,
                pings_of(ctx.mentions@, self_name),
                body,
            )
        }
    &&& post.media_ids@.len() == 0
    &&& post.poll is None
    &&& post.sensitive == false
    &&& post.spoiler_text is None
    &&& post.language is None
    &&& post.scheduled_at is None
}

/// Builds the post that answers one mention: generates a guarded reply to
/// the triggering text, prefixes the author handle and the pings of the
/// other mentioned accounts, and threads the post onto the triggering
/// status with its visibility.
pub fn respond_to_mention(config: &Config, self_username: &String, ctx: &MentionContext) -> (post:
    Post)
    requires
        config.wf(),
        guardable(config.responses@),
    ensures
        is_reply_post(*config, self_username@, *ctx, post),
{
    let meow = generate_response_guarded(config, &ctx.text);
    let pings = format_pings(&ctx.mentions, self_username);
    let status = compose_status(&ctx.author_acct, &pings, &meow.0);
    let post = Post {
        status,
        media_ids: Vec::new(),
        poll: None,
        in_reply_to_id: Some(ctx.status_id.clone()),
        sensitive: false,
        spoiler_text: None,
        visibility: Some(ctx.visibility),
        language: None,
        scheduled_at: None,
    };
    proof {
        assert(generated(config.responses@, text_view(ctx.text), meow.0@, meow.1) && !emoji_only(
            meow.0@,
            meow.1,
        ) && post.status@ == reply_text(
            ctx.author_acct@,
            pings_of(ctx.mentions@, self_username@),
            meow.0@,
        ));
    }
    post
}

/// Validates the table, checks that the guard can be satisfied, and only
/// then builds the post that answers the mention; returns nothing exactly
/// when the configuration is rejected or the guard could loop without an
/// acceptable reply.
pub fn respond_to_mention_checked(
    config: &Config,
    self_username: &String,
    ctx: &MentionContext,
) -> (post: Option<Post>)
    ensures
        post is Some <==> (config.wf() && guardable(config.responses@)),
        match post {
            Some(p) => is_reply_post(*config, self_username@, *ctx, p),
            None => !(config.wf() && guardable(config.responses@)),
        },
{
    match config.validate() {
        Ok(()) => {
            if table_can_comply(&config.responses) {
                Some(respond_to_mention(config, self_username, ctx))
            } else {
                None
            }
        },
        Err(_) => None,
    }
}

} // verus!
