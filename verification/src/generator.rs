use vstd::prelude::*;

use crate::config::{Config, Response};
use crate::regexes::{regex_match, regex_text_match};
use crate::rng::draw_in_range;

verus! {

/// The triggering text as the generator's contracts see it.
pub open spec fn text_view(t: Option<String>) -> Option<Seq<char>> {
    match t {
        Some(s) => Some(s@),
        None => None,
    }
}

/// Whether the rule's regex gate lets the triggering text through: a rule
/// without a pattern always passes; a rule with a pattern passes only when
/// text exists and the pattern matches it.
pub open spec fn regex_gate(r: Response, text: Option<Seq<char>>) -> bool {
    match r.regex {
        None => true,
        Some(p) => match text {
            Some(t) => regex_match(p@, t),
            None => false,
        },
    }
}

/// A rule that can never be skipped when reached: its chance covers the
/// whole draw range `[0, 100)` and its regex gate passes.
pub open spec fn always_eligible(r: Response, text: Option<Seq<char>>) -> bool {
    r.chance >= 100 && regex_gate(r, text)
}

/// The rule indexes the ordered-fallback walk can stop at: a rule before the
/// last only with its regex gate passed, the last rule unconditionally, and
/// never one past a rule that cannot be skipped.
pub open spec fn valid_selection(rules: Seq<Response>, text: Option<Seq<char>>, i: int) -> bool {
    &&& 0 <= i < rules.len()
    &&& i < rules.len() - 1 ==> regex_gate(rules[i], text)
    &&& forall|j: int| 0 <= j < i ==> !always_eligible(#[trigger] rules[j], text)
}

/// Walks the table in order. Every rule but the last is attempted with a
/// fresh draw from `[0, 100)` and skipped when the draw exceeds its chance
/// or its regex gate fails; the last rule is taken unconditionally.
pub fn select_rule(config: &Config, post_text: &Option<String>) -> (i: usize)
    requires
        config.wf(),
    ensures
        valid_selection(config.responses@, text_view(*post_text), i as int),
{
    let n = config.responses.len();
    let mut ind: usize = 0;
    while ind < n - 1
        invariant
            config.wf(),
            n == config.responses@.len(),
            n >= 1,
            0 <= ind <= n - 1,
            forall|j: int|
                0 <= j < ind ==> !always_eligible(
                    #[trigger] config.responses@[j],
                    text_view(*post_text),
                ),
        decreases n - 1 - ind,
    {
        let r = &config.responses[ind];
        let draw = draw_in_range(0, 100);
        let mut accept = draw <= r.chance as usize;
        if accept {
            match &r.regex {
                Some(p) => {
                    match post_text {
                        Some(text) => {
                            accept = regex_text_match(p.as_str(), text.as_str());
                        },
                        None => {
                            accept = false;
                        },
                    }
                },
                None => {},
            }
        }
        if accept {
            return ind;
        }
        proof {
            assert(!always_eligible(config.responses@[ind as int], text_view(*post_text)));
        }
        ind = ind + 1;
    }
    ind
}

/// The picked words joined with single separating spaces.
pub open spec fn joined(words: Seq<Seq<char>>, picks: Seq<int>) -> Seq<char>
    decreases picks.len(),
{
    if picks.len() == 0 {
        Seq::<char>::empty()
    } else if picks.len() == 1 {
        words[picks[0]]
    } else {
        joined(words, picks.drop_last()) + seq![' '] + words[picks.last()]
    }
}

/// The word list as a sequence of character sequences.
pub open spec fn words_view(words: Seq<String>) -> Seq<Seq<char>> {
    words.map_values(|w: String| w@)
}

/// The drawn indexes as mathematical integers.
pub open spec fn picks_view(picks: Seq<usize>) -> Seq<int> {
    picks.map_values(|p: usize| p as int)
}

proof fn lemma_joined_push(words: Seq<Seq<char>>, picks: Seq<int>, p: int)
    ensures
        joined(words, picks.push(p)) == if picks.len() == 0 {
            words[p]
        } else {
            joined(words, picks) + seq![' '] + words[p]
        },
{
    let pp = picks.push(p);
    assert(pp.drop_last() =~= picks);
    assert(pp.last() == p);
}

/// Builds the reply text for the given picks: the picked words in order,
/// separated by single spaces.
pub fn assemble_reply(words: &Vec<String>, picks: &Vec<usize>) -> (s: String)
    requires
        forall|k: int| 0 <= k < picks@.len() ==> (#[trigger] picks@[k]) < words@.len(),
    ensures
        s@ == joined(words_view(words@), picks_view(picks@)),
{
    let mut s = String::new();
    let mut k: usize = 0;
    while k < picks.len()
        invariant
            forall|k2: int| 0 <= k2 < picks@.len() ==> (#[trigger] picks@[k2]) < words@.len(),
            0 <= k <= picks@.len(),
            s@ == joined(words_view(words@), picks_view(picks@).take(k as int)),
        decreases picks@.len() - k,
    {
        if k > 0 {
            s.append(" ");
        }
        s.append(words[picks[k]].as_str());
        proof {
            reveal_strlit(" ");
            assert(" "@ =~= seq![' ']);
            let wv = words_view(words@);
            let pv = picks_view(picks@);
            lemma_joined_push(wv, pv.take(k as int), pv[k as int]);
            assert(pv.take(k + 1 as int) =~= pv.take(k as int).push(pv[k as int]));
            assert(wv[pv[k as int]] == words@[picks@[k as int] as int]@);
        }
        k = k + 1;
    }
    proof {
        assert(picks_view(picks@).take(picks@.len() as int) =~= picks_view(picks@));
    }
    s
}

/// A reply drawn from one rule: the word count lies in the rule's half-open
/// range and the text is that many of the rule's words, drawn with
/// replacement, joined with single spaces.
pub open spec fn rule_reply(r: Response, s: Seq<char>, c: u32) -> bool {
    &&& r.min_words <= c < r.max_words
    &&& exists|picks: Seq<int>|
        #![auto]
        {
            &&& picks.len() == c
            &&& forall|k: int| 0 <= k < picks.len() ==> 0 <= #[trigger] picks[k] < r.words@.len()
            &&& s == joined(words_view(r.words@), picks)
        }
}

/// Draws the given number of words from the rule's list, with replacement,
/// and joins them.
fn reply_with_count(r: &Response, count: usize) -> (out: (String, u32))
    requires
        r.words@.len() > 0,
        r.min_words <= count < r.max_words,
    ensures
        rule_reply(*r, out.0@, out.1),
        out.1 == count,
{
    let mut picks: Vec<usize> = Vec::new();
    let mut k: usize = 0;
    while k < count
        invariant
            r.words@.len() > 0,
            picks@.len() == k,
            0 <= k <= count,
            forall|k2: int| 0 <= k2 < picks@.len() ==> (#[trigger] picks@[k2]) < r.words@.len(),
        decreases count - k,
    {
        let p = draw_in_range(0, r.words.len());
        picks.push(p);
        k = k + 1;
    }
    let s = assemble_reply(&r.words, &picks);
    proof {
        let w = picks_view(picks@);
        assert(w.len() == count);
        assert(forall|k2: int| 0 <= k2 < w.len() ==> 0 <= #[trigger] w[k2] < r.words@.len());
    }
    (s, count as u32)
}

/// Draws a word count from the rule's range, then that many words from its
/// list, and joins them.
pub fn build_reply(r: &Response) -> (out: (String, u32))
    requires
        r.min_words < r.max_words,
        r.words@.len() > 0,
    ensures
        rule_reply(*r, out.0@, out.1),
{
    let count = draw_in_range(r.min_words as usize, r.max_words as usize);
    reply_with_count(r, count)
}

/// Any output the generator may produce for this table and text: a reply
/// drawn from some validly selected rule.
pub open spec fn generated(rules: Seq<Response>, text: Option<Seq<char>>, s: Seq<char>, c: u32) -> bool {
    exists|i: int| #![auto] valid_selection(rules, text, i) && rule_reply(rules[i], s, c)
}

/// Produces a reply for the triggering text: selects a rule by the
/// ordered-fallback walk and builds its reply. Always returns a reply for a
/// well-formed table.
pub fn generate_response(config: &Config, post_text: &Option<String>) -> (out: (String, u32))
    requires
        config.wf(),
    ensures
        generated(config.responses@, text_view(*post_text), out.0@, out.1),
{
    let i = select_rule(config, post_text);
    let out = build_reply(&config.responses[i]);
    proof {
        assert(valid_selection(config.responses@, text_view(*post_text), i as int)
            && rule_reply(config.responses@[i as int], out.0@, out.1));
    }
    out
}

/// A token that starts and ends with the emoji shortcode delimiter, so that
/// it looks like a bare custom-emoji shortcode.
pub open spec fn emoji_token(w: Seq<char>) -> bool {
    w.len() > 0 && w[0] == ':' && w[w.len() - 1] == ':'
}

/// A reply of exactly one word that is itself a bare emoji shortcode token;
/// such a reply renders poorly and is rolled again by the guard.
pub open spec fn emoji_only(s: Seq<char>, c: u32) -> bool {
    c == 1 && emoji_token(s)
}

/// Decides whether a single token is a bare emoji shortcode.
pub fn is_emoji_token(w: &str) -> (b: bool)
    ensures
        b == emoji_token(w@),
{
    let n = w.unicode_len();
    if n == 0 {
        return false;
    }
    let first = w.get_char(0);
    let last = w.get_char(n - 1);
    first == ':' && last == ':'
}

/// Decides whether a generated reply must be rolled again.
pub fn needs_regeneration(text: &String, count: u32) -> (b: bool)
    ensures
        b == emoji_only(text@, count),
{
    count == 1 && is_emoji_token(text.as_str())
}

/// A rule that can yield at least one reply the guard accepts: it can draw
/// a word count other than one, or it holds a word that is not a bare emoji
/// shortcode.
pub open spec fn rule_can_comply(r: Response) -> bool {
    ||| r.min_words != 1
    ||| r.max_words != 2
    ||| exists|k: int| 0 <= k < r.words@.len() && !emoji_token(#[trigger] words_view(r.words@)[k])
}

/// Every rule of the table can yield a reply the guard accepts.
pub open spec fn guardable(rules: Seq<Response>) -> bool {
    forall|i: int| 0 <= i < rules.len() ==> rule_can_comply(#[trigger] rules[i])
}

/// Decides whether a rule can yield a reply the guard accepts.
pub fn rule_can_comply_exec(r: &Response) -> (b: bool)
    ensures
        b == rule_can_comply(*r),
{
    if r.min_words != 1 || r.max_words != 2 {
        return true;
    }
    let mut k: usize = 0;
    while k < r.words.len()
        invariant
            0 <= k <= r.words@.len(),
            forall|j: int| 0 <= j < k ==> emoji_token(#[trigger] words_view(r.words@)[j]),
        decreases r.words@.len() - k,
    {
        if !is_emoji_token(r.words[k].as_str()) {
            assert(!emoji_token(words_view(r.words@)[k as int]));
            return true;
        }
        k = k + 1;
    }
    false
}

/// Decides whether every rule of the table can yield a reply the guard
/// accepts.
pub fn table_can_comply(responses: &Vec<Response>) -> (b: bool)
    ensures
        b == guardable(responses@),
{
    let mut i: usize = 0;
    while i < responses.len()
        invariant
            0 <= i <= responses@.len(),
            forall|j: int| 0 <= j < i ==> rule_can_comply(#[trigger] responses@[j]),
        decreases responses@.len() - i,
    {
        if !rule_can_comply_exec(&responses[i]) {
            return false;
        }
        i = i + 1;
    }
    true
}

/// Builds a reply from the rule whose word count the guard accepts: a count
/// other than one when the range offers it, else a word that is not a bare
/// emoji shortcode.
fn compliant_reply(r: &Response) -> (out: (String, u32))
    requires
        r.min_words < r.max_words,
        r.words@.len() > 0,
        rule_can_comply(*r),
    ensures
        rule_reply(*r, out.0@, out.1),
        !emoji_only(out.0@, out.1),
{
    if r.min_words != 1 {
        reply_with_count(r, r.min_words as usize)
    } else if r.max_words > 2 {
        reply_with_count(r, 2)
    } else {
        // the range only offers single-word replies, so a compliant word
        // exists in the list
        let mut k: usize = 0;
        while k < r.words.len()
            invariant
                r.min_words == 1,
                r.max_words == 2,
                0 <= k <= r.words@.len(),
                forall|j: int| 0 <= j < k ==> emoji_token(#[trigger] words_view(r.words@)[j]),
            decreases r.words@.len() - k,
        {
            if !is_emoji_token(r.words[k].as_str()) {
                let mut picks: Vec<usize> = Vec::new();
                picks.push(k);
                let s = assemble_reply(&r.words, &picks);
                proof {
                    let wv = words_view(r.words@);
                    let w = picks_view(picks@);
                    assert(w.len() == 1);
                    assert(w[0] == k as int);
                    assert(joined(wv, w) == wv[k as int]);
                    assert(rule_reply(*r, s@, 1u32)) by {
                        assert(w.len() == 1u32 && (forall|k2: int|
                            0 <= k2 < w.len() ==> 0 <= #[trigger] w[k2] < r.words@.len()) && s@
                            == joined(words_view(r.words@), w));
                    }
                }
                return (s, 1);
            }
            k = k + 1;
        }
        proof {
            assert(false);
        }
        (String::new(), 1)
    }
}

/// How many fresh rolls the guard makes before it falls back to building a
/// compliant reply directly.
pub const GUARD_RETRY_CAP: u32 = 1000;

/// Produces a reply and rolls it again while it is a bare single emoji
/// shortcode. The retry is capped: when the cap is exhausted, a compliant
/// reply is built from a freshly selected rule instead of rolling further,
/// so that the call always terminates. Every returned reply is a valid
/// generator output that passes the guard.
pub fn generate_response_guarded(config: &Config, post_text: &Option<String>) -> (out: (
    String,
    u32,
))
    requires
        config.wf(),
        guardable(config.responses@),
    ensures
        generated(config.responses@, text_view(*post_text), out.0@, out.1),
        !emoji_only(out.0@, out.1),
{
    let mut out = generate_response(config, post_text);
    let mut tries: u32 = 0;
    while tries < GUARD_RETRY_CAP && needs_regeneration(&out.0, out.1)
        invariant
            config.wf(),
            generated(config.responses@, text_view(*post_text), out.0@, out.1),
        decreases GUARD_RETRY_CAP - tries,
    {
        out = generate_response(config, post_text);
        tries = tries + 1;
    }
    if needs_regeneration(&out.0, out.1) {
        let i = select_rule(config, post_text);
        let r = &config.responses[i];
        let fb = compliant_reply(r);
        proof {
            assert(valid_selection(config.responses@, text_view(*post_text), i as int)
                && rule_reply(config.responses@[i as int], fb.0@, fb.1));
        }
        fb
    } else {
        out
    }
}

/// Validates the table, checks that the guard can be satisfied, and only
/// then produces a guarded reply; returns nothing exactly when the table is
/// rejected or the guard could loop without an acceptable reply.
pub fn generate_response_checked(config: &Config, post_text: &Option<String>) -> (out: Option<
    (String, u32),
>)
    ensures
        out is Some <==> (config.wf() && guardable(config.responses@)),
        match out {
            Some(o) => generated(config.responses@, text_view(*post_text), o.0@, o.1)
                && !emoji_only(o.0@, o.1),
            None => !(config.wf() && guardable(config.responses@)),
        },
{
    match config.validate() {
        Ok(()) => {
            if table_can_comply(&config.responses) {
                Some(generate_response_guarded(config, post_text))
            } else {
                None
            }
        },
        Err(_) => None,
    }
}

/// A rule that can never be skipped bounds the selection: no valid
/// selection lies past an always-eligible rule, so such a rule is taken by
/// the time the walk reaches it.
pub proof fn lemma_always_eligible_bounds_selection(
    rules: Seq<Response>,
    text: Option<Seq<char>>,
    i: int,
    j: int,
)
    requires
        valid_selection(rules, text, i),
        0 <= j < rules.len(),
        always_eligible(rules[j], text),
    ensures
        i <= j,
{
}

/// A rule before the last that carries a pattern is never selected when
/// there is no triggering text, whatever its chance.
pub proof fn lemma_regex_without_text_skipped(rules: Seq<Response>, i: int)
    requires
        0 <= i < rules.len() - 1,
        rules[i].regex is Some,
    ensures
        !valid_selection(rules, None, i),
{
}

} // verus!
