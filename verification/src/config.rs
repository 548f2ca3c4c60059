use vstd::prelude::*;

use crate::regexes::{regex_is_valid, regex_ok};

verus! {

/// One entry of the ordered response table: a weighted dictionary the bot
/// may answer from, with an optional regex gate on the triggering text.
#[derive(Debug, Clone)]
pub struct Response {
    /// Percent chance that this rule is attempted, compared against a draw
    /// from `[0, 100)`; ignored for the last rule of the table.
    pub chance: u32,
    /// Optional pattern the triggering text must match for this rule.
    pub regex: Option<String>,
    /// Lowest number of words a reply from this rule may hold.
    pub min_words: u32,
    /// One past the highest number of words a reply from this rule may hold.
    pub max_words: u32,
    /// Whether the dictionary holds emoji shortcode tokens; informational.
    pub contains_emoji: bool,
    /// The tokens replies are drawn from, uniformly and with replacement.
    pub words: Vec<String>,
}

impl Response {
    /// A rule is usable when its word-count range is non-empty, it has at
    /// least one word to draw, and its pattern, if any, compiles.
    pub open spec fn wf(self) -> bool {
        &&& self.min_words < self.max_words
        &&& self.words@.len() > 0
        &&& match self.regex {
            Some(p) => regex_ok(p@),
            None => true,
        }
    }
}

/// The bot's static configuration: where to speak, how often to look, and
/// the ordered table of response rules.
#[derive(Debug, Clone)]
pub struct Config {
    /// Base URL of the instance the bot talks to.
    pub instance: String,
    /// API access token.
    pub token: String,
    /// Seconds to wait between two looks at the notifications.
    pub polling_interval: u64,
    /// The ordered response table; the last rule is the unconditional
    /// fallback.
    pub responses: Vec<Response>,
}

impl Config {
    /// The table is non-empty and every rule of it is usable.
    pub open spec fn wf(self) -> bool {
        &&& self.responses@.len() > 0
        &&& forall|i: int|
            0 <= i < self.responses@.len() ==> (#[trigger] self.responses@[i]).wf()
    }
}

/// Why a configuration was rejected at load time. The index names the first
/// rule, in table order, that failed, and the variant its first failing
/// check.
#[derive(Debug, Clone, Copy, PartialEq, Eq, Structural)]
pub enum ConfigError {
    /// The response table holds no rule at all.
    EmptyTable,
    /// The rule's word-count range `[min_words, max_words)` is empty.
    EmptyWordRange { rule: usize },
    /// The rule has no word to draw replies from.
    EmptyWordList { rule: usize },
    /// The rule's pattern does not compile.
    InvalidRegex { rule: usize },
}

impl Config {
    /// Checks the whole table, in order, and accepts exactly the
    /// well-formed configurations.
    pub fn validate(&self) -> (r: Result<(), ConfigError>)
        ensures
            r is Ok <==> self.wf(),
            (match r {
                Ok(()) => self.wf(),
                Err(ConfigError::EmptyTable) => self.responses@.len() == 0,
                Err(ConfigError::EmptyWordRange { rule }) => {
                    &&& 0 <= rule < self.responses@.len()
                    &&& self.responses@[rule as int].min_words
                        >= self.responses@[rule as int].max_words
                    &&& forall|j: int|
                        0 <= j < rule ==> (#[trigger] self.responses@[j]).wf()
                },
                Err(ConfigError::EmptyWordList { rule }) => {
                    &&& 0 <= rule < self.responses@.len()
                    &&& self.responses@[rule as int].min_words
                        < self.responses@[rule as int].max_words
                    &&& self.responses@[rule as int].words@.len() == 0
                    &&& forall|j: int|
                        0 <= j < rule ==> (#[trigger] self.responses@[j]).wf()
                },
                Err(ConfigError::InvalidRegex { rule }) => {
                    &&& 0 <= rule < self.responses@.len()
                    &&& self.responses@[rule as int].regex is Some
                    &&& !regex_ok(self.responses@[rule as int].regex->0@)
                    &&& forall|j: int|
                        0 <= j < rule ==> (#[trigger] self.responses@[j]).wf()
                },
            }),
    {
        if self.responses.len() == 0 {
            return Err(ConfigError::EmptyTable);
        }
        let mut i: usize = 0;
        while i < self.responses.len()
            invariant
                0 <= i <= self.responses@.len(),
                forall|j: int| 0 <= j < i ==> (#[trigger] self.responses@[j]).wf(),
            decreases self.responses@.len() - i,
        {
            let rule = &self.responses[i];
            if rule.min_words >= rule.max_words {
                return Err(ConfigError::EmptyWordRange { rule: i });
            }
            if rule.words.len() == 0 {
                return Err(ConfigError::EmptyWordList { rule: i });
            }
            match &rule.regex {
                Some(p) => {
                    if !regex_is_valid(p.as_str()) {
                        return Err(ConfigError::InvalidRegex { rule: i });
                    }
                },
                None => {},
            }
            assert(self.responses@[i as int].wf());
            i = i + 1;
        }
        Ok(())
    }
}

/// The first rule the stock configuration ships: an emoji-heavy yes/no
/// answer for posts that ask whether something is true.
pub open spec fn is_default_rule_0(r: Response) -> bool {
    &&& r.chance == 100
    &&& r.regex is Some
    &&& r.regex->0@ == "(@.*)*is this true\\?"@
    &&& r.min_words == 1
    &&& r.max_words == 2
    &&& r.contains_emoji == true
    &&& r.words@.len() == 8
    &&& r.words@[0]@ == "meow !!!"@
    &&& r.words@[1]@ == " \u{200c}:neocat_sign_yes:"@
    &&& r.words@[2]@ == " \u{200c}:neocat_sign_no:"@
    &&& r.words@[3]@ == "nyaa ?"@
    &&& r.words@[4]@ == " \u{200c}:neocat_confused:"@
    &&& r.words@[5]@ == " \u{200c}:neocat_glare:"@
    &&& r.words@[6]@ == " \u{200c}:neocat_woozy:"@
    &&& r.words@[7]@ == " \u{200c}:neocat_googly_woozy:"@
}

/// The second rule the stock configuration ships: a rare dog-sound reply.
pub open spec fn is_default_rule_1(r: Response) -> bool {
    &&& r.chance == 10
    &&& r.regex is None
    &&& r.min_words == 1
    &&& r.max_words == 10
    &&& r.contains_emoji == true
    &&& r.words@.len() == 5
    &&& r.words@[0]@ == "waf"@
    &&& r.words@[1]@ == "arrf"@
    &&& r.words@[2]@ == "awrfaf"@
    &&& r.words@[3]@ == ":neofox_floof:"@
    &&& r.words@[4]@ == ":fluffy_tail:"@
}

/// The last rule the stock configuration ships: the unconditional cat-sound
/// fallback.
pub open spec fn is_default_rule_2(r: Response) -> bool {
    &&& r.chance == 100
    &&& r.regex is None
    &&& r.min_words == 1
    &&& r.max_words == 10
    &&& r.contains_emoji == false
    &&& r.words@.len() == 8
    &&& r.words@[0]@ == "meow"@
    &&& r.words@[1]@ == "mew"@
    &&& r.words@[2]@ == "nyaaa"@
    &&& r.words@[3]@ == ":3"@
    &&& r.words@[4]@ == "mrrp"@
    &&& r.words@[5]@ == "mrmeow"@
    &&& r.words@[6]@ == ":neocat_floof:"@
    &&& r.words@[7]@ == ":neocat_flop:"@
}

/// The stock configuration, field by field: placeholder instance and token,
/// a ten-second polling interval, and the three rules above in order.
pub open spec fn is_default_config(c: Config) -> bool {
    &&& c.instance@ == "https://test.com"@
    &&& c.token@ == "API_TOKEN"@
    &&& c.polling_interval == 10
    &&& c.responses@.len() == 3
    &&& is_default_rule_0(c.responses@[0])
    &&& is_default_rule_1(c.responses@[1])
    &&& is_default_rule_2(c.responses@[2])
}

/// Builds the stock configuration that the program writes out when asked
/// for a fresh configuration file.
pub fn generate_default_config() -> (c: Config)
    ensures
        is_default_config(c),
{
    let mut words0: Vec<String> = Vec::new();
    words0.push("meow !!!".to_owned());
    words0.push(" \u{200c}:neocat_sign_yes:".to_owned());
    words0.push(" \u{200c}:neocat_sign_no:".to_owned());
    words0.push("nyaa ?".to_owned());
    words0.push(" \u{200c}:neocat_confused:".to_owned());
    words0.push(" \u{200c}:neocat_glare:".to_owned());
    words0.push(" \u{200c}:neocat_woozy:".to_owned());
    words0.push(" \u{200c}:neocat_googly_woozy:".to_owned());
    let rule0 = Response {
        chance: 100,
        regex: Some("(@.*)*is this true\\?".to_owned()),
        min_words: 1,
        max_words: 2,
        contains_emoji: true,
        words: words0,
    };
    let mut words1: Vec<String> = Vec::new();
    words1.push("waf".to_owned());
    words1.push("arrf".to_owned());
    words1.push("awrfaf".to_owned());
    words1.push(":neofox_floof:".to_owned());
    words1.push(":fluffy_tail:".to_owned());
    let rule1 = Response {
        chance: 10,
        regex: None,
        min_words: 1,
        max_words: 10,
        contains_emoji: true,
        words: words1,
    };
    let mut words2: Vec<String> = Vec::new();
    words2.push("meow".to_owned());
    words2.push("mew".to_owned());
    words2.push("nyaaa".to_owned());
    words2.push(":3".to_owned());
    words2.push("mrrp".to_owned());
    words2.push("mrmeow".to_owned());
    words2.push(":neocat_floof:".to_owned());
    words2.push(":neocat_flop:".to_owned());
    let rule2 = Response {
        chance: 100,
        regex: None,
        min_words: 1,
        max_words: 10,
        contains_emoji: false,
        words: words2,
    };
    let mut responses: Vec<Response> = Vec::new();
    responses.push(rule0);
    responses.push(rule1);
    responses.push(rule2);
    Config {
        instance: "https://test.com".to_owned(),
        token: "API_TOKEN".to_owned(),
        polling_interval: 10,
        responses,
    }
}

} // verus!
