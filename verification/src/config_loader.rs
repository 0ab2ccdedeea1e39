use vstd::prelude::*;

verus! {

/// How long a video runs, as the video description gives it: a text, a
/// number of seconds, or nothing usable.
#[derive(Debug)]
pub enum VideoLength {
    Unknown,
    Text(String),
    Seconds(u64),
}

impl VideoLength {
    /// The length as text, where it is given as text.
    pub fn as_str(&self) -> (r: Option<&str>)
        ensures
            match self {
                VideoLength::Text(s) => r matches Some(t) && t@ == s@,
                _ => r is None,
            },
    {
        match self {
            VideoLength::Text(s) => Some(s.as_str()),
            _ => None,
        }
    }

    /// The length in seconds, where it is given as a number.
    pub fn as_u64(&self) -> (r: Option<u64>)
        ensures
            match self {
                VideoLength::Seconds(n) => r == Some(*n),
                _ => r is None,
            },
    {
        match self {
            VideoLength::Seconds(n) => Some(*n),
            _ => None,
        }
    }
}

/// A video that can be queued for playing.
#[derive(Debug)]
pub struct Video {
    pub title: String,
    pub link: String,
    pub author: String,
    pub id: String,
    pub thumbnail: String,
    pub length: VideoLength,
}

/// The `[discord]` table of the configuration file.
pub struct Discord {
    pub discord_api: String,
}

/// The `[preferences]` table of the configuration file.
pub struct Preferences {
    pub detailed_network: bool,
    pub detailed_debug: bool,
}

/// The `[globals]` table of the configuration file.
pub struct Globals {
    pub banned_search: Vec<String>,
    pub banned_links: Vec<String>,
}

/// The whole configuration file, as it was parsed.
pub struct Config {
    pub discord: Discord,
    pub preferences: Preferences,
    pub globals: Globals,
}

/// What a bot configuration holds, as mathematical values.
pub ghost struct BotConfigView {
    pub discord_api: Seq<char>,
    pub detailed_network: bool,
    pub detailed_debug: bool,
    pub banned_words: Seq<Seq<char>>,
    pub banned_links: Seq<Seq<char>>,
}

/// The configuration the bot runs with, read-only once made.
pub struct BotConfig {
    discord_api: String,
    detailed_network: bool,
    detailed_debug: bool,
    banned_words_global: Vec<String>,
    banned_links_global: Vec<String>,
}

impl View for BotConfig {
    type V = BotConfigView;

    closed spec fn view(&self) -> BotConfigView {
        BotConfigView {
            discord_api: self.discord_api@,
            detailed_network: self.detailed_network,
            detailed_debug: self.detailed_debug,
            banned_words: self.banned_words_global.deep_view(),
            banned_links: self.banned_links_global.deep_view(),
        }
    }
}

/// Whether `text` is one of the entries of `list`, compared whole.
pub open spec fn listed(list: Seq<Seq<char>>, text: Seq<char>) -> bool {
    exists|i: int| 0 <= i < list.len() && list[i] == text
}

/// Every entry of a ban list is banned, wherever it stands in the list.
pub proof fn every_entry_is_listed(list: Seq<Seq<char>>, i: int)
    requires
        0 <= i < list.len(),
    ensures
        listed(list, list[i]),
{
}

/// Only entries of a ban list are banned: a listed text equals some entry,
/// and nothing is listed in an empty list.
pub proof fn only_entries_are_listed(list: Seq<Seq<char>>, text: Seq<char>)
    ensures
        listed(list, text) ==> exists|i: int| 0 <= i < list.len() && #[trigger] list[i] == text,
        list.len() == 0 ==> !listed(list, text),
{
}

/// Adding an entry to a ban list bans that entry and keeps every earlier
/// one banned, and bans nothing else.
pub proof fn listed_after_push(list: Seq<Seq<char>>, entry: Seq<char>, text: Seq<char>)
    ensures
        listed(list.push(entry), entry),
        listed(list, text) ==> listed(list.push(entry), text),
        listed(list.push(entry), text) ==> listed(list, text) || text == entry,
{
    assert(list.push(entry)[list.len() as int] == entry);
    if listed(list, text) {
        let i = choose|i: int| 0 <= i < list.len() && list[i] == text;
        assert(list.push(entry)[i] == text);
    }
    if listed(list.push(entry), text) && text != entry {
        let i = choose|i: int| 0 <= i < list.push(entry).len() && list.push(entry)[i] == text;
        assert(list[i] == text);
    }
}

fn list_contains(list: &Vec<String>, text: &str) -> (r: bool)
    ensures
        r == listed(list.deep_view(), text@),
{
    let wanted = String::from_str(text);
    let mut i: usize = 0;
    while i < list.len()
        invariant
            i <= list.len(),
            wanted@ == text@,
            forall|j: int| 0 <= j < i ==> list.deep_view()[j] != text@,
        decreases list.len() - i,
    {
        if list[i] == wanted {
            assert(list.deep_view()[i as int] == text@);
            return true;
        }
        i = i + 1;
    }
    false
}

impl BotConfig {
    /// The Discord API key of the bot.
    pub fn get_discord_api(&self) -> (r: &String)
        ensures
            r@ == self@.discord_api,
    {
        &self.discord_api
    }

    /// Whether detailed network statistics were asked for.
    pub fn is_network(&self) -> (r: &bool)
        ensures
            *r == self@.detailed_network,
    {
        &self.detailed_network
    }

    /// Whether detailed debug statistics were asked for.
    pub fn is_debug(&self) -> (r: &bool)
        ensures
            *r == self@.detailed_debug,
    {
        &self.detailed_debug
    }

    /// Whether `word` is one of the globally banned search terms.
    pub fn contains_word(&self, word: &str) -> (r: &bool)
        ensures
            *r == listed(self@.banned_words, word@),
    {
        if list_contains(&self.banned_words_global, word) {
            &true
        } else {
            &false
        }
    }

    /// Whether `link` is one of the globally banned links.
    pub fn contains_link(&self, link: &str) -> (r: &bool)
        ensures
            *r == listed(self@.banned_links, link@),
    {
        if list_contains(&self.banned_links_global, link) {
            &true
        } else {
            &false
        }
    }

    /// The configuration the bot falls back on when the file could not be
    /// loaded: no key, no details, and `a` and `b` banned.
    pub fn fallback() -> (c: BotConfig)
        ensures
            c@.discord_api.len() == 0,
            !c@.detailed_network,
            !c@.detailed_debug,
            c@.banned_words == seq![seq!['a'], seq!['b']],
            c@.banned_links == seq![seq!['a'], seq!['b']],
    {
        proof {
            reveal_strlit("a");
            reveal_strlit("b");
        }
        let mut words: Vec<String> = Vec::new();
        words.push(String::from_str("a"));
        words.push(String::from_str("b"));
        let mut links: Vec<String> = Vec::new();
        links.push(String::from_str("a"));
        links.push(String::from_str("b"));
        let c = BotConfig {
            discord_api: String::new(),
            detailed_network: false,
            detailed_debug: false,
            banned_words_global: words,
            banned_links_global: links,
        };
        assert("a"@ =~= seq!['a']);
        assert("b"@ =~= seq!['b']);
        assert(c.banned_words_global.deep_view()[0] == c.banned_words_global@[0]@);
        assert(c.banned_words_global.deep_view()[1] == c.banned_words_global@[1]@);
        assert(c.banned_links_global.deep_view()[0] == c.banned_links_global@[0]@);
        assert(c.banned_links_global.deep_view()[1] == c.banned_links_global@[1]@);
        assert(c@.banned_words =~= seq![seq!['a'], seq!['b']]);
        assert(c@.banned_links =~= seq![seq!['a'], seq!['b']]);
        c
    }
}

/// Makes the bot's configuration out of the parsed configuration file:
/// the key, both preferences, the banned search terms as banned words and
/// the banned links.
pub fn get_config(bot_config: Config) -> (c: BotConfig)
    ensures
        c@.discord_api == bot_config.discord.discord_api@,
        c@.detailed_network == bot_config.preferences.detailed_network,
        c@.detailed_debug == bot_config.preferences.detailed_debug,
        c@.banned_words == bot_config.globals.banned_search.deep_view(),
        c@.banned_links == bot_config.globals.banned_links.deep_view(),
{
    BotConfig {
        discord_api: bot_config.discord.discord_api,
        detailed_network: bot_config.preferences.detailed_network,
        detailed_debug: bot_config.preferences.detailed_debug,
        banned_links_global: bot_config.globals.banned_links,
        banned_words_global: bot_config.globals.banned_search,
    }
}

/// The text of the configuration file written for a new installation.
pub open spec fn config_template() -> Seq<char> {
    r#"
title="bot config file"

# hashtags indicate line comments
# go to https://discord.com/developers/applications and make a bot
# don't share this key with anyone but yourself
# replace <API_KEY> with the api key you got from discord, and enclose them in ""
[discord]
discord_api=<API_KEY>

[preferences]
# true  => Network Congestion, Download/Upload Speed, Packet Loss, Ping
# false => ping
detailed_network=true
# true  => Program RAM usage, CPU usage, Threads
detailed_debug=true

[globals]
# banned search terms
# lists go like ["term1","term2"]ㅋ
banned_search=[]
# note: use links
# this is good: ["https://www.youtube.com/watch?v=dQw4w9WgXcQ", "https://www.youtube.com/watch?v=F5oQoNMpqi8"]
# this is no good: ["F5oQoNMpqi8", "dQw4w9WgXcQ", "hentai"]
banned_links=[]"#@
}

/// The text that a new configuration file is given.
pub fn config_file_contents() -> (s: &'static str)
    ensures
        s@ == config_template(),
{
    r#"
title="bot config file"

# hashtags indicate line comments
# go to https://discord.com/developers/applications and make a bot
# don't share this key with anyone but yourself
# replace <API_KEY> with the api key you got from discord, and enclose them in ""
[discord]
discord_api=<API_KEY>

[preferences]
# true  => Network Congestion, Download/Upload Speed, Packet Loss, Ping
# false => ping
detailed_network=true
# true  => Program RAM usage, CPU usage, Threads
detailed_debug=true

[globals]
# banned search terms
# lists go like ["term1","term2"]ㅋ
banned_search=[]
# note: use links
# this is good: ["https://www.youtube.com/watch?v=dQw4w9WgXcQ", "https://www.youtube.com/watch?v=F5oQoNMpqi8"]
# this is no good: ["F5oQoNMpqi8", "dQw4w9WgXcQ", "hentai"]
banned_links=[]"#
}

/// Why no new configuration file was made.
#[derive(Debug)]
pub enum BotTomlError {
    /// The file is there already.
    AlreadyExists,
    /// Writing the file failed, for the reason given.
    WriteFailed(String),
}

impl BotTomlError {
    /// What the error says.
    pub fn message(&self) -> (s: String)
        ensures
            match self {
                BotTomlError::AlreadyExists => s@ == "Error: File already exists in FileSystem!"@,
                BotTomlError::WriteFailed(why) => s@ == why@,
            },
    {
        match self {
            BotTomlError::AlreadyExists => String::from_str("Error: File already exists in FileSystem!"),
            BotTomlError::WriteFailed(why) => why.clone(),
        }
    }
}

/// Decides whether a new configuration file may be written: only where none
/// is there yet. On `Ok` the file is to be written with the text returned,
/// the template.
pub fn generate_bot_toml(file_exists: bool) -> (r: Result<&'static str, BotTomlError>)
    ensures
        file_exists <==> r is Err,
        r matches Err(e) ==> e is AlreadyExists,
        r matches Ok(text) ==> text@ == config_template(),
{
    if file_exists {
        Err(BotTomlError::AlreadyExists)
    } else {
        Ok(config_file_contents())
    }
}

/// The configuration file after `generate_bot_toml` was asked to make it and
/// the write it allowed worked: an existing file is kept as it is, a missing
/// one holds the template.
pub open spec fn file_after_generate(file: Option<Seq<char>>) -> Option<Seq<char>> {
    match file {
        Some(text) => Some(text),
        None => Some(config_template()),
    }
}

/// Making the configuration file twice: the first time, with no file there,
/// the file gets the template; the second time finds the file, is refused,
/// and leaves it as it is.
pub proof fn generating_bot_toml_twice(file: Option<Seq<char>>)
    ensures
        file is None ==> file_after_generate(file) == Some(config_template()),
        file_after_generate(file) is Some,
        file_after_generate(file_after_generate(file)) == file_after_generate(file),
{
}

} // verus!
