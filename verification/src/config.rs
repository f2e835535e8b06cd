//! Configuration data: model profiles with their provider defaults, tool
//! server configuration with environment-variable expansion, and prompt
//! configuration.  Loading and saving files is the embedding application's
//! business; the rules about the values live here.
//!
//! Ratios that configuration files write as fractions (temperature,
//! summarization threshold) are carried as integer per-mille values:
//! 700 stands for a ratio of 0.7.

use vstd::prelude::*;

use crate::text::str_eq;

verus! {

/// One model-backend profile.
pub struct LlmProfile {
    pub backend: String,
    pub api_key: String,
    pub model: String,
    pub endpoint: String,
    pub temperature_permille: Option<u32>,
    pub max_tokens: Option<u32>,
    pub context_window_size: Option<u32>,
    pub summarize_threshold_permille: Option<u32>,
    pub rate_limit_tpm: Option<u32>,
    pub max_retries: Option<u32>,
    pub retry_backoff_base: Option<u32>,
}

impl LlmProfile {
    /// The configured context window, with per-provider defaults.
    pub open spec fn spec_context_window_size(&self) -> u32 {
        match self.context_window_size {
            Some(n) => n,
            None => if self.backend@ == "openai"@ {
                128000
            } else if self.backend@ == "anthropic"@ {
                200000
            } else if self.backend@ == "gemini"@ {
                1000000
            } else if self.backend@ == "ollama"@ {
                32000
            } else {
                128000
            },
        }
    }

    /// The configured context window, with per-provider defaults.
    pub fn get_context_window_size(&self) -> (r: u32)
        ensures
            r == self.spec_context_window_size(),
    {
        match self.context_window_size {
            Some(n) => n,
            None => {
                if str_eq(self.backend.as_str(), "openai") {
                    128000
                } else if str_eq(self.backend.as_str(), "anthropic") {
                    200000
                } else if str_eq(self.backend.as_str(), "gemini") {
                    1000000
                } else if str_eq(self.backend.as_str(), "ollama") {
                    32000
                } else {
                    128000
                }
            },
        }
    }

    /// The summarization threshold in per-mille of the window, default 700.
    pub open spec fn spec_summarize_threshold_permille(&self) -> u32 {
        match self.summarize_threshold_permille {
            Some(t) => t,
            None => 700,
        }
    }

    /// The summarization threshold in per-mille of the window, default 700.
    pub fn get_summarize_threshold_permille(&self) -> (r: u32)
        ensures
            r == self.spec_summarize_threshold_permille(),
    {
        match self.summarize_threshold_permille {
            Some(t) => t,
            None => 700,
        }
    }

    /// The tokens-per-minute budget, with per-provider defaults; a local
    /// backend has none.
    pub open spec fn spec_rate_limit_tpm(&self) -> Option<u32> {
        match self.rate_limit_tpm {
            Some(n) => Some(n),
            None => if self.backend@ == "openai"@ {
                Some(500000)
            } else if self.backend@ == "anthropic"@ {
                Some(100000)
            } else if self.backend@ == "gemini"@ {
                Some(100000)
            } else if self.backend@ == "ollama"@ {
                None
            } else {
                Some(100000)
            },
        }
    }

    /// The tokens-per-minute budget, with per-provider defaults.
    pub fn get_rate_limit_tpm(&self) -> (r: Option<u32>)
        ensures
            r == self.spec_rate_limit_tpm(),
    {
        match self.rate_limit_tpm {
            Some(n) => Some(n),
            None => {
                if str_eq(self.backend.as_str(), "openai") {
                    Some(500000)
                } else if str_eq(self.backend.as_str(), "anthropic") {
                    Some(100000)
                } else if str_eq(self.backend.as_str(), "gemini") {
                    Some(100000)
                } else if str_eq(self.backend.as_str(), "ollama") {
                    None
                } else {
                    Some(100000)
                }
            },
        }
    }

    /// How many retries a rate-limited call gets, default 3.
    pub open spec fn spec_max_retries(&self) -> u32 {
        match self.max_retries {
            Some(n) => n,
            None => 3,
        }
    }

    /// How many retries a rate-limited call gets, default 3.
    pub fn get_max_retries(&self) -> (r: u32)
        ensures
            r == self.spec_max_retries(),
    {
        match self.max_retries {
            Some(n) => n,
            None => 3,
        }
    }

    /// The base of the exponential backoff, default 2.
    pub open spec fn spec_retry_backoff_base(&self) -> u32 {
        match self.retry_backoff_base {
            Some(b) => b,
            None => 2,
        }
    }

    /// The base of the exponential backoff, default 2.
    pub fn get_retry_backoff_base(&self) -> (r: u32)
        ensures
            r == self.spec_retry_backoff_base(),
    {
        match self.retry_backoff_base {
            Some(b) => b,
            None => 2,
        }
    }
}

impl Default for LlmProfile {
    /// The stock profile: an OpenAI-shaped backend with moderate settings.
    fn default() -> (r: LlmProfile)
        ensures
            r.backend@ == "openai"@,
            r.api_key@ == Seq::<char>::empty(),
            r.model@ == "gpt-3.5-turbo"@,
            r.endpoint@ == "https://api.openai.com/v1"@,
            r.temperature_permille == Some(700u32),
            r.max_tokens == Some(1000u32),
            r.context_window_size == Some(128000u32),
            r.summarize_threshold_permille == Some(700u32),
            r.rate_limit_tpm is None,
            r.max_retries is None,
            r.retry_backoff_base is None,
    {
        LlmProfile {
            backend: String::from_str("openai"),
            api_key: String::new(),
            model: String::from_str("gpt-3.5-turbo"),
            endpoint: String::from_str("https://api.openai.com/v1"),
            temperature_permille: Some(700),
            max_tokens: Some(1000),
            context_window_size: Some(128000),
            summarize_threshold_permille: Some(700),
            rate_limit_tpm: None,
            max_retries: None,
            retry_backoff_base: None,
        }
    }
}

// ---------------------------------------------------------------------------
// Tool server configuration
// ---------------------------------------------------------------------------

/// How to start one tool server: a command, its arguments, and per-server
/// environment variables.
pub struct MCPServerConfig {
    pub command: String,
    pub args: Vec<String>,
    pub env: Vec<(String, String)>,
}

/// The set of configured tool servers, by name.
pub struct MCPConfig {
    pub servers: Vec<(String, MCPServerConfig)>,
}

impl Default for MCPConfig {
    /// No servers configured.
    fn default() -> (r: MCPConfig)
        ensures
            r.servers@.len() == 0,
    {
        MCPConfig { servers: Vec::new() }
    }
}

/// The value of a variable in an environment given as name/value pairs:
/// the first binding wins, a missing name is the empty text.
pub open spec fn spec_env_lookup(env: Seq<(Seq<char>, Seq<char>)>, name: Seq<char>) -> Seq<char>
    decreases env.len(),
{
    if env.len() == 0 {
        Seq::empty()
    } else if env[0].0 == name {
        env[0].1
    } else {
        spec_env_lookup(env.drop_first(), name)
    }
}

/// The views of an environment given as executable pairs.
pub open spec fn env_views(env: Seq<(String, String)>) -> Seq<(Seq<char>, Seq<char>)> {
    Seq::new(env.len(), |i: int| (env[i].0@, env[i].1@))
}

/// The position of the first `}` at or after `from`, if any.
pub open spec fn spec_find_close(s: Seq<char>, from: int) -> Option<int>
    decreases s.len() - from,
{
    if from < 0 || from >= s.len() {
        None
    } else if s[from] == '}' {
        Some(from)
    } else {
        spec_find_close(s, from + 1)
    }
}

/// A text with every placeholder of the form `${env:NAME}` replaced by the
/// value of `NAME`, scanned once from left to right; a placeholder that is
/// never closed stays as it is.
pub open spec fn spec_expand(s: Seq<char>, env: Seq<(Seq<char>, Seq<char>)>) -> Seq<char>
    decreases s.len(),
{
    if s.len() == 0 {
        Seq::empty()
    } else if s.len() >= 6 && s.subrange(0, 6) == "${env:"@ {
        match spec_find_close(s, 6) {
            Some(k) => if 6 <= k < s.len() {
                spec_env_lookup(env, s.subrange(6, k)) + spec_expand(
                    s.subrange(k + 1, s.len() as int),
                    env,
                )
            } else {
                s
            },
            None => s,
        }
    } else {
        seq![s[0]] + spec_expand(s.drop_first(), env)
    }
}

/// Looks a variable up in an environment given as name/value pairs.
fn env_lookup(env: &Vec<(String, String)>, name: &str) -> (r: String)
    ensures
        r@ == spec_env_lookup(env_views(env@), name@),
{
    proof {
        assert(env_views(env@).subrange(0, env@.len() as int) =~= env_views(env@));
    }
    let mut i: usize = 0;
    while i < env.len()
        invariant
            0 <= i <= env@.len(),
            spec_env_lookup(env_views(env@).subrange(i as int, env@.len() as int), name@)
                == spec_env_lookup(env_views(env@), name@),
            forall|k: int| 0 <= k < i ==> env@[k].0@ != name@,
        decreases env@.len() - i,
    {
        let ghost tail = env_views(env@).subrange(i as int, env@.len() as int);
        proof {
            assert(tail[0] == (env@[i as int].0@, env@[i as int].1@));
            assert(tail.drop_first() =~= env_views(env@).subrange(i + 1, env@.len() as int));
        }
        if str_eq(env[i].0.as_str(), name) {
            return env[i].1.clone();
        }
        i = i + 1;
    }
    proof {
        assert(env_views(env@).subrange(env@.len() as int, env@.len() as int) =~= Seq::<
            (Seq<char>, Seq<char>),
        >::empty());
    }
    String::new()
}

/// Expands `${env:NAME}` placeholders in one text against the given
/// environment, in one pass from left to right.
pub fn expand_env_var_string(value: &str, env: &Vec<(String, String)>) -> (r: String)
    ensures
        r@ == spec_expand(value@, env_views(env@)),
    decreases value@.len(),
{
    let len = value.unicode_len();
    if len == 0 {
        return String::new();
    }
    let open = if len >= 6 {
        let head = value.substring_char(0, 6);
        proof {
            reveal_strlit("${env:");
        }
        str_eq(head, "${env:")
    } else {
        false
    };
    if open {
        // find the first '}' at or after position 6
        let mut k: usize = 6;
        while k < len && value.get_char(k) != '}'
            invariant
                6 <= k <= len,
                len == value@.len(),
                spec_find_close(value@, 6) == spec_find_close(value@, k as int),
            decreases len - k,
        {
            k = k + 1;
        }
        if k < len {
            let name = value.substring_char(6, k);
            let mut out = env_lookup(env, name);
            let rest = value.substring_char(k + 1, len);
            let tail = expand_env_var_string(rest, env);
            out.append(tail.as_str());
            proof {
                assert(spec_find_close(value@, 6) == Some(k as int));
                assert(out@ =~= spec_expand(value@, env_views(env@)));
            }
            out
        } else {
            proof {
                assert(spec_find_close(value@, 6) is None);
            }
            String::from_str(value)
        }
    } else {
        let first = value.substring_char(0, 1);
        let mut out = String::from_str(first);
        let rest = value.substring_char(1, len);
        let tail = expand_env_var_string(rest, env);
        out.append(tail.as_str());
        proof {
            assert(value@.drop_first() =~= value@.subrange(1, len as int));
            assert(out@ =~= spec_expand(value@, env_views(env@)));
        }
        out
    }
}

/// One server entry with every placeholder expanded: the command, each
/// argument in order, and each environment value in order, with the
/// environment keys unchanged.
pub open spec fn spec_server_expanded(
    before: MCPServerConfig,
    after: MCPServerConfig,
    env: Seq<(Seq<char>, Seq<char>)>,
) -> bool {
    &&& after.command@ == spec_expand(before.command@, env)
    &&& after.args@.len() == before.args@.len()
    &&& forall|j: int|
        0 <= j < before.args@.len() ==> (#[trigger] after.args@[j])@ == spec_expand(
            before.args@[j]@,
            env,
        )
    &&& after.env@.len() == before.env@.len()
    &&& forall|j: int|
        0 <= j < before.env@.len() ==> (#[trigger] after.env@[j]).0@ == before.env@[j].0@
            && after.env@[j].1@ == spec_expand(before.env@[j].1@, env)
}

impl MCPServerConfig {
    /// This configuration with every `${env:NAME}` placeholder in the
    /// command, the arguments and the environment values expanded.
    pub fn expand_env_vars(&self, env: &Vec<(String, String)>) -> (r: MCPServerConfig)
        ensures
            spec_server_expanded(*self, r, env_views(env@)),
    {
        let command = expand_env_var_string(self.command.as_str(), env);
        let mut args: Vec<String> = Vec::new();
        let mut i: usize = 0;
        while i < self.args.len()
            invariant
                0 <= i <= self.args@.len(),
                args@.len() == i,
                forall|k: int|
                    0 <= k < i ==> args@[k]@ == spec_expand(self.args@[k]@, env_views(env@)),
            decreases self.args@.len() - i,
        {
            args.push(expand_env_var_string(self.args[i].as_str(), env));
            i = i + 1;
        }
        let mut out_env: Vec<(String, String)> = Vec::new();
        let mut j: usize = 0;
        while j < self.env.len()
            invariant
                0 <= j <= self.env@.len(),
                out_env@.len() == j,
                forall|k: int|
                    0 <= k < j ==> out_env@[k].0@ == self.env@[k].0@ && out_env@[k].1@
                        == spec_expand(self.env@[k].1@, env_views(env@)),
            decreases self.env@.len() - j,
        {
            let key = self.env[j].0.clone();
            let val = expand_env_var_string(self.env[j].1.as_str(), env);
            out_env.push((key, val));
            j = j + 1;
        }
        MCPServerConfig { command, args, env: out_env }
    }
}

impl MCPConfig {
    /// This configuration with placeholders expanded in every server
    /// entry: the server names and their order are kept, and each entry's
    /// command, arguments and environment values are expanded as
    /// `spec_server_expanded` states.
    pub fn expand_env_vars(&self, env: &Vec<(String, String)>) -> (r: MCPConfig)
        ensures
            r.servers@.len() == self.servers@.len(),
            forall|i: int|
                0 <= i < self.servers@.len() ==> (#[trigger] r.servers@[i]).0@
                    == self.servers@[i].0@ && spec_server_expanded(
                    self.servers@[i].1,
                    r.servers@[i].1,
                    env_views(env@),
                ),
    {
        let mut servers: Vec<(String, MCPServerConfig)> = Vec::new();
        let mut i: usize = 0;
        while i < self.servers.len()
            invariant
                0 <= i <= self.servers@.len(),
                servers@.len() == i,
                forall|k: int|
                    0 <= k < i ==> (#[trigger] servers@[k]).0@ == self.servers@[k].0@
                        && spec_server_expanded(
                        self.servers@[k].1,
                        servers@[k].1,
                        env_views(env@),
                    ),
            decreases self.servers@.len() - i,
        {
            let name = self.servers[i].0.clone();
            let cfg = self.servers[i].1.expand_env_vars(env);
            servers.push((name, cfg));
            i = i + 1;
        }
        MCPConfig { servers }
    }
}

// ---------------------------------------------------------------------------
// Prompts
// ---------------------------------------------------------------------------

/// Where the prompt files live.
pub struct PromptConfig {
    pub system_prompt_file: Option<String>,
    pub user_prompt_file: Option<String>,
}

impl Default for PromptConfig {
    /// No prompt files configured.
    fn default() -> (r: PromptConfig)
        ensures
            r.system_prompt_file is None,
            r.user_prompt_file is None,
    {
        PromptConfig { system_prompt_file: None, user_prompt_file: None }
    }
}

impl PromptConfig {
    /// The stock prompt file paths under the given data directory.
    pub fn for_data_dir(data_dir: &str) -> (r: PromptConfig)
        ensures
            match r.system_prompt_file {
                Some(p) => p@ == data_dir@ + "/system_prompt.md"@,
                None => false,
            },
            match r.user_prompt_file {
                Some(p) => p@ == data_dir@ + "/user_prompt.md"@,
                None => false,
            },
    {
        let mut sys = String::from_str(data_dir);
        sys.append("/system_prompt.md");
        let mut usr = String::from_str(data_dir);
        usr.append("/user_prompt.md");
        PromptConfig { system_prompt_file: Some(sys), user_prompt_file: Some(usr) }
    }
}

/// Holds the system prompt once the application has read it from disk.
pub struct PromptManager {
    system_prompt: Option<String>,
}

impl PromptManager {
    /// Keeps the prompt text the application loaded, trimmed of ASCII
    /// whitespace at both ends; a prompt that could not be read is `None`.
    pub fn new(loaded: Option<String>) -> (r: PromptManager)
        ensures
            match (r.spec_system_prompt(), loaded) {
                (Some(p), Some(l)) => p == crate::text::spec_trim(l@),
                (None, None) => true,
                _ => false,
            },
    {
        PromptManager {
            system_prompt: match loaded {
                Some(l) => Some(crate::text::trim_ascii(l.as_str())),
                None => None,
            },
        }
    }

    /// The stored system prompt, if any.
    pub closed spec fn spec_system_prompt(&self) -> Option<Seq<char>> {
        match self.system_prompt {
            Some(p) => Some(p@),
            None => None,
        }
    }

    /// The stored system prompt, if any.
    pub fn get_system_prompt(&self) -> (r: Option<&str>)
        ensures
            match (r, self.spec_system_prompt()) {
                (Some(s), Some(p)) => s@ == p,
                (None, None) => true,
                _ => false,
            },
    {
        match &self.system_prompt {
            Some(p) => Some(p.as_str()),
            None => None,
        }
    }
}

/// The application configuration: the default profile name, the profiles by
/// name, prompt locations, and the tool server set.
pub struct AppConfig {
    pub default: String,
    pub profiles: Vec<(String, LlmProfile)>,
    pub prompts: PromptConfig,
    pub mcp: MCPConfig,
}

/// The position of the first profile with the given name, or the length
/// when there is none.
pub open spec fn spec_find_profile(profiles: Seq<(String, LlmProfile)>, name: Seq<char>, from: int) -> int
    decreases profiles.len() - from,
{
    if from < 0 || from >= profiles.len() {
        profiles.len() as int
    } else if profiles[from].0@ == name {
        from
    } else {
        spec_find_profile(profiles, name, from + 1)
    }
}

impl AppConfig {
    /// The first profile whose name is the configured default, if any:
    /// exactly the entry `spec_find_profile` points at.
    pub fn get_default_profile(&self) -> (r: Option<&LlmProfile>)
        ensures
            ({
                let j = spec_find_profile(self.profiles@, self.default@, 0);
                match r {
                    Some(p) => j < self.profiles@.len() && *p == self.profiles@[j].1,
                    None => j == self.profiles@.len(),
                }
            }),
    {
        let mut i: usize = 0;
        while i < self.profiles.len()
            invariant
                0 <= i <= self.profiles@.len(),
                spec_find_profile(self.profiles@, self.default@, 0) == spec_find_profile(
                    self.profiles@,
                    self.default@,
                    i as int,
                ),
                forall|k: int| 0 <= k < i ==> self.profiles@[k].0@ != self.default@,
            decreases self.profiles@.len() - i,
        {
            if str_eq(self.profiles[i].0.as_str(), self.default.as_str()) {
                return Some(&self.profiles[i].1);
            }
            i = i + 1;
        }
        None
    }
}

} // verus!
