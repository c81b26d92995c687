//! Configuration: agents and messages kept in the settings, and the
//! choice of API key and provider from the environment. Reading the
//! environment and the settings file happens at the caller.

use vstd::prelude::*;
use crate::strmap::StringMap;
use crate::text::{opt_view, owned, parse_uint, parse_unsigned, str_eq};

verus! {

/// A custom agent.
pub struct AgentConfig {
    pub model: Option<String>,
    pub description: Option<String>,
    pub tools: Vec<String>,
}

/// A message of the session history.
pub struct Message {
    pub role: String,
    pub content: String,
    pub timestamp: Option<String>,
}

/// The environment variables that hold an API key, in the order they are
/// tried.
pub open spec fn key_vars() -> Seq<Seq<char>> {
    seq![
        "ANTHROPIC_API_KEY"@,
        "OPENAI_API_KEY"@,
        "OPENROUTER_API_KEY"@,
        "NVIDIA_API_KEY"@,
        "GROQ_API_KEY"@,
        "DEEPSEEK_API_KEY"@,
        "TOGETHER_API_KEY"@,
    ]
}

/// The provider each of those keys is for.
pub open spec fn key_providers() -> Seq<Seq<char>> {
    seq!["anthropic"@, "openai"@, "openrouter"@, "nvidia"@, "groq"@, "deepseek"@, "together"@]
}

/// The first of the key variables, from the `i`-th on, that is set.
pub open spec fn first_key_from(env: Map<Seq<char>, Seq<char>>, i: int) -> Option<int>
    decreases 7 - i,
{
    if i < 0 || i >= 7 {
        None
    } else if env.contains_key(key_vars()[i]) {
        Some(i)
    } else {
        first_key_from(env, i + 1)
    }
}

/// The API key and provider that the environment selects: the first key
/// variable that is set and its provider; with none set, no key and the
/// provider `LLM_PROVIDER` names, else `anthropic`.
pub open spec fn env_key_and_provider(env: Map<Seq<char>, Seq<char>>) -> (Option<Seq<char>>, Seq<char>) {
    match first_key_from(env, 0) {
        Some(i) => (Some(env[key_vars()[i]]), key_providers()[i]),
        None => (None, if env.contains_key("LLM_PROVIDER"@) {
            env["LLM_PROVIDER"@]
        } else {
            "anthropic"@
        }),
    }
}

fn key_var(i: usize) -> (r: (&'static str, &'static str))
    requires
        i < 7,
    ensures
        r.0@ == key_vars()[i as int],
        r.1@ == key_providers()[i as int],
{
    if i == 0 {
        ("ANTHROPIC_API_KEY", "anthropic")
    } else if i == 1 {
        ("OPENAI_API_KEY", "openai")
    } else if i == 2 {
        ("OPENROUTER_API_KEY", "openrouter")
    } else if i == 3 {
        ("NVIDIA_API_KEY", "nvidia")
    } else if i == 4 {
        ("GROQ_API_KEY", "groq")
    } else if i == 5 {
        ("DEEPSEEK_API_KEY", "deepseek")
    } else {
        ("TOGETHER_API_KEY", "together")
    }
}

/// The API key and provider the environment `env` (variable names to
/// values) selects.
pub fn key_and_provider(env: &StringMap) -> (r: (Option<String>, String))
    ensures
        crate::text::opt_view(r.0) == env_key_and_provider(env.map_spec()).0,
        r.1@ == env_key_and_provider(env.map_spec()).1,
{
    let mut i: usize = 0;
    while i < 7
        invariant
            i <= 7,
            first_key_from(env.map_spec(), 0) == first_key_from(env.map_spec(), i as int),
        decreases 7 - i,
    {
        let (var, provider) = key_var(i);
        match env.get(var) {
            Some(v) => {
                return (Some(owned(v.as_str())), owned(provider));
            },
            None => {},
        }
        i = i + 1;
    }
    match env.get("LLM_PROVIDER") {
        Some(p) => (None, owned(p.as_str())),
        None => (None, owned("anthropic")),
    }
}

/// A yes/no setting: `true` or `1` is yes, anything else no, and an unset
/// variable takes `default`.
pub fn env_flag(value: Option<&str>, default: bool) -> (b: bool)
    ensures
        b == (match crate::cron::str_opt_view(value) {
            Some(v) => v == "true"@ || v == "1"@,
            None => default,
        }),
{
    match value {
        Some(v) => str_eq(v, "true") || str_eq(v, "1"),
        None => default,
    }
}

/// The settings read from the environment, but for the temperature,
/// which is a float and read by the caller.
pub struct EnvSettings {
    pub api_key: Option<String>,
    pub llm_provider: String,
    pub model: Option<String>,
    pub base_url: Option<String>,
    pub permission_mode: Option<String>,
    pub max_tokens: Option<u32>,
    pub system_prompt: Option<String>,
    pub conversation_window: Option<usize>,
    pub auto_compact: bool,
    pub compact_threshold: u8,
    pub compact_messages: usize,
    pub debug: bool,
    pub verbose: bool,
    pub no_color: bool,
    pub request_timeout_seconds: u64,
    pub max_retries: u32,
    pub theme: Option<String>,
}

/// The value of `name` in `env`, if set.
pub open spec fn env_value(env: Map<Seq<char>, Seq<char>>, name: Seq<char>) -> Option<Seq<char>> {
    if env.contains_key(name) {
        Some(env[name])
    } else {
        None
    }
}

/// A number read from `name`, if set and it reads as a number up to
/// `max`.
pub open spec fn env_number(env: Map<Seq<char>, Seq<char>>, name: Seq<char>, max: nat) -> Option<nat> {
    match env_value(env, name) {
        Some(v) => parse_unsigned(v, max),
        None => None,
    }
}

/// A yes/no setting read from `name`.
pub open spec fn env_yes(env: Map<Seq<char>, Seq<char>>, name: Seq<char>, default: bool) -> bool {
    match env_value(env, name) {
        Some(v) => v == "true"@ || v == "1"@,
        None => default,
    }
}

fn value_of(env: &StringMap, name: &str) -> (r: Option<String>)
    ensures
        opt_view(r) == env_value(env.map_spec(), name@),
{
    match env.get(name) {
        Some(v) => Some(owned(v.as_str())),
        None => None,
    }
}

fn number_of(env: &StringMap, name: &str, max: u64) -> (r: Option<u64>)
    ensures
        match env_number(env.map_spec(), name@, max as nat) {
            Some(v) => r == Some(v as u64),
            None => r is None,
        },
{
    match env.get(name) {
        Some(v) => parse_uint(v.as_str(), max),
        None => None,
    }
}

fn yes_of(env: &StringMap, name: &str, default: bool) -> (b: bool)
    ensures
        b == env_yes(env.map_spec(), name@, default),
{
    match env.get(name) {
        Some(v) => env_flag(Some(v.as_str()), default),
        None => default,
    }
}

/// The settings that the environment `env` (variable names to values)
/// gives: the API key and provider as `key_and_provider` chooses them,
/// texts as set, numbers where they read as numbers of their type (with
/// their defaults: compaction at 85 percent keeping 20 messages, a 120 s
/// timeout, 3 retries), and yes/no settings where set (automatic
/// compaction on by default, debug, verbose and no-colour off).
pub fn settings_from_env(env: &StringMap) -> (r: EnvSettings)
    ensures
        opt_view(r.api_key) == env_key_and_provider(env.map_spec()).0,
        r.llm_provider@ == env_key_and_provider(env.map_spec()).1,
        opt_view(r.model) == env_value(env.map_spec(), "ANTHROPIC_MODEL"@),
        opt_view(r.base_url) == env_value(env.map_spec(), "ANTHROPIC_BASE_URL"@),
        opt_view(r.permission_mode) == env_value(env.map_spec(), "PERMISSION_MODE"@),
        opt_view(r.system_prompt) == env_value(env.map_spec(), "SYSTEM_PROMPT"@),
        opt_view(r.theme) == env_value(env.map_spec(), "CODE_BUDDY_THEME"@),
        r.max_tokens == (match env_number(env.map_spec(), "MAX_TOKENS"@, u32::MAX as nat) {
            Some(v) => Some(v as u32),
            None => None,
        }),
        r.conversation_window == (match env_number(env.map_spec(), "CONVERSATION_WINDOW"@, usize::MAX as nat) {
            Some(v) => Some(v as usize),
            None => None,
        }),
        r.compact_threshold == (match env_number(env.map_spec(), "COMPACT_THRESHOLD"@, u8::MAX as nat) {
            Some(v) => v as u8,
            None => 85u8,
        }),
        r.compact_messages == (match env_number(env.map_spec(), "COMPACT_MESSAGES"@, usize::MAX as nat) {
            Some(v) => v as usize,
            None => 20usize,
        }),
        r.request_timeout_seconds == (match env_number(env.map_spec(), "REQUEST_TIMEOUT_SECONDS"@, u64::MAX as nat) {
            Some(v) => v as u64,
            None => 120u64,
        }),
        r.max_retries == (match env_number(env.map_spec(), "MAX_RETRIES"@, u32::MAX as nat) {
            Some(v) => v as u32,
            None => 3u32,
        }),
        r.auto_compact == env_yes(env.map_spec(), "AUTO_COMPACT"@, true),
        r.debug == env_yes(env.map_spec(), "DEBUG"@, false),
        r.verbose == env_yes(env.map_spec(), "VERBOSE"@, false),
        r.no_color == env_yes(env.map_spec(), "NO_COLOR"@, false),
{
    let (api_key, llm_provider) = key_and_provider(env);
    let max_tokens: Option<u32> = match number_of(env, "MAX_TOKENS", 4294967295) {
        Some(v) => Some(v as u32),
        None => None,
    };
    let conversation_window: Option<usize> = match number_of(env, "CONVERSATION_WINDOW", usize::MAX as u64) {
        Some(v) => Some(v as usize),
        None => None,
    };
    let compact_threshold: u8 = match number_of(env, "COMPACT_THRESHOLD", 255) {
        Some(v) => v as u8,
        None => 85,
    };
    let compact_messages: usize = match number_of(env, "COMPACT_MESSAGES", usize::MAX as u64) {
        Some(v) => v as usize,
        None => 20,
    };
    let request_timeout_seconds: u64 = match number_of(env, "REQUEST_TIMEOUT_SECONDS", u64::MAX) {
        Some(v) => v,
        None => 120,
    };
    let max_retries: u32 = match number_of(env, "MAX_RETRIES", 4294967295) {
        Some(v) => v as u32,
        None => 3,
    };
    EnvSettings {
        api_key,
        llm_provider,
        model: value_of(env, "ANTHROPIC_MODEL"),
        base_url: value_of(env, "ANTHROPIC_BASE_URL"),
        permission_mode: value_of(env, "PERMISSION_MODE"),
        max_tokens,
        system_prompt: value_of(env, "SYSTEM_PROMPT"),
        conversation_window,
        auto_compact: yes_of(env, "AUTO_COMPACT", true),
        compact_threshold,
        compact_messages,
        debug: yes_of(env, "DEBUG", false),
        verbose: yes_of(env, "VERBOSE", false),
        no_color: yes_of(env, "NO_COLOR", false),
        request_timeout_seconds,
        max_retries,
        theme: value_of(env, "CODE_BUDDY_THEME"),
    }
}

} // verus!
