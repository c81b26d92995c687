//! Where Code Buddy keeps its files: every directory sits under the home
//! directory (`$CODE_BUDDY_HOME`, or `~/.code-buddy`), which the caller
//! resolves and hands in.

use vstd::prelude::*;
use crate::cron::str_opt_view;
use crate::text::{opt_view, owned, push_str};

verus! {

/// `base` joined with the relative component `name`, as `PathBuf::join`
/// does on Unix: a separator is put between them unless `base` is empty or
/// already ends in one.
pub open spec fn path_join(base: Seq<char>, name: Seq<char>) -> Seq<char> {
    if base.len() == 0 || base.last() == '/' {
        base + name
    } else {
        base + seq!['/'] + name
    }
}

/// `base` joined with the relative component `name`.
pub fn join_path(base: &str, name: &str) -> (r: String)
    ensures
        r@ == path_join(base@, name@),
{
    let mut r = owned(base);
    let n = base.is_empty();
    if !n && !crate::text::str_ends_with(base, "/") {
        push_str(&mut r, "/");
    }
    push_str(&mut r, name);
    proof {
        reveal_strlit("/");
        if base@.len() > 0 {
            assert(crate::text::ends_with(base@, "/"@) == (base@.last() == '/')) by {
                assert("/"@ =~= seq!['/']);
                assert(base@.subrange(base@.len() - 1, base@.len() as int) =~= seq![base@.last()]);
                if base@.last() != '/' {
                    assert(seq![base@.last()][0] != seq!['/'][0]);
                }
            }
        }
    }
    r
}

/// A directory named `name` under the home directory, if there is one.
pub open spec fn home_subdir(home: Option<Seq<char>>, name: Seq<char>) -> Option<Seq<char>> {
    match home {
        Some(h) => Some(path_join(h, name)),
        None => None,
    }
}

fn subdir(home: Option<&str>, name: &str) -> (r: Option<String>)
    ensures
        opt_view(r) == home_subdir(str_opt_view(home), name@),
{
    match home {
        Some(h) => Some(join_path(h, name)),
        None => None,
    }
}

/// The config directory.
pub fn config_dir(home: Option<&str>) -> (r: Option<String>)
    ensures
        opt_view(r) == home_subdir(str_opt_view(home), "config"@),
{
    subdir(home, "config")
}

/// The data directory.
pub fn data_dir(home: Option<&str>) -> (r: Option<String>)
    ensures
        opt_view(r) == home_subdir(str_opt_view(home), "data"@),
{
    subdir(home, "data")
}

/// The cache directory.
pub fn cache_dir(home: Option<&str>) -> (r: Option<String>)
    ensures
        opt_view(r) == home_subdir(str_opt_view(home), "cache"@),
{
    subdir(home, "cache")
}

/// The memory directory.
pub fn memory_dir(home: Option<&str>) -> (r: Option<String>)
    ensures
        opt_view(r) == home_subdir(str_opt_view(home), "memory"@),
{
    subdir(home, "memory")
}

/// The skills directory.
pub fn skills_dir(home: Option<&str>) -> (r: Option<String>)
    ensures
        opt_view(r) == home_subdir(str_opt_view(home), "skills"@),
{
    subdir(home, "skills")
}

/// The skins directory.
pub fn skins_dir(home: Option<&str>) -> (r: Option<String>)
    ensures
        opt_view(r) == home_subdir(str_opt_view(home), "skins"@),
{
    subdir(home, "skins")
}

/// The profiles directory.
pub fn profiles_dir(home: Option<&str>) -> (r: Option<String>)
    ensures
        opt_view(r) == home_subdir(str_opt_view(home), "profiles"@),
{
    subdir(home, "profiles")
}

/// The cron directory.
pub fn cron_dir(home: Option<&str>) -> (r: Option<String>)
    ensures
        opt_view(r) == home_subdir(str_opt_view(home), "cron"@),
{
    subdir(home, "cron")
}

/// The sessions directory.
pub fn sessions_dir(home: Option<&str>) -> (r: Option<String>)
    ensures
        opt_view(r) == home_subdir(str_opt_view(home), "sessions"@),
{
    subdir(home, "sessions")
}

/// The plugins directory.
pub fn plugins_dir(home: Option<&str>) -> (r: Option<String>)
    ensures
        opt_view(r) == home_subdir(str_opt_view(home), "plugins"@),
{
    subdir(home, "plugins")
}

/// The MCP directory.
pub fn mcp_dir(home: Option<&str>) -> (r: Option<String>)
    ensures
        opt_view(r) == home_subdir(str_opt_view(home), "mcp"@),
{
    subdir(home, "mcp")
}

/// The home directory as shown to the user: `$CODE_BUDDY_HOME` when it is
/// set, else `~/.code-buddy`.
pub fn display_home(env_home: Option<&str>) -> (r: String)
    ensures
        r@ == (match env_home {
            Some(h) => h@,
            None => "~/.code-buddy"@,
        }),
{
    match env_home {
        Some(h) => owned(h),
        None => owned("~/.code-buddy"),
    }
}

} // verus!
