//! Profiles: isolated homes of the assistant, where each profile lives,
//! which of them exist, what removing, activating, exporting and
//! importing one requires, and the listing. The directories, archives and
//! environment are handled at the caller.

use vstd::prelude::*;
use crate::dirs::{join_path, path_join};
use crate::text::{contains_seq, ends_with, owned, push_str, starts_with, str_contains, str_eq, str_starts_with};

verus! {

/// A profile.
pub struct Profile {
    pub name: String,
    pub home: String,
    pub description: Option<String>,
    pub created_at: String,
    pub last_used: Option<String>,
}

/// Where profiles other than the default one live.
pub struct ProfileManager {
    profiles_root: String,
    default_home: String,
}

/// The subdirectories a new profile gets.
pub open spec fn profile_subdirs() -> Seq<Seq<char>> {
    seq!["config"@, "memory"@, "skills"@, "sessions"@, "cache"@, "plugins"@, "mcp"@, "skins"@]
}

/// The directories found other than one named `default`, in order.
pub open spec fn named_dirs(dirs: Seq<(String, String)>) -> Seq<(String, String)> {
    dirs.filter(|d: (String, String)| d.0@ != "default"@)
}

impl ProfileManager {
    /// The directory of the profiles.
    pub closed spec fn root_spec(&self) -> Seq<char> {
        self.profiles_root@
    }

    /// The home of the default profile.
    pub closed spec fn default_home_spec(&self) -> Seq<char> {
        self.default_home@
    }

    /// A manager of the profiles under `profiles_root`; the default
    /// profile lives at `default_home`.
    pub fn new(profiles_root: &str, default_home: &str) -> (r: Self)
        ensures
            r.root_spec() == profiles_root@,
            r.default_home_spec() == default_home@,
    {
        ProfileManager { profiles_root: owned(profiles_root), default_home: owned(default_home) }
    }

    /// The home of profile `name`: the default home for `default`, else its
    /// directory under the profiles directory.
    pub fn home_of(&self, name: &str) -> (r: String)
        ensures
            r@ == (if name@ == "default"@ {
                self.default_home_spec()
            } else {
                path_join(self.root_spec(), name@)
            }),
    {
        if str_eq(name, "default") {
            owned(self.default_home.as_str())
        } else {
            join_path(self.profiles_root.as_str(), name)
        }
    }

    /// The profiles that exist: the default one when its home exists
    /// (`default_created` is when it was made), then each directory found
    /// under the profiles directory other than one named `default`, as
    /// (name, creation time).
    pub fn list(&self, default_created: Option<String>, dirs: &[(String, String)]) -> (r: Vec<Profile>)
        ensures
            r@.len() == (if default_created is Some { 1int } else { 0 }) + named_dirs(dirs@).len(),
            default_created is Some ==> r@[0].name@ == "default"@ && r@[0].home@ == self.default_home_spec()
                && crate::text::opt_view(r@[0].description) == Some("Default profile"@) && r@[0].created_at
                == default_created->0,
            forall|j: int|
                0 <= j < named_dirs(dirs@).len() ==> {
                    let p = r@[(if default_created is Some { 1int } else { 0 }) + j];
                    let d = #[trigger] named_dirs(dirs@)[j];
                    &&& p.name@ == d.0@
                    &&& p.home@ == path_join(self.root_spec(), d.0@)
                    &&& p.description is None
                    &&& p.created_at@ == d.1@
                },
    {
        let mut r: Vec<Profile> = Vec::new();
        match default_created {
            Some(t) => {
                r.push(
                    Profile {
                        name: owned("default"),
                        home: owned(self.default_home.as_str()),
                        description: Some(owned("Default profile")),
                        created_at: t,
                        last_used: None,
                    },
                );
            },
            None => {},
        }
        let ghost base = r@.len();
        let mut i: usize = 0;
        while i < dirs.len()
            invariant
                i <= dirs@.len(),
                base == (if default_created is Some { 1int } else { 0 }),
                r@.len() == base + named_dirs(dirs@.subrange(0, i as int)).len(),
                default_created is Some ==> r@[0].name@ == "default"@ && r@[0].home@ == self.default_home_spec()
                    && crate::text::opt_view(r@[0].description) == Some("Default profile"@) && r@[0].created_at
                    == default_created->0,
                forall|j: int|
                    0 <= j < named_dirs(dirs@.subrange(0, i as int)).len() ==> {
                        let p = r@[base + j];
                        let d = #[trigger] named_dirs(dirs@.subrange(0, i as int))[j];
                        &&& p.name@ == d.0@
                        &&& p.home@ == path_join(self.root_spec(), d.0@)
                        &&& p.description is None
                        &&& p.created_at@ == d.1@
                    },
            decreases dirs.len() - i,
        {
            proof {
                let pre = dirs@.subrange(0, i + 1);
                assert(pre.drop_last() =~= dirs@.subrange(0, i as int));
                reveal(Seq::filter);
                assert(named_dirs(pre) == (if pre.last().0@ != "default"@ {
                    named_dirs(pre.drop_last()).push(pre.last())
                } else {
                    named_dirs(pre.drop_last())
                }));
            }
            if !str_eq(dirs[i].0.as_str(), "default") {
                r.push(
                    Profile {
                        name: owned(dirs[i].0.as_str()),
                        home: join_path(self.profiles_root.as_str(), dirs[i].0.as_str()),
                        description: None,
                        created_at: owned(dirs[i].1.as_str()),
                        last_used: None,
                    },
                );
            }
            i = i + 1;
        }
        assert(dirs@.subrange(0, dirs@.len() as int) =~= dirs@);
        r
    }

    /// The profile made by creating `name` at `now`.
    pub fn create(&self, name: &str, description: Option<&str>, now: String) -> (r: Profile)
        ensures
            r.name@ == name@,
            r.home@ == path_join(self.root_spec(), name@),
            crate::text::opt_view(r.description) == crate::cron::str_opt_view(description),
            r.created_at == now,
            r.last_used is None,
    {
        Profile {
            name: owned(name),
            home: join_path(self.profiles_root.as_str(), name),
            description: match description {
                Some(d) => Some(owned(d)),
                None => None,
            },
            created_at: now,
            last_used: None,
        }
    }

    /// Whether profile `name` may be removed: any but the default one.
    pub fn remove(&self, name: &str) -> (r: Result<(), String>)
        ensures
            name@ == "default"@ ==> (r matches Err(e) && e@ == "Cannot remove default profile"@),
            name@ != "default"@ ==> r is Ok,
    {
        if str_eq(name, "default") {
            Err(owned("Cannot remove default profile"))
        } else {
            Ok(())
        }
    }

    /// The home to switch to for profile `name`, when it exists.
    pub fn activate(&self, name: &str, exists: bool) -> (r: Result<String, String>)
        ensures
            exists ==> (r matches Ok(h) && h@ == (if name@ == "default"@ {
                self.default_home_spec()
            } else {
                path_join(self.root_spec(), name@)
            })),
            !exists ==> (r matches Err(e) && e@ == "Profile '"@ + name@ + "' does not exist"@),
    {
        if !exists {
            let mut m = owned("Profile '");
            push_str(&mut m, name);
            push_str(&mut m, "' does not exist");
            return Err(m);
        }
        Ok(self.home_of(name))
    }

    /// The home to export for profile `name`, when it exists.
    pub fn export(&self, name: &str, exists: bool) -> (r: Result<String, String>)
        ensures
            exists ==> (r matches Ok(h) && h@ == (if name@ == "default"@ {
                self.default_home_spec()
            } else {
                path_join(self.root_spec(), name@)
            })),
            !exists ==> (r matches Err(e) && e@ == "Profile '"@ + name@ + "' not found"@),
    {
        if !exists {
            let mut m = owned("Profile '");
            push_str(&mut m, name);
            push_str(&mut m, "' not found");
            return Err(m);
        }
        Ok(self.home_of(name))
    }
}

/// Why an archive entry may not be imported: its name holds `..`, or it
/// resolves (`resolved`) outside the profile's resolved directory (`dest`).
pub open spec fn entry_error(name: Seq<char>, resolved: Seq<char>, dest: Seq<char>) -> Option<Seq<char>> {
    if contains_seq(name, ".."@) {
        Some("Archive contains path traversal entry '"@ + name + "' which is not allowed"@)
    } else if !starts_with(resolved, dest) {
        Some(
            "Archive entry '"@ + name + "' would extract outside the profile directory (path traversal blocked)"@,
        )
    } else {
        None
    }
}

/// Checks an archive entry before it is extracted.
pub fn check_archive_entry(name: &str, resolved: &str, dest: &str) -> (r: Result<(), String>)
    ensures
        match entry_error(name@, resolved@, dest@) {
            Some(e) => r matches Err(m) && m@ == e,
            None => r is Ok,
        },
{
    if str_contains(name, "..") {
        let mut m = owned("Archive contains path traversal entry '");
        push_str(&mut m, name);
        push_str(&mut m, "' which is not allowed");
        return Err(m);
    }
    if !str_starts_with(resolved, dest) {
        let mut m = owned("Archive entry '");
        push_str(&mut m, name);
        push_str(&mut m, "' would extract outside the profile directory (path traversal blocked)");
        return Err(m);
    }
    Ok(())
}

/// The listing line of a profile, marked when it is the active one.
pub open spec fn profile_line(p: Profile, current: Option<Seq<char>>) -> Seq<char> {
    "- **"@ + p.name@ + "**"@ + (if current == Some(p.name@) {
        " **(active)**"@
    } else {
        Seq::empty()
    }) + " - "@ + p.home@ + "\n"@
}

/// The lines of the profiles.
pub open spec fn profile_lines(ps: Seq<Profile>, current: Option<Seq<char>>) -> Seq<char>
    decreases ps.len(),
{
    if ps.len() == 0 {
        Seq::empty()
    } else {
        profile_lines(ps.drop_last(), current) + profile_line(ps.last(), current)
    }
}

/// The usage notes under the listing.
pub open spec fn profiles_usage() -> Seq<char> {
    "\nUsage:\n- `code-buddy -p <profile>` - Switch to profile\n- `code-buddy profile list` - List profiles\n- `code-buddy profile create <name>` - Create profile\n- `code-buddy profile remove <name>` - Remove profile\n"@
}

/// The profiles as Markdown; `current` is the active profile's name.
pub fn format_profiles_list(profiles: &[Profile], current: Option<&str>) -> (r: String)
    ensures
        r@ == "# Profiles\n\nMultiple isolated Code Buddy instances.\n\n"@ + profile_lines(
            profiles@,
            crate::cron::str_opt_view(current),
        ) + profiles_usage(),
{
    let mut md = owned("# Profiles\n\nMultiple isolated Code Buddy instances.\n\n");
    let ghost head = md@;
    let ghost cur = crate::cron::str_opt_view(current);
    let mut i: usize = 0;
    while i < profiles.len()
        invariant
            i <= profiles@.len(),
            cur == crate::cron::str_opt_view(current),
            md@ == head + profile_lines(profiles@.subrange(0, i as int), cur),
        decreases profiles.len() - i,
    {
        proof {
            let pre = profiles@.subrange(0, i + 1);
            assert(pre.drop_last() =~= profiles@.subrange(0, i as int));
            assert(pre.last() == profiles@[i as int]);
        }
        let p = &profiles[i];
        push_str(&mut md, "- **");
        push_str(&mut md, p.name.as_str());
        push_str(&mut md, "**");
        let active = match current {
            Some(c) => str_eq(c, p.name.as_str()),
            None => false,
        };
        if active {
            push_str(&mut md, " **(active)**");
        }
        push_str(&mut md, " - ");
        push_str(&mut md, p.home.as_str());
        push_str(&mut md, "\n");
        proof {
            assert(md@ =~= head + profile_lines(profiles@.subrange(0, i + 1), cur));
        }
        i = i + 1;
    }
    assert(profiles@.subrange(0, profiles@.len() as int) =~= profiles@);
    push_str(
        &mut md,
        "\nUsage:\n- `code-buddy -p <profile>` - Switch to profile\n- `code-buddy profile list` - List profiles\n- `code-buddy profile create <name>` - Create profile\n- `code-buddy profile remove <name>` - Remove profile\n",
    );
    md
}

} // verus!
