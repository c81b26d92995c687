//! Paths as Unix text: their components, `.` and `..` resolved without
//! touching the disk, and containment in allowed directories.

use vstd::prelude::*;
use crate::text::{join, opt_view, owned, push_str, str_eq, string_of, chars_of, views};

verus! {

/// Segments of `s` between slashes, state after its first `n` characters:
/// the finished segments and the current one.
pub open spec fn slash_split_prefix(s: Seq<char>, n: int) -> (Seq<Seq<char>>, Seq<char>)
    decreases n,
{
    if n <= 0 {
        (Seq::empty(), Seq::empty())
    } else {
        let (done, cur) = slash_split_prefix(s, n - 1);
        if s[n - 1] == '/' {
            (done.push(cur), Seq::empty())
        } else {
            (done, cur.push(s[n - 1]))
        }
    }
}

/// Segments of `s` between slashes, empty ones included.
pub open spec fn slash_segments(s: Seq<char>) -> Seq<Seq<char>> {
    let (done, cur) = slash_split_prefix(s, s.len() as int);
    done.push(cur)
}

/// The named segments: neither empty nor `.`.
pub open spec fn named_segments(segs: Seq<Seq<char>>) -> Seq<Seq<char>>
    decreases segs.len(),
{
    if segs.len() == 0 {
        Seq::empty()
    } else {
        let rest = named_segments(segs.drop_last());
        let s = segs.last();
        if s.len() == 0 || s == "."@ {
            rest
        } else {
            rest.push(s)
        }
    }
}

/// The components of a path (`Path::components` on Unix): `/` for a leading
/// root, `.` when a relative path starts with `.` or `./`, then every named
/// segment (`..` included); empty and other `.` segments drop out.
pub open spec fn path_components(p: Seq<char>) -> Seq<Seq<char>> {
    let segs = slash_segments(p);
    if p.len() > 0 && p[0] == '/' {
        seq!["/"@] + named_segments(segs.drop_first())
    } else if segs[0] == "."@ {
        seq!["."@] + named_segments(segs)
    } else {
        named_segments(segs)
    }
}

/// Components with `.` dropped and each `..` taking back the component
/// before it (the root too); a `..` with nothing before it is dropped.
pub open spec fn resolve_components(cs: Seq<Seq<char>>) -> Seq<Seq<char>>
    decreases cs.len(),
{
    if cs.len() == 0 {
        Seq::empty()
    } else {
        let st = resolve_components(cs.drop_last());
        let c = cs.last();
        if c == ".."@ {
            if st.len() > 0 {
                st.drop_last()
            } else {
                st
            }
        } else if c == "."@ {
            st
        } else {
            st.push(c)
        }
    }
}

/// Components put back together as a path.
pub open spec fn render_components(cs: Seq<Seq<char>>) -> Seq<char> {
    if cs.len() > 0 && cs[0] == "/"@ {
        "/"@ + join(cs.drop_first(), "/"@)
    } else {
        join(cs, "/"@)
    }
}

/// `p` with `.` and `..` resolved.
pub open spec fn normalized(p: Seq<char>) -> Seq<char> {
    render_components(resolve_components(path_components(p)))
}

fn slash_segments_of(p: &str) -> (r: Vec<String>)
    ensures
        views(r@) == slash_segments(p@),
{
    let v = chars_of(p);
    let mut done: Vec<String> = Vec::new();
    let mut cur: Vec<char> = Vec::new();
    let mut i: usize = 0;
    while i < v.len()
        invariant
            v@ == p@,
            i <= v.len(),
            views(done@) == slash_split_prefix(p@, i as int).0,
            cur@ == slash_split_prefix(p@, i as int).1,
        decreases v.len() - i,
    {
        if v[i] == '/' {
            let w = string_of(cur.as_slice());
            let ghost before = done@;
            done.push(w);
            assert(views(done@) =~= views(before).push(cur@));
            cur = Vec::new();
        } else {
            cur.push(v[i]);
        }
        i = i + 1;
    }
    let w = string_of(cur.as_slice());
    let ghost before = done@;
    done.push(w);
    assert(views(done@) =~= views(before).push(cur@));
    done
}

fn named_segments_of(segs: &Vec<String>, from: usize) -> (r: Vec<String>)
    requires
        from <= segs@.len(),
    ensures
        views(r@) == named_segments(views(segs@).subrange(from as int, segs@.len() as int)),
{
    let mut r: Vec<String> = Vec::new();
    let mut i: usize = from;
    let ghost all = views(segs@).subrange(from as int, segs@.len() as int);
    while i < segs.len()
        invariant
            from <= i <= segs@.len(),
            all == views(segs@).subrange(from as int, segs@.len() as int),
            views(r@) == named_segments(views(segs@).subrange(from as int, i as int)),
        decreases segs.len() - i,
    {
        proof {
            let pre = views(segs@).subrange(from as int, i + 1);
            assert(pre.drop_last() =~= views(segs@).subrange(from as int, i as int));
            assert(pre.last() == segs@[i as int]@);
        }
        let s = &segs[i];
        if !(s.as_str().is_empty() || str_eq(s.as_str(), ".")) {
            let ghost before = r@;
            r.push(s.clone());
            assert(views(r@) =~= views(before).push(segs@[i as int]@));
        }
        i = i + 1;
    }
    r
}

/// The components of `p`, as `Path::components` yields them on Unix.
pub fn components_of(p: &str) -> (r: Vec<String>)
    ensures
        views(r@) == path_components(p@),
{
    let segs = slash_segments_of(p);
    proof {
        assert(views(segs@).len() >= 1);
    }
    let v = chars_of(p);
    if v.len() > 0 && v[0] == '/' {
        let rest = named_segments_of(&segs, 1);
        proof {
            assert(views(segs@).subrange(1, segs@.len() as int) =~= views(segs@).drop_first());
        }
        let mut r: Vec<String> = Vec::new();
        r.push(owned("/"));
        let mut i: usize = 0;
        while i < rest.len()
            invariant
                i <= rest@.len(),
                r@.len() == i + 1,
                r@[0]@ == "/"@,
                forall|k: int| 0 <= k < i ==> r@[k + 1] == rest@[k],
            decreases rest.len() - i,
        {
            r.push(rest[i].clone());
            i = i + 1;
        }
        assert(views(r@) =~= seq!["/"@] + views(rest@));
        r
    } else {
        let all = named_segments_of(&segs, 0);
        proof {
            assert(views(segs@).subrange(0, segs@.len() as int) =~= views(segs@));
        }
        if str_eq(segs[0].as_str(), ".") {
            let mut r: Vec<String> = Vec::new();
            r.push(owned("."));
            let mut i: usize = 0;
            while i < all.len()
                invariant
                    i <= all@.len(),
                    r@.len() == i + 1,
                    r@[0]@ == "."@,
                    forall|k: int| 0 <= k < i ==> r@[k + 1] == all@[k],
                decreases all.len() - i,
            {
                r.push(all[i].clone());
                i = i + 1;
            }
            assert(views(r@) =~= seq!["."@] + views(all@));
            r
        } else {
            all
        }
    }
}

fn resolve(cs: &Vec<String>) -> (r: Vec<String>)
    ensures
        views(r@) == resolve_components(views(cs@)),
{
    let mut st: Vec<String> = Vec::new();
    let mut i: usize = 0;
    while i < cs.len()
        invariant
            i <= cs@.len(),
            views(st@) == resolve_components(views(cs@).subrange(0, i as int)),
        decreases cs.len() - i,
    {
        proof {
            let pre = views(cs@).subrange(0, i + 1);
            assert(pre.drop_last() =~= views(cs@).subrange(0, i as int));
            assert(pre.last() == cs@[i as int]@);
        }
        let ghost before = st@;
        if str_eq(cs[i].as_str(), "..") {
            if st.len() > 0 {
                st.pop();
                assert(views(st@) =~= views(before).drop_last());
            }
        } else if str_eq(cs[i].as_str(), ".") {
        } else {
            st.push(cs[i].clone());
            assert(views(st@) =~= views(before).push(cs@[i as int]@));
        }
        i = i + 1;
    }
    assert(views(cs@).subrange(0, cs@.len() as int) =~= views(cs@));
    st
}

fn render(cs: &Vec<String>) -> (r: String)
    ensures
        r@ == render_components(views(cs@)),
{
    if cs.len() > 0 && str_eq(cs[0].as_str(), "/") {
        let mut rest: Vec<String> = Vec::new();
        let mut i: usize = 1;
        while i < cs.len()
            invariant
                1 <= i <= cs@.len(),
                views(rest@) == views(cs@).subrange(1, i as int),
            decreases cs.len() - i,
        {
            let ghost before = rest@;
            rest.push(cs[i].clone());
            assert(views(rest@) =~= views(before).push(cs@[i as int]@));
            assert(views(cs@).subrange(1, i + 1) =~= views(cs@).subrange(1, i as int).push(cs@[i as int]@));
            i = i + 1;
        }
        assert(views(cs@).subrange(1, cs@.len() as int) =~= views(cs@).drop_first());
        let mut r = owned("/");
        let j = crate::tools::executor::join_strings(rest.as_slice(), "/");
        push_str(&mut r, j.as_str());
        r
    } else {
        crate::tools::executor::join_strings(cs.as_slice(), "/")
    }
}

/// `path` with `.` and `..` resolved, without looking at the disk.
pub fn normalize_path(path: &str) -> (r: String)
    ensures
        r@ == normalized(path@),
{
    let cs = components_of(path);
    let st = resolve(&cs);
    render(&st)
}

/// The resolved components of `p`.
pub open spec fn resolved(p: Seq<char>) -> Seq<Seq<char>> {
    resolve_components(path_components(p))
}

/// `dir`'s resolved components begin `p`'s.
pub open spec fn within(p: Seq<char>, dir: Seq<char>) -> bool {
    resolved(dir).len() <= resolved(p).len() && resolved(p).subrange(0, resolved(dir).len() as int)
        == resolved(dir)
}

fn prefix_of(a: &Vec<String>, b: &Vec<String>) -> (r: bool)
    ensures
        r == (views(a@).len() <= views(b@).len() && views(b@).subrange(0, views(a@).len() as int)
            == views(a@)),
{
    if a.len() > b.len() {
        return false;
    }
    let mut i: usize = 0;
    while i < a.len()
        invariant
            a@.len() <= b@.len(),
            i <= a@.len(),
            forall|k: int| 0 <= k < i ==> a@[k]@ == b@[k]@,
        decreases a.len() - i,
    {
        if !str_eq(a[i].as_str(), b[i].as_str()) {
            assert(views(b@).subrange(0, views(a@).len() as int)[i as int] != views(a@)[i as int]);
            return false;
        }
        i = i + 1;
    }
    assert(views(b@).subrange(0, views(a@).len() as int) =~= views(a@));
    true
}

/// Whether `path`, resolved, lies within one of `allowed_dirs`, resolved.
pub fn is_path_allowed(path: &str, allowed_dirs: &[String]) -> (r: bool)
    ensures
        r == exists|i: int| 0 <= i < allowed_dirs@.len() && within(path@, #[trigger] allowed_dirs@[i]@),
{
    let p = resolve(&components_of(path));
    let mut i: usize = 0;
    while i < allowed_dirs.len()
        invariant
            i <= allowed_dirs@.len(),
            views(p@) == resolved(path@),
            forall|k: int| 0 <= k < i ==> !within(path@, #[trigger] allowed_dirs@[k]@),
        decreases allowed_dirs.len() - i,
    {
        let d = resolve(&components_of(allowed_dirs[i].as_str()));
        if prefix_of(&d, &p) {
            assert(within(path@, allowed_dirs@[i as int]@));
            return true;
        }
        i = i + 1;
    }
    false
}

/// `base` joined with `p` as `PathBuf::join` does on Unix: an absolute
/// `p` replaces `base`.
pub open spec fn joined(base: Seq<char>, p: Seq<char>) -> Seq<char> {
    if p.len() > 0 && p[0] == '/' {
        p
    } else {
        crate::dirs::path_join(base, p)
    }
}

/// `base` joined with `p`.
pub fn join_paths(base: &str, p: &str) -> (r: String)
    ensures
        r@ == joined(base@, p@),
{
    let v = chars_of(p);
    if v.len() > 0 && v[0] == '/' {
        owned(p)
    } else {
        crate::dirs::join_path(base, p)
    }
}

/// Components rebuilt as `PathBuf` pushes and pops them: the root starts
/// over at `/`, `..` pops the last component but never the root, `.` is
/// skipped, a name is pushed.
pub open spec fn rebuilt(cs: Seq<Seq<char>>) -> Seq<Seq<char>>
    decreases cs.len(),
{
    if cs.len() == 0 {
        Seq::empty()
    } else {
        let st = rebuilt(cs.drop_last());
        let c = cs.last();
        if c == "/"@ {
            seq!["/"@]
        } else if c == ".."@ {
            if st.len() > 0 && st != seq!["/"@] {
                st.drop_last()
            } else {
                st
            }
        } else if c == "."@ {
            st
        } else {
            st.push(c)
        }
    }
}

fn rebuild(cs: &Vec<String>) -> (r: Vec<String>)
    ensures
        views(r@) == rebuilt(views(cs@)),
{
    let mut st: Vec<String> = Vec::new();
    let mut i: usize = 0;
    while i < cs.len()
        invariant
            i <= cs@.len(),
            views(st@) == rebuilt(views(cs@).subrange(0, i as int)),
        decreases cs.len() - i,
    {
        proof {
            let pre = views(cs@).subrange(0, i + 1);
            assert(pre.drop_last() =~= views(cs@).subrange(0, i as int));
            assert(pre.last() == cs@[i as int]@);
        }
        let c = cs[i].as_str();
        let ghost before = views(st@);
        if str_eq(c, "/") {
            st = Vec::new();
            st.push(owned("/"));
            assert(views(st@) =~= seq!["/"@]);
        } else if str_eq(c, "..") {
            let only_root = st.len() == 1 && str_eq(st[0].as_str(), "/");
            proof {
                if st@.len() == 1 {
                    assert(views(st@) =~= seq![st@[0]@]);
                    if views(st@) == seq!["/"@] {
                        assert(views(st@)[0] == st@[0]@);
                    }
                }
            }
            if st.len() > 0 && !only_root {
                st.pop();
                assert(views(st@) =~= before.drop_last());
            }
        } else if str_eq(c, ".") {
        } else {
            st.push(owned(c));
            assert(views(st@) =~= before.push(c@));
        }
        i = i + 1;
    }
    assert(views(cs@).subrange(0, cs@.len() as int) =~= views(cs@));
    st
}

/// `p` normalised without the disk, as the tools do when a path cannot be
/// resolved on it.
pub open spec fn manual_normal(p: Seq<char>) -> Seq<char> {
    render_components(rebuilt(path_components(p)))
}

/// Why the path `path_str`, relative to `cwd`, may not be used: it
/// resolves (`canonical` when the disk could resolve it, else by hand)
/// to a path that does not lie in the resolved working directory, compared
/// component by component, so that a sibling such as `/tmp/ab` is not taken
/// for a path inside `/tmp/a`.
pub open spec fn outside_cwd_error(path_str: Seq<char>, cwd: Seq<char>, canonical: Option<Seq<char>>, cwd_canonical: Seq<char>) -> Option<(Seq<char>, Seq<char>)> {
    let resolved = match canonical {
        Some(c) => c,
        None => manual_normal(joined(cwd, path_str)),
    };
    if path_starts_with(resolved, cwd_canonical) {
        None
    } else {
        Some(
            (
                resolved,
                "Path '"@ + path_str + "' resolves to '"@ + resolved
                    + "' which is outside the current directory. Directory traversal is not allowed."@,
            ),
        )
    }
}

/// The path `path_str` resolved within the working directory `cwd`, or
/// the error when it would leave it. `canonical` is what the disk
/// resolved `cwd` joined with `path_str` to, if it could; `cwd_canonical`
/// is the resolved working directory.
pub fn validate_path_within_cwd(path_str: &str, cwd: &str, canonical: Option<&str>, cwd_canonical: &str) -> (r: Result<String, String>)
    ensures
        match outside_cwd_error(path_str@, cwd@, crate::cron::str_opt_view(canonical), cwd_canonical@) {
            Some((_, e)) => r matches Err(m) && m@ == e,
            None => r matches Ok(p) && p@ == (match canonical {
                Some(c) => c@,
                None => manual_normal(joined(cwd@, path_str@)),
            }),
        },
{
    let resolved = match canonical {
        Some(c) => owned(c),
        None => {
            let j = join_paths(cwd, path_str);
            let cs = components_of(j.as_str());
            let st = rebuild(&cs);
            render(&st)
        },
    };
    let a = components_of(cwd_canonical);
    let b = components_of(resolved.as_str());
    if prefix_of(&a, &b) {
        Ok(resolved)
    } else {
        let mut m = owned("Path '");
        push_str(&mut m, path_str);
        push_str(&mut m, "' resolves to '");
        push_str(&mut m, resolved.as_str());
        push_str(&mut m, "' which is outside the current directory. Directory traversal is not allowed.");
        Err(m)
    }
}

/// `dir`'s components begin `p`'s (`Path::starts_with`).
pub open spec fn path_starts_with(p: Seq<char>, dir: Seq<char>) -> bool {
    let a = path_components(dir);
    let b = path_components(p);
    a.len() <= b.len() && b.subrange(0, a.len() as int) == a
}

/// The path a file tool may use for `path_str`, resolved against `cwd`
/// (`canonical` is what the disk resolved it to, if it could), or the
/// error when it lies outside the resolved working directory.
pub fn validate_path(path_str: &str, cwd: &str, canonical: Option<&str>, cwd_canonical: &str) -> (r: Result<String, String>)
    ensures
        ({
            let p = match canonical {
                Some(c) => c@,
                None => joined(cwd@, path_str@),
            };
            if path_starts_with(p, cwd_canonical@) {
                r matches Ok(x) && x@ == p
            } else {
                r matches Err(e) && e@ == "Access denied: path '"@ + path_str@ + "' is outside the current directory"@
            }
        }),
{
    let p = match canonical {
        Some(c) => owned(c),
        None => join_paths(cwd, path_str),
    };
    let a = components_of(cwd_canonical);
    let b = components_of(p.as_str());
    if prefix_of(&a, &b) {
        Ok(p)
    } else {
        let mut m = owned("Access denied: path '");
        push_str(&mut m, path_str);
        push_str(&mut m, "' is outside the current directory");
        Err(m)
    }
}


/// The files and directories whose presence marks a project root, in the
/// order they are probed.
pub open spec fn project_markers() -> Seq<Seq<char>> {
    seq![
        ".git"@, "package.json"@, "Cargo.toml"@, "go.mod"@, "pyproject.toml"@, "requirements.txt"@, "Pipfile"@,
        "pom.xml"@, "build.gradle"@, ".project-root"@,
    ]
}

fn marker_list() -> (r: Vec<&'static str>)
    ensures
        r@.map_values(|m: &'static str| m@) == project_markers(),
{
    let r = vec![
        ".git", "package.json", "Cargo.toml", "go.mod", "pyproject.toml", "requirements.txt", "Pipfile", "pom.xml",
        "build.gradle", ".project-root",
    ];
    proof {
        reveal_strlit(".git");
        reveal_strlit("package.json");
        reveal_strlit("Cargo.toml");
        reveal_strlit("go.mod");
        reveal_strlit("pyproject.toml");
        reveal_strlit("requirements.txt");
        reveal_strlit("Pipfile");
        reveal_strlit("pom.xml");
        reveal_strlit("build.gradle");
        reveal_strlit(".project-root");
    }
    assert(r@.map_values(|m: &'static str| m@) =~= project_markers());
    r
}

/// What `Path::parent` gives for a path, as text.
pub uninterp spec fn path_parent(p: Seq<char>) -> Option<Seq<char>>;

/// `Path::parent`: the path without its final component, `None` for the
/// root or an empty path. The parent is a strict prefix of the path, so it
/// is shorter.
#[verifier::external_body]
fn parent_of(p: &str) -> (r: Option<String>)
    ensures
        opt_view(r) == path_parent(p@),
        r matches Some(q) ==> q@.len() < p@.len(),
{
    std::path::Path::new(p).parent().map(|q| q.to_string_lossy().to_string())
}

/// `p` and then each of its parents in turn, up to the last one.
pub open spec fn ancestors(p: Seq<char>) -> Seq<Seq<char>>
    decreases p.len(),
{
    match path_parent(p) {
        Some(q) => if q.len() < p.len() {
            seq![p] + ancestors(q)
        } else {
            seq![p]
        },
        None => seq![p],
    }
}

/// A call of `probe` on `path` gave `b`.
pub open spec fn probed<F: Fn(&str) -> bool>(probe: F, path: Seq<char>, b: bool) -> bool {
    exists|s: &str| s@ == path && #[trigger] probe.ensures((s,), b)
}

/// Every marker of `dir` was probed absent.
pub open spec fn no_marker_in<F: Fn(&str) -> bool>(probe: F, dir: Seq<char>) -> bool {
    forall|j: int| 0 <= j < project_markers().len() ==> probed(probe, #[trigger] joined(dir, project_markers()[j]), false)
}

/// `d` is the `k`-th of the ancestors of `start`, no marker was found in
/// the ones before it, and one was found in `d`.
pub open spec fn root_found<F: Fn(&str) -> bool>(present: F, start: Seq<char>, d: Seq<char>) -> bool {
    exists|k: int|
        0 <= k < ancestors(start).len() && #[trigger] ancestors(start)[k] == d
            && (forall|i: int| 0 <= i < k ==> no_marker_in(present, #[trigger] ancestors(start)[i]))
            && (exists|j: int|
                0 <= j < project_markers().len() && probed(present, #[trigger] joined(d, project_markers()[j]), true))
}

/// The nearest directory, from `start` upwards through its parents, that
/// holds one of the project markers; `present` tells whether a path is
/// present.
pub fn find_project_root<F: Fn(&str) -> bool>(start: &str, present: F) -> (r: Option<String>)
    requires
        forall|s: &str| #[trigger] present.requires((s,)),
    ensures
        r matches Some(d) ==> root_found(present, start@, d@),
        r is None ==> forall|i: int| 0 <= i < ancestors(start@).len() ==> no_marker_in(present, #[trigger] ancestors(start@)[i]),
{
    let markers = marker_list();
    let ghost all = ancestors(start@);
    let mut cur = owned(start);
    let ghost mut k: int = 0;
    loop
        invariant
            forall|s: &str| #[trigger] present.requires((s,)),
            markers@.map_values(|m: &'static str| m@) == project_markers(),
            all == ancestors(start@),
            0 <= k < all.len(),
            all.subrange(k, all.len() as int) == ancestors(cur@),
            forall|i: int| 0 <= i < k ==> no_marker_in(present, #[trigger] all[i]),
        decreases cur@.len(),
    {
        let mut j: usize = 0;
        while j < markers.len()
            invariant
                forall|s: &str| #[trigger] present.requires((s,)),
                markers@.map_values(|m: &'static str| m@) == project_markers(),
                j <= markers@.len(),
                all == ancestors(start@),
                0 <= k < all.len(),
                all.subrange(k, all.len() as int) == ancestors(cur@),
                forall|i: int| 0 <= i < k ==> no_marker_in(present, #[trigger] all[i]),
                forall|i: int| 0 <= i < j ==> probed(present, #[trigger] joined(cur@, project_markers()[i]), false),
            decreases markers.len() - j,
        {
            assert(markers@.map_values(|m: &'static str| m@)[j as int] == markers@[j as int]@);
            let candidate = join_paths(cur.as_str(), markers[j]);
            let found = present(candidate.as_str());
            if found {
                proof {
                    assert(probed(present, joined(cur@, project_markers()[j as int]), true));
                    assert(ancestors(cur@)[0] == cur@);
                    assert(all.subrange(k, all.len() as int)[0] == all[k]);
                    assert(ancestors(start@)[k] == cur@);
                    assert(root_found(present, start@, cur@));
                }
                return Some(cur);
            }
            assert(probed(present, joined(cur@, project_markers()[j as int]), false));
            j = j + 1;
        }
        proof {
            assert(ancestors(cur@)[0] == cur@);
            assert(all.subrange(k, all.len() as int)[0] == all[k]);
            assert(no_marker_in(present, all[k]));
        }
        match parent_of(cur.as_str()) {
            Some(q) => {
                proof {
                    assert(ancestors(cur@) == seq![cur@] + ancestors(q@));
                    assert(all.subrange(k + 1, all.len() as int) =~= all.subrange(k, all.len() as int).drop_first());
                    assert(ancestors(cur@).drop_first() =~= ancestors(q@));
                    k = k + 1;
                }
                cur = q;
            },
            None => {
                proof {
                    assert(ancestors(cur@) == seq![cur@]);
                    assert(all.len() == k + 1);
                }
                return None;
            },
        }
    }
}

} // verus!
