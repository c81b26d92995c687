//! Skills hub: skill files with YAML front matter, the registry of
//! installed skills, the hub's addresses and catalog, and the checks made
//! on an address before a skill is fetched from it. Fetching, resolving
//! host names and touching the disk happen at the caller.

use vstd::prelude::*;
use crate::skin_engine::strip_leading;
use crate::text::{
    chars_of, first_occurrence, lines, lines_of, opt_view, owned, push_str, split_char, split_on,
    starts_with, str_starts_with, string_of, strip_prefix_all, strip_prefixes, strip_trailing, trim,
    trim_end_char, trim_start_char, trim_str, views, find,
};

verus! {

/// What a skill needs before it runs.
pub struct Prerequisites {
    pub env_vars: Option<Vec<String>>,
    pub commands: Option<Vec<String>>,
}

/// A skill's front matter. Its free-form `metadata` is kept as JSON text.
pub struct SkillMetadata {
    pub name: String,
    pub description: String,
    pub version: Option<String>,
    pub license: Option<String>,
    pub platforms: Option<Vec<String>>,
    pub prerequisites: Option<Prerequisites>,
    pub compatibility: Option<String>,
    pub metadata: Option<String>,
}

/// A skill file cut into its front matter (the text between the opening
/// `---` and the next `---`, closing dashes included) and its trimmed
/// body; a file with no front matter is all body.
pub open spec fn frontmatter_split(content: Seq<char>) -> (Seq<char>, Seq<char>) {
    if starts_with(content, "---"@) {
        let rest = content.subrange(3, content.len() as int);
        match first_occurrence(rest, "---"@) {
            Some(e) => (rest.subrange(0, e + 3), trim(rest.subrange(e + 3, rest.len() as int))),
            None => (Seq::empty(), content),
        }
    } else {
        (Seq::empty(), content)
    }
}

fn sub_string(v: &Vec<char>, a: usize, b: usize) -> (r: String)
    requires
        a <= b <= v@.len(),
    ensures
        r@ == v@.subrange(a as int, b as int),
{
    let mut out: Vec<char> = Vec::new();
    let mut i = a;
    while i < b
        invariant
            a <= i <= b <= v@.len(),
            out@ == v@.subrange(a as int, i as int),
        decreases b - i,
    {
        out.push(v[i]);
        i = i + 1;
    }
    string_of(out.as_slice())
}

/// The front matter and the body of a skill file.
pub fn extract_frontmatter(content: &str) -> (r: (String, String))
    ensures
        (r.0@, r.1@) == frontmatter_split(content@),
{
    if str_starts_with(content, "---") {
        let v = chars_of(content);
        proof {
            reveal_strlit("---");
        }
        let rest = sub_string(&v, 3, v.len());
        let rv = chars_of(rest.as_str());
        let dashes = chars_of("---");
        match find(rv.as_slice(), dashes.as_slice()) {
            Some(e) => {
                proof {
                    crate::text::lemma_first_occurrence(rv@, dashes@);
                }
                let fm = sub_string(&rv, 0, e + 3);
                let body = sub_string(&rv, e + 3, rv.len());
                let b = trim_str(body.as_str());
                return (fm, b);
            },
            None => {},
        }
    }
    (String::new(), owned(content))
}

/// A bracket, as front matter lists are written.
pub open spec fn is_bracket(c: char) -> bool {
    c == '[' || c == ']'
}

/// `s` without its leading brackets.
pub open spec fn trim_start_brackets(s: Seq<char>) -> Seq<char>
    decreases s.len(),
{
    if s.len() > 0 && is_bracket(s[0]) {
        trim_start_brackets(s.drop_first())
    } else {
        s
    }
}

/// `s` without its trailing brackets.
pub open spec fn trim_end_brackets(s: Seq<char>) -> Seq<char>
    decreases s.len(),
{
    if s.len() > 0 && is_bracket(s.last()) {
        trim_end_brackets(s.drop_last())
    } else {
        s
    }
}

fn strip_brackets(s: &str) -> (r: String)
    ensures
        r@ == trim_end_brackets(trim_start_brackets(s@)),
{
    let v = chars_of(s);
    let mut i: usize = 0;
    assert(v@.subrange(0, v@.len() as int) =~= v@);
    while i < v.len() && (v[i] == '[' || v[i] == ']')
        invariant
            i <= v@.len(),
            v@ == s@,
            trim_start_brackets(s@) == trim_start_brackets(v@.subrange(i as int, v@.len() as int)),
        decreases v.len() - i,
    {
        proof {
            let t = v@.subrange(i as int, v@.len() as int);
            assert(t.drop_first() =~= v@.subrange(i + 1, v@.len() as int));
        }
        i = i + 1;
    }
    proof {
        let t = v@.subrange(i as int, v@.len() as int);
        if t.len() > 0 {
            assert(t[0] == v@[i as int]);
        }
    }
    let mut n: usize = v.len();
    let ghost t0 = v@.subrange(i as int, v@.len() as int);
    assert(v@.subrange(i as int, n as int) =~= t0);
    while n > i && (v[n - 1] == '[' || v[n - 1] == ']')
        invariant
            i <= n <= v@.len(),
            t0 == v@.subrange(i as int, v@.len() as int),
            trim_end_brackets(t0) == trim_end_brackets(v@.subrange(i as int, n as int)),
        decreases n,
    {
        proof {
            let t = v@.subrange(i as int, n as int);
            assert(t.drop_last() =~= v@.subrange(i as int, n - 1));
        }
        n = n - 1;
    }
    proof {
        let t = v@.subrange(i as int, n as int);
        if t.len() > 0 {
            assert(t.last() == v@[n - 1]);
        }
    }
    sub_string(&v, i, n)
}

/// The fields read from front matter so far.
pub struct FrontFields {
    pub name: Seq<char>,
    pub description: Seq<char>,
    pub version: Option<Seq<char>>,
    pub license: Option<Seq<char>>,
    pub platforms: Option<Seq<Seq<char>>>,
}

/// The value after a key on a trimmed line.
pub open spec fn field_value(line: Seq<char>, key: Seq<char>) -> Seq<char> {
    trim(strip_prefix_all(line, key))
}

/// One listed platform, trimmed and unquoted.
pub open spec fn platform_item(p: Seq<char>) -> Seq<char> {
    trim_end_char(trim_start_char(trim(p), '"'), '"')
}

/// The platforms a `platforms:` line lists: what follows the key, without
/// its outer brackets, split at commas.
pub open spec fn platforms_of(line: Seq<char>) -> Seq<Seq<char>> {
    split_char(trim_end_brackets(trim_start_brackets(strip_prefix_all(line, "platforms:"@))), ',').map_values(
        |p: Seq<char>| platform_item(p),
    )
}

/// The fields after one more front matter line: a line that starts with a
/// known key sets that field.
pub open spec fn read_field(st: FrontFields, raw: Seq<char>) -> FrontFields {
    let line = trim(raw);
    if starts_with(line, "name:"@) {
        FrontFields { name: field_value(line, "name:"@), ..st }
    } else if starts_with(line, "description:"@) {
        FrontFields { description: field_value(line, "description:"@), ..st }
    } else if starts_with(line, "version:"@) {
        FrontFields { version: Some(field_value(line, "version:"@)), ..st }
    } else if starts_with(line, "license:"@) {
        FrontFields { license: Some(field_value(line, "license:"@)), ..st }
    } else if starts_with(line, "platforms:"@) {
        FrontFields { platforms: Some(platforms_of(line)), ..st }
    } else {
        st
    }
}

/// The fields of the front matter lines `ls`.
pub open spec fn read_fields(ls: Seq<Seq<char>>) -> FrontFields
    decreases ls.len(),
{
    if ls.len() == 0 {
        FrontFields { name: Seq::empty(), description: Seq::empty(), version: None, license: None, platforms: None }
    } else {
        read_field(read_fields(ls.drop_last()), ls.last())
    }
}

/// The fields of front matter: its lines after the first.
pub open spec fn frontmatter_fields(fm: Seq<char>) -> FrontFields {
    let ls = lines(fm);
    read_fields(if ls.len() == 0 { ls } else { ls.subrange(1, ls.len() as int) })
}

/// A list of strings as values, if there is one.
pub open spec fn opt_views(o: Option<Vec<String>>) -> Option<Seq<Seq<char>>> {
    match o {
        Some(v) => Some(views(v@)),
        None => None,
    }
}

fn platform_list(line: &str) -> (r: Vec<String>)
    ensures
        views(r@) == platforms_of(line@),
{
    proof {
        reveal_strlit("platforms:");
    }
    let a = strip_prefixes(line, "platforms:");
    let b = strip_brackets(a.as_str());
    let parts = split_on(b.as_str(), ',');
    let mut out: Vec<String> = Vec::new();
    let mut i: usize = 0;
    while i < parts.len()
        invariant
            i <= parts@.len(),
            views(parts@) == split_char(b@, ','),
            views(out@) == views(parts@).subrange(0, i as int).map_values(|p: Seq<char>| platform_item(p)),
        decreases parts.len() - i,
    {
        let t = trim_str(parts[i].as_str());
        let u = strip_leading(t.as_str(), '"');
        let w = strip_trailing(u.as_str(), '"');
        let ghost before = views(out@);
        out.push(w);
        proof {
            assert(views(parts@)[i as int] == parts@[i as int]@);
            assert(views(out@) =~= before.push(platform_item(views(parts@)[i as int])));
            assert(views(parts@).subrange(0, i + 1).map_values(|p: Seq<char>| platform_item(p)) =~= views(
                parts@,
            ).subrange(0, i as int).map_values(|p: Seq<char>| platform_item(p)).push(
                platform_item(views(parts@)[i as int]),
            ));
        }
        i = i + 1;
    }
    assert(views(parts@).subrange(0, parts@.len() as int) =~= views(parts@));
    out
}

fn value_after(line: &str, key: &str) -> (r: String)
    requires
        key@.len() > 0,
    ensures
        r@ == field_value(line@, key@),
{
    let a = strip_prefixes(line, key);
    trim_str(a.as_str())
}

/// The metadata that front matter gives: name (`unknown` when missing),
/// description, version, license and platforms from their lines.
pub fn parse_frontmatter(frontmatter: &str) -> (r: Result<SkillMetadata, String>)
    ensures
        r matches Ok(m) && {
            let f = frontmatter_fields(frontmatter@);
            &&& m.name@ == (if f.name.len() == 0 { "unknown"@ } else { f.name })
            &&& m.description@ == f.description
            &&& opt_view(m.version) == f.version
            &&& opt_view(m.license) == f.license
            &&& opt_views(m.platforms) == f.platforms
            &&& m.prerequisites is None && m.compatibility is None && m.metadata is None
        },
{
    proof {
        reveal_strlit("name:");
        reveal_strlit("description:");
        reveal_strlit("version:");
        reveal_strlit("license:");
        reveal_strlit("platforms:");
    }
    let ls = lines_of(frontmatter);
    let mut name = String::new();
    let mut description = String::new();
    let mut version: Option<String> = None;
    let mut license: Option<String> = None;
    let mut platforms: Option<Vec<String>> = None;
    let ghost all = views(ls@);
    let ghost body = if all.len() == 0 { all } else { all.subrange(1, all.len() as int) };
    let mut i: usize = 1;
    assert(body.subrange(0, 0) =~= Seq::<Seq<char>>::empty());
    while i < ls.len()
        invariant
            all == views(ls@),
            all == lines(frontmatter@),
            body == (if all.len() == 0 { all } else { all.subrange(1, all.len() as int) }),
            1 <= i,
            i <= ls@.len() || ls@.len() == 0,
            ls@.len() > 0 ==> read_fields(body.subrange(0, i - 1)) == (FrontFields {
                name: name@,
                description: description@,
                version: opt_view(version),
                license: opt_view(license),
                platforms: opt_views(platforms),
            }),
            ls@.len() == 0 ==> name@.len() == 0 && description@.len() == 0 && version is None && license is None
                && platforms is None,
        decreases ls.len() - i,
    {
        proof {
            reveal_strlit("name:");
            reveal_strlit("description:");
            reveal_strlit("version:");
            reveal_strlit("license:");
            reveal_strlit("platforms:");
            let pre = body.subrange(0, i as int);
            assert(pre.drop_last() =~= body.subrange(0, i - 1));
            assert(pre.last() == ls@[i as int]@);
        }
        let line = trim_str(ls[i].as_str());
        if str_starts_with(line.as_str(), "name:") {
            name = value_after(line.as_str(), "name:");
        } else if str_starts_with(line.as_str(), "description:") {
            description = value_after(line.as_str(), "description:");
        } else if str_starts_with(line.as_str(), "version:") {
            version = Some(value_after(line.as_str(), "version:"));
        } else if str_starts_with(line.as_str(), "license:") {
            license = Some(value_after(line.as_str(), "license:"));
        } else if str_starts_with(line.as_str(), "platforms:") {
            platforms = Some(platform_list(line.as_str()));
        }
        i = i + 1;
    }
    proof {
        if ls@.len() > 0 {
            assert(body.subrange(0, ls@.len() - 1) =~= body);
        } else {
            assert(read_fields(body) == FrontFields {
                name: Seq::empty(),
                description: Seq::empty(),
                version: None,
                license: None,
                platforms: None,
            });
        }
    }
    let n = if name.as_str().is_empty() {
        owned("unknown")
    } else {
        name
    };
    Ok(
        SkillMetadata {
            name: n,
            description,
            version,
            license,
            platforms,
            prerequisites: None,
            compatibility: None,
            metadata: None,
        },
    )
}

/// An installed skill.
pub struct InstalledSkill {
    pub path: String,
    pub metadata: SkillMetadata,
    pub content: String,
    pub installed_at: String,
}

/// The installed skills, by name, and the directory they live in.
pub struct SkillsHub {
    base_dir: String,
    registry: Vec<InstalledSkill>,
}

/// Whether a skill is named `name`.
pub open spec fn named(name: Seq<char>) -> spec_fn(InstalledSkill) -> bool {
    |s: InstalledSkill| s.metadata.name@ == name
}

/// The position of the skill named `name`, if any.
pub open spec fn position_of(ss: Seq<InstalledSkill>, name: Seq<char>) -> Option<int> {
    crate::text::first_index(ss, named(name), 0)
}

/// The skills of `ss` whose lower-cased name or description contains `q`,
/// in order.
pub open spec fn matching(ss: Seq<InstalledSkill>, q: Seq<char>) -> Seq<InstalledSkill>
    decreases ss.len(),
{
    if ss.len() == 0 {
        Seq::empty()
    } else {
        let s = ss.last();
        matching(ss.drop_last(), q) + if crate::text::contains_seq(crate::text::lowercase_of(s.metadata.name@), q)
            || crate::text::contains_seq(crate::text::lowercase_of(s.metadata.description@), q) {
            seq![s]
        } else {
            Seq::empty()
        }
    }
}

impl SkillsHub {
    /// The installed skills, in the order they were first registered.
    pub closed spec fn skills_spec(&self) -> Seq<InstalledSkill> {
        self.registry@
    }

    /// The directory skills live in.
    pub closed spec fn base_dir_spec(&self) -> Seq<char> {
        self.base_dir@
    }

    /// A hub over `base_dir` with nothing registered yet.
    pub fn new(base_dir: &str) -> (r: Self)
        ensures
            r.skills_spec().len() == 0,
            r.base_dir_spec() == base_dir@,
    {
        SkillsHub { base_dir: owned(base_dir), registry: Vec::new() }
    }

    /// The directory skills live in.
    pub fn base_dir(&self) -> (r: &str)
        ensures
            r@ == self.base_dir_spec(),
    {
        self.base_dir.as_str()
    }

    fn index_of(&self, name: &str) -> (r: Option<usize>)
        ensures
            match r {
                Some(i) => position_of(self.skills_spec(), name@) == Some(i as int) && i < self.skills_spec().len(),
                None => position_of(self.skills_spec(), name@) is None,
            },
    {
        proof {
            crate::text::lemma_first_index(self.registry@, named(name@), 0);
        }
        let mut i: usize = 0;
        while i < self.registry.len()
            invariant
                i <= self.registry@.len(),
                position_of(self.registry@, name@) == crate::text::first_index(self.registry@, named(name@), i as int),
            decreases self.registry.len() - i,
        {
            if crate::text::str_eq(self.registry[i].metadata.name.as_str(), name) {
                return Some(i);
            }
            i = i + 1;
        }
        None
    }

    /// Registers `skill` under its name: it replaces a skill of that name,
    /// else it comes last.
    pub fn register(&mut self, skill: InstalledSkill)
        ensures
            match position_of(old(self).skills_spec(), skill.metadata.name@) {
                Some(i) => final(self).skills_spec() == old(self).skills_spec().update(i, skill),
                None => final(self).skills_spec() == old(self).skills_spec().push(skill),
            },
            final(self).base_dir_spec() == old(self).base_dir_spec(),
    {
        match self.index_of(skill.metadata.name.as_str()) {
            Some(i) => {
                self.registry.set(i, skill);
            },
            None => {
                self.registry.push(skill);
            },
        }
    }

    /// The skill named `name`.
    pub fn get(&self, name: &str) -> (r: Option<&InstalledSkill>)
        ensures
            match position_of(self.skills_spec(), name@) {
                Some(i) => r == Some(&self.skills_spec()[i]),
                None => r is None,
            },
    {
        match self.index_of(name) {
            Some(i) => Some(&self.registry[i]),
            None => None,
        }
    }

    /// The body of the skill named `name`.
    pub fn get_content(&self, name: &str) -> (r: Option<String>)
        ensures
            match position_of(self.skills_spec(), name@) {
                Some(i) => r == Some(self.skills_spec()[i].content),
                None => r is None,
            },
    {
        match self.index_of(name) {
            Some(i) => Some(self.registry[i].content.clone()),
            None => None,
        }
    }

    /// Every installed skill.
    pub fn list(&self) -> (r: Vec<&InstalledSkill>)
        ensures
            r@.len() == self.skills_spec().len(),
            forall|i: int| 0 <= i < r@.len() ==> *r@[i] == #[trigger] self.skills_spec()[i],
    {
        let mut r: Vec<&InstalledSkill> = Vec::new();
        let mut i: usize = 0;
        while i < self.registry.len()
            invariant
                i <= self.registry@.len(),
                r@.len() == i,
                forall|k: int| 0 <= k < i ==> *r@[k] == #[trigger] self.registry@[k],
            decreases self.registry.len() - i,
        {
            r.push(&self.registry[i]);
            i = i + 1;
        }
        r
    }

    /// The skills whose lower-cased name or description contains the
    /// lower-cased query, in order.
    pub fn search(&self, query: &str) -> (r: Vec<&InstalledSkill>)
        ensures
            r@.len() == matching(self.skills_spec(), crate::text::lowercase_of(query@)).len(),
            forall|i: int|
                0 <= i < r@.len() ==> *r@[i] == #[trigger] matching(
                    self.skills_spec(),
                    crate::text::lowercase_of(query@),
                )[i],
    {
        let q = crate::text::to_lowercase(query);
        let ghost ss = self.registry@;
        let mut r: Vec<&InstalledSkill> = Vec::new();
        let mut i: usize = 0;
        while i < self.registry.len()
            invariant
                i <= ss.len(),
                ss == self.registry@,
                q@ == crate::text::lowercase_of(query@),
                r@.len() == matching(ss.subrange(0, i as int), q@).len(),
                forall|k: int| 0 <= k < r@.len() ==> *r@[k] == #[trigger] matching(ss.subrange(0, i as int), q@)[k],
            decreases self.registry.len() - i,
        {
            proof {
                let pre = ss.subrange(0, i + 1);
                assert(pre.drop_last() =~= ss.subrange(0, i as int));
                assert(pre.last() == ss[i as int]);
            }
            let s = &self.registry[i];
            let n = crate::text::to_lowercase(s.metadata.name.as_str());
            let d = crate::text::to_lowercase(s.metadata.description.as_str());
            if crate::text::str_contains(n.as_str(), q.as_str()) || crate::text::str_contains(d.as_str(), q.as_str()) {
                r.push(s);
            }
            i = i + 1;
        }
        assert(ss.subrange(0, ss.len() as int) =~= ss);
        r
    }

    /// Unregisters the skill named `name` and returns it, so that its files
    /// can be removed; `None`, and nothing changed, when there is none.
    pub fn uninstall(&mut self, name: &str) -> (r: Option<InstalledSkill>)
        ensures
            match position_of(old(self).skills_spec(), name@) {
                Some(i) => r == Some(old(self).skills_spec()[i]) && final(self).skills_spec()
                    == old(self).skills_spec().remove(i),
                None => r is None && final(self).skills_spec() == old(self).skills_spec(),
            },
            final(self).base_dir_spec() == old(self).base_dir_spec(),
    {
        match self.index_of(name) {
            Some(i) => Some(self.registry.remove(i)),
            None => None,
        }
    }
}

/// The category the `hermes.category` entry of a skill's JSON metadata
/// names, if the text parses and names one.
pub uninterp spec fn json_hermes_category(text: Seq<char>) -> Option<Seq<char>>;

/// `serde_json::from_str::<Value>(text)`, then the string at
/// `hermes.category`, if the text parses and holds one.
#[verifier::external_body]
fn hermes_category(text: &str) -> (r: Option<String>)
    ensures
        opt_view(r) == json_hermes_category(text@),
{
    match serde_json::from_str::<serde_json::Value>(text) {
        Ok(v) => v.get("hermes").and_then(|h| h.get("category")).and_then(|c| c.as_str()).map(|c| c.to_string()),
        Err(_) => None,
    }
}

/// The category a skill is listed under: its metadata's, else `general`.
pub open spec fn category_of(s: InstalledSkill) -> Seq<char> {
    match s.metadata.metadata {
        Some(t) => match json_hermes_category(t@) {
            Some(c) => c,
            None => "general"@,
        },
        None => "general"@,
    }
}

fn category_text(s: &InstalledSkill) -> (r: String)
    ensures
        r@ == category_of(*s),
{
    match &s.metadata.metadata {
        Some(t) => match hermes_category(t.as_str()) {
            Some(c) => c,
            None => owned("general"),
        },
        None => owned("general"),
    }
}

/// The listing lines of the skills whose category (by `cats`) is `c`.
pub open spec fn hub_lines(ss: Seq<InstalledSkill>, cats: Seq<Seq<char>>, c: Seq<char>) -> Seq<char>
    decreases ss.len(),
{
    if ss.len() == 0 || cats.len() < ss.len() {
        Seq::empty()
    } else {
        hub_lines(ss.drop_last(), cats.subrange(0, ss.len() - 1), c) + if cats[ss.len() - 1] == c {
            "- **"@ + ss.last().metadata.name@ + "** - "@ + ss.last().metadata.description@ + "\n"@
        } else {
            Seq::empty()
        }
    }
}

/// The blocks of the categories that first appear among the first `n`
/// skills, in that order: a heading, the skills' lines, a blank line.
pub open spec fn hub_blocks(ss: Seq<InstalledSkill>, cats: Seq<Seq<char>>, n: int) -> Seq<char>
    decreases n,
{
    if n <= 0 {
        Seq::empty()
    } else {
        hub_blocks(ss, cats, n - 1) + if forall|j: int| 0 <= j < n - 1 ==> #[trigger] cats[j] != cats[n - 1] {
            "## "@ + cats[n - 1] + "\n\n"@ + hub_lines(ss, cats, cats[n - 1]) + "\n"@
        } else {
            Seq::empty()
        }
    }
}

/// The categories of the skills, in order.
pub open spec fn categories(ss: Seq<InstalledSkill>) -> Seq<Seq<char>> {
    ss.map_values(|s: InstalledSkill| category_of(s))
}

/// The Markdown listing of the skills, grouped by category in the order
/// the categories first appear.
pub open spec fn hub_markdown(ss: Seq<InstalledSkill>) -> Seq<char> {
    "# Available Skills\n\n"@ + hub_blocks(ss, categories(ss), ss.len() as int)
}

fn push_hub_lines(md: &mut String, ss: &Vec<InstalledSkill>, cats: &Vec<String>, c: &str)
    requires
        views(cats@) == categories(ss@),
    ensures
        final(md)@ == old(md)@ + hub_lines(ss@, categories(ss@), c@),
{
    let ghost start = md@;
    let ghost cs = categories(ss@);
    assert(views(cats@).len() == cats@.len());
    let mut i: usize = 0;
    while i < ss.len()
        invariant
            i <= ss@.len(),
            cs == categories(ss@),
            views(cats@) == cs,
            cats@.len() == ss@.len(),
            md@ == start + hub_lines(ss@.subrange(0, i as int), cs.subrange(0, i as int), c@),
        decreases ss.len() - i,
    {
        proof {
            let pre = ss@.subrange(0, i + 1);
            assert(pre.drop_last() =~= ss@.subrange(0, i as int));
            assert(cs.subrange(0, i + 1).subrange(0, i as int) =~= cs.subrange(0, i as int));
            assert(views(cats@)[i as int] == cats@[i as int]@);
        }
        if crate::text::str_eq(cats[i].as_str(), c) {
            push_str(md, "- **");
            push_str(md, ss[i].metadata.name.as_str());
            push_str(md, "** - ");
            push_str(md, ss[i].metadata.description.as_str());
            push_str(md, "\n");
        }
        i = i + 1;
    }
    assert(ss@.subrange(0, ss@.len() as int) =~= ss@);
    assert(cs.subrange(0, ss@.len() as int) =~= cs);
}

impl SkillsHub {
    /// The installed skills as Markdown, grouped by category.
    pub fn format_list(&self) -> (r: String)
        ensures
            r@ == hub_markdown(self.skills_spec()),
    {
        let ghost ss = self.registry@;
        let mut cats: Vec<String> = Vec::new();
        let mut k: usize = 0;
        while k < self.registry.len()
            invariant
                k <= ss.len(),
                ss == self.registry@,
                views(cats@) == categories(ss).subrange(0, k as int),
            decreases self.registry.len() - k,
        {
            let c = category_text(&self.registry[k]);
            let ghost before = views(cats@);
            cats.push(c);
            assert(categories(ss)[k as int] == category_of(ss[k as int]));
            assert(views(cats@) =~= before.push(c@));
            assert(categories(ss).subrange(0, k + 1) =~= categories(ss).subrange(0, k as int).push(
                categories(ss)[k as int],
            ));
            k = k + 1;
        }
        assert(categories(ss).subrange(0, ss.len() as int) =~= categories(ss));
        let ghost cs = categories(ss);
        let mut md = owned("# Available Skills\n\n");
        let mut i: usize = 0;
        while i < self.registry.len()
            invariant
                i <= ss.len(),
                ss == self.registry@,
                cs == categories(ss),
                views(cats@) == cs,
                md@ == "# Available Skills\n\n"@ + hub_blocks(ss, cs, i as int),
            decreases self.registry.len() - i,
        {
            let mut seen = false;
            let mut j: usize = 0;
            while j < i
                invariant
                    j <= i < ss.len(),
                    views(cats@) == cs,
                    cs.len() == ss.len(),
                    seen == exists|m: int| 0 <= m < j && cs[m] == cs[i as int],
                decreases i - j,
            {
                assert(cats@[j as int]@ == cs[j as int] && cats@[i as int]@ == cs[i as int]);
                if crate::text::str_eq(cats[j].as_str(), cats[i].as_str()) {
                    seen = true;
                }
                proof {
                    if !seen {
                        assert forall|m: int| 0 <= m < j + 1 implies cs[m] != cs[i as int] by {
                            if m < j {
                            }
                        }
                    }
                }
                j = j + 1;
            }
            assert(cats@[i as int]@ == cs[i as int]);
            if !seen {
                push_str(&mut md, "## ");
                push_str(&mut md, cats[i].as_str());
                push_str(&mut md, "\n\n");
                push_hub_lines(&mut md, &self.registry, &cats, cats[i].as_str());
                push_str(&mut md, "\n");
            }
            proof {
                if seen {
                    let m = choose|m: int| 0 <= m < i && cs[m] == cs[i as int];
                    assert(!(forall|j: int| 0 <= j < i ==> cs[j] != cs[i as int]));
                }
                assert(md@ =~= "# Available Skills\n\n"@ + hub_blocks(ss, cs, i + 1));
            }
            i = i + 1;
        }
        md
    }
}

/// The name a skill fetched from `url` is installed under: the last part
/// of the address, without its trailing `.md`s.
pub open spec fn skill_name_from_url_spec(url: Seq<char>) -> Seq<char> {
    strip_md_suffix(split_char(url, '/').last())
}

/// `s` without every trailing `.md` (`trim_end_matches(".md")`).
pub open spec fn strip_md_suffix(s: Seq<char>) -> Seq<char>
    decreases s.len(),
{
    if crate::text::ends_with(s, ".md"@) && s.len() >= 3 {
        strip_md_suffix(s.subrange(0, s.len() - 3))
    } else {
        s
    }
}

/// The name a skill fetched from `url` is installed under.
pub fn skill_name_from_url(url: &str) -> (r: String)
    ensures
        r@ == skill_name_from_url_spec(url@),
{
    proof {
        reveal_strlit(".md");
    }
    let parts = split_on(url, '/');
    assert(views(parts@).len() == parts@.len());
    assert(views(parts@).last() == parts@[parts@.len() - 1]@);
    let last = parts[parts.len() - 1].as_str();
    let v = chars_of(last);
    let mut n: usize = v.len();
    assert(v@.subrange(0, v@.len() as int) =~= v@);
    while n >= 3 && v[n - 3] == '.' && v[n - 2] == 'm' && v[n - 1] == 'd'
        invariant
            n <= v@.len(),
            v@ == last@,
            ".md"@ == seq!['.', 'm', 'd'],
            strip_md_suffix(last@) == strip_md_suffix(v@.subrange(0, n as int)),
        decreases n,
    {
        proof {
            let t = v@.subrange(0, n as int);
            assert(t.subrange(t.len() - 3, t.len() as int) =~= ".md"@);
            assert(t.subrange(0, t.len() - 3) =~= v@.subrange(0, n - 3));
        }
        n = n - 3;
    }
    proof {
        let t = v@.subrange(0, n as int);
        if crate::text::ends_with(t, ".md"@) && t.len() >= 3 {
            assert(t.subrange(t.len() - 3, t.len() as int)[0] == v@[n - 3]);
            assert(t.subrange(t.len() - 3, t.len() as int)[1] == v@[n - 2]);
            assert(t.subrange(t.len() - 3, t.len() as int)[2] == v@[n - 1]);
        }
    }
    sub_string(&v, 0, n)
}

/// The address of a skill on the hub.
pub fn hub_skill_url(skill_name: &str) -> (r: String)
    ensures
        r@ == "https://agentskills.io/skills/"@ + skill_name@ + "/SKILL.md"@,
{
    let mut s = owned("https://agentskills.io/skills/");
    push_str(&mut s, skill_name);
    push_str(&mut s, "/SKILL.md");
    s
}

/// The scheme, host and port of an address, if `url` parses it.
pub uninterp spec fn parsed_url(text: Seq<char>) -> Option<(Seq<char>, Option<Seq<char>>, Option<u16>)>;

/// `url::Url::parse(text)`, then its `scheme()`, `host_str()` and
/// `port()`; on failure the parse error's message, of which nothing is
/// stated here.
#[verifier::external_body]
fn parse_url(text: &str) -> (r: Result<(String, Option<String>, Option<u16>), String>)
    ensures
        match r {
            Ok((s, h, p)) => parsed_url(text@) == Some((s@, opt_view(h), p)),
            Err(_) => parsed_url(text@) is None,
        },
{
    match url::Url::parse(text) {
        Ok(u) => Ok((u.scheme().to_string(), u.host_str().map(|h| h.to_string()), u.port())),
        Err(e) => Err(e.to_string()),
    }
}

/// What an address to fetch a skill from may be: one that parses, with
/// scheme `http` or `https`. Its host and port (80 when none is given) are
/// what must then be resolved and checked.
pub open spec fn url_allowed(url: Seq<char>) -> Option<Seq<char>> {
    match parsed_url(url) {
        Some((s, _, _)) => if s == "https"@ || s == "http"@ {
            None
        } else {
            Some("URL scheme '"@ + s + "' is not allowed (only https/http permitted)"@)
        },
        None => None,
    }
}

/// Checks an address before a skill is fetched from it: it must parse and
/// use `http` or `https`. Gives the `host:port` to resolve, or `None`
/// when the address has no host.
pub fn validate_url(url: &str) -> (r: Result<Option<String>, String>)
    ensures
        parsed_url(url@) is None <==> (r is Err && url_allowed(url@) is None),
        match parsed_url(url@) {
            Some((s, h, p)) => match url_allowed(url@) {
                Some(e) => r matches Err(m) && m@ == e,
                None => r matches Ok(t) && opt_view(t) == (match h {
                    Some(host) => Some(
                        host + ":"@ + crate::text::decimal(
                            (match p {
                                Some(n) => n,
                                None => 80u16,
                            }) as nat,
                        ),
                    ),
                    None => None,
                }),
            },
            None => true,
        },
{
    let (scheme, host, port) = match parse_url(url) {
        Ok(parts) => parts,
        Err(e) => {
            return Err(e);
        },
    };
    if !(crate::text::str_eq(scheme.as_str(), "https") || crate::text::str_eq(scheme.as_str(), "http")) {
        let mut m = owned("URL scheme '");
        push_str(&mut m, scheme.as_str());
        push_str(&mut m, "' is not allowed (only https/http permitted)");
        return Err(m);
    }
    match host {
        Some(h) => {
            let mut t = h;
            push_str(&mut t, ":");
            let n: u16 = match port {
                Some(p) => p,
                None => 80,
            };
            let d = crate::text::u64_to_decimal(n as u64);
            push_str(&mut t, d.as_str());
            Ok(Some(t))
        },
        None => Ok(None),
    }
}

/// An address a host name resolved to.
pub enum IpAddress {
    V4(u8, u8, u8, u8),
    V6([u16; 8]),
}

/// Addresses inside this machine or a private network: IPv4 loopback,
/// private, link-local and unspecified addresses; IPv6 loopback and
/// unspecified addresses.
pub open spec fn is_internal_ip(ip: IpAddress) -> bool {
    match ip {
        IpAddress::V4(a, b, c, d) => a == 127 || a == 10 || (a == 172 && 16 <= b <= 31) || (a == 192 && b == 168)
            || (a == 169 && b == 254) || (a == 0 && b == 0 && c == 0 && d == 0),
        IpAddress::V6(s) => (forall|i: int| 0 <= i < 7 ==> s[i] == 0) && (s[7] == 0 || s[7] == 1),
    }
}

/// Whether an address is inside this machine or a private network.
pub fn internal_ip(ip: &IpAddress) -> (b: bool)
    ensures
        b == is_internal_ip(*ip),
{
    match ip {
        IpAddress::V4(a, b, c, d) => *a == 127 || *a == 10 || (*a == 172 && 16 <= *b && *b <= 31) || (*a == 192
            && *b == 168) || (*a == 169 && *b == 254) || (*a == 0 && *b == 0 && *c == 0 && *d == 0),
        IpAddress::V6(s) => {
            let mut i: usize = 0;
            while i < 7
                invariant
                    i <= 7,
                    *ip == IpAddress::V6(*s),
                    forall|k: int| 0 <= k < i ==> s[k] == 0,
                decreases 7 - i,
            {
                if s[i] != 0 {
                    assert(s[i as int] != 0);
                    return false;
                }
                i = i + 1;
            }
            s[7] == 0 || s[7] == 1
        },
    }
}

/// The first of the resolved addresses that is internal, if any.
pub open spec fn first_internal(ips: Seq<(IpAddress, String)>) -> Option<int> {
    crate::text::first_index(ips, |p: (IpAddress, String)| is_internal_ip(p.0), 0)
}

/// Checks the addresses `host` resolved to (each with its text): the
/// first internal one is refused.
pub fn check_resolved(host: &str, ips: &[(IpAddress, String)]) -> (r: Result<(), String>)
    ensures
        match first_internal(ips@) {
            Some(i) => r matches Err(m) && m@ == "URL host '"@ + host@ + "' resolves to internal IP range ("@
                + ips@[i].1@ + "), which is not permitted"@,
            None => r is Ok,
        },
{
    proof {
        crate::text::lemma_first_index(ips@, |p: (IpAddress, String)| is_internal_ip(p.0), 0);
    }
    let mut i: usize = 0;
    while i < ips.len()
        invariant
            i <= ips@.len(),
            first_internal(ips@) == crate::text::first_index(ips@, |p: (IpAddress, String)| is_internal_ip(p.0), i as int),
        decreases ips.len() - i,
    {
        if internal_ip(&ips[i].0) {
            let mut m = owned("URL host '");
            push_str(&mut m, host);
            push_str(&mut m, "' resolves to internal IP range (");
            push_str(&mut m, ips[i].1.as_str());
            push_str(&mut m, "), which is not permitted");
            return Err(m);
        }
        i = i + 1;
    }
    Ok(())
}

/// A skill listed in the hub's catalog.
pub struct CatalogEntry {
    pub name: Option<String>,
    pub description: Option<String>,
    pub category: Option<String>,
    pub downloads: Option<i64>,
}

/// The catalog line of an entry, with `unknown`, no description,
/// `general` and 0 for what it lacks.
pub open spec fn catalog_line(e: CatalogEntry) -> Seq<char> {
    "- **"@ + (match e.name {
        Some(n) => n@,
        None => "unknown"@,
    }) + "** ("@ + (match e.category {
        Some(c) => c@,
        None => "general"@,
    }) + ") - "@ + (match e.description {
        Some(d) => d@,
        None => Seq::empty(),
    }) + " ["@ + crate::text::signed_decimal(
        match e.downloads {
            Some(d) => d as int,
            None => 0,
        },
    ) + " downloads]\n"@
}

/// The lines of the entries.
pub open spec fn catalog_lines(es: Seq<CatalogEntry>) -> Seq<char>
    decreases es.len(),
{
    if es.len() == 0 {
        Seq::empty()
    } else {
        catalog_lines(es.drop_last()) + catalog_line(es.last())
    }
}

/// The hub's catalog as Markdown: at most its first 50 entries.
pub open spec fn catalog_markdown(es: Seq<CatalogEntry>) -> Seq<char> {
    "# Skills Hub - Available Skills\n\nBrowse and install skills from [agentskills.io](https://agentskills.io)\n\n"@
        + catalog_lines(if es.len() > 50 { es.subrange(0, 50) } else { es })
        + "\nInstall with: `/skills install <name>`\n"@
}

fn push_or(md: &mut String, v: &Option<String>, default: &str)
    ensures
        final(md)@ == old(md)@ + (match *v {
            Some(t) => t@,
            None => default@,
        }),
{
    match v {
        Some(t) => push_str(md, t.as_str()),
        None => push_str(md, default),
    }
}

fn push_catalog_line(md: &mut String, e: &CatalogEntry)
    ensures
        final(md)@ == old(md)@ + catalog_line(*e),
{
    push_str(md, "- **");
    push_or(md, &e.name, "unknown");
    push_str(md, "** (");
    push_or(md, &e.category, "general");
    push_str(md, ") - ");
    push_or(md, &e.description, "");
    push_str(md, " [");
    let d: i64 = match e.downloads {
        Some(x) => x,
        None => 0,
    };
    let ds = crate::text::i64_to_decimal(d);
    push_str(md, ds.as_str());
    push_str(md, " downloads]\n");
    proof {
        reveal_strlit("");
        assert(""@ =~= Seq::<char>::empty());
    }
    assert(md@ =~= old(md)@ + catalog_line(*e));
}

/// The hub's catalog as Markdown.
pub fn format_hub_catalog(entries: &[CatalogEntry]) -> (r: String)
    ensures
        r@ == catalog_markdown(entries@),
{
    let mut md = owned(
        "# Skills Hub - Available Skills\n\nBrowse and install skills from [agentskills.io](https://agentskills.io)\n\n",
    );
    let ghost head = md@;
    let n: usize = if entries.len() > 50 { 50 } else { entries.len() };
    let ghost es = if entries@.len() > 50 { entries@.subrange(0, 50) } else { entries@ };
    let mut i: usize = 0;
    while i < n
        invariant
            i <= n <= entries@.len(),
            n == es.len(),
            es == (if entries@.len() > 50 { entries@.subrange(0, 50) } else { entries@ }),
            md@ == head + catalog_lines(es.subrange(0, i as int)),
        decreases n - i,
    {
        proof {
            let pre = es.subrange(0, i + 1);
            assert(pre.drop_last() =~= es.subrange(0, i as int));
            assert(pre.last() == entries@[i as int]);
        }
        push_catalog_line(&mut md, &entries[i]);
        i = i + 1;
    }
    assert(es.subrange(0, n as int) =~= es);
    push_str(&mut md, "\nInstall with: `/skills install <name>`\n");
    md
}

/// A skill just registered is what a lookup by its name gives.
pub proof fn lemma_register_then_get(ss: Seq<InstalledSkill>, skill: InstalledSkill)
    ensures
        ({
            let after = match position_of(ss, skill.metadata.name@) {
                Some(i) => ss.update(i, skill),
                None => ss.push(skill),
            };
            match position_of(after, skill.metadata.name@) {
                Some(j) => after[j] == skill,
                None => false,
            }
        }),
{
    let name = skill.metadata.name@;
    crate::text::lemma_first_index(ss, named(name), 0);
    match position_of(ss, name) {
        Some(i) => {
            let after = ss.update(i, skill);
            assert forall|j: int| 0 <= j < i implies !(named(name))(after[j]) by {
                assert(after[j] == ss[j]);
            }
            lemma_first_index_at(after, named(name), i);
        },
        None => {
            let after = ss.push(skill);
            assert forall|j: int| 0 <= j < ss.len() implies !(named(name))(after[j]) by {
                assert(after[j] == ss[j]);
            }
            lemma_first_index_at(after, named(name), ss.len() as int);
        },
    }
}

proof fn lemma_first_index_at<T>(s: Seq<T>, p: spec_fn(T) -> bool, i: int)
    requires
        0 <= i < s.len(),
        p(s[i]),
        forall|j: int| 0 <= j < i ==> !p(s[j]),
    ensures
        crate::text::first_index(s, p, 0) == Some(i),
{
    crate::text::lemma_first_index(s, p, 0);
    let r = crate::text::first_index(s, p, 0);
    if r is None {
        assert(!p(s[i]));
    } else {
        let k = r->0;
        if k < i {
            assert(!p(s[k]));
        }
        if k > i {
            assert(!p(s[i]));
        }
    }
}

} // verus!
