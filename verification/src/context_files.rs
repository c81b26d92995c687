//! Project context files: the kinds of file, the loader's search
//! directories, the system prompt built from the files found, the files
//! changed since they were seen, the sections of a guidelines file, and
//! the templates for new files. Reading files and their times happens at
//! the caller.

use vstd::prelude::*;
use crate::skin_engine::strip_leading;
use crate::strmap::StringMap;
use crate::text::{
    lines, opt_view, owned, push_str, str_starts_with, starts_with, trim, trim_start_char, trim_str, views,
};

verus! {

/// The kind of a context file.
#[derive(Clone, Copy, Debug, PartialEq, Eq, Structural)]
pub enum ContextFileType {
    /// Multi-agent instructions.
    Agents,
    /// Project guidelines.
    Guidelines,
    /// Structured settings (JSON).
    Config,
    /// Local overrides of the guidelines.
    Local,
}

/// A context file that was read.
pub struct ContextFile {
    pub file_type: ContextFileType,
    pub path: String,
    pub content: String,
    pub loaded: bool,
}

/// Where context files are looked for: the current directory, then the
/// nearest enclosing directory that holds a repository.
pub struct ContextLoader {
    search_paths: Vec<String>,
}

impl ContextLoader {
    /// The directories searched, in order.
    pub closed spec fn paths_spec(&self) -> Seq<Seq<char>> {
        views(self.search_paths@)
    }

    /// A loader for `current_dir`; `repo_dir` is the nearest directory
    /// above it that holds a repository, where one was found.
    pub fn new(current_dir: &str, repo_dir: Option<&str>) -> (r: Self)
        ensures
            r.paths_spec() == (match crate::cron::str_opt_view(repo_dir) {
                Some(d) => seq![current_dir@, d],
                None => seq![current_dir@],
            }),
    {
        let mut v: Vec<String> = Vec::new();
        v.push(owned(current_dir));
        match repo_dir {
            Some(d) => v.push(owned(d)),
            None => {},
        }
        let r = ContextLoader { search_paths: v };
        assert(r.paths_spec() =~= (match crate::cron::str_opt_view(repo_dir) {
            Some(d) => seq![current_dir@, d],
            None => seq![current_dir@],
        }));
        r
    }

    /// The directories searched, in order.
    pub fn search_paths(&self) -> (r: &[String])
        ensures
            views(r@) == self.paths_spec(),
    {
        self.search_paths.as_slice()
    }

    /// The system prompt that the files found make: see `prompt_from`.
    pub fn build_system_prompt(&self, files: &[ContextFile]) -> (r: String)
        ensures
            r@ == prompt_from(files@),
    {
        build_prompt(files)
    }
}

/// The `"instructions"` text of a JSON settings file, if it parses as JSON
/// and holds a string there.
pub uninterp spec fn json_instructions(text: Seq<char>) -> Option<Seq<char>>;

/// `serde_json::from_str::<Value>(text)`, then the string at key
/// `instructions`, if the text parses and holds one.
#[verifier::external_body]
fn instructions_of(text: &str) -> (r: Option<String>)
    ensures
        opt_view(r) == json_instructions(text@),
{
    match serde_json::from_str::<serde_json::Value>(text) {
        Ok(v) => v.get("instructions").and_then(|i| i.as_str()).map(|s| s.to_string()),
        Err(_) => None,
    }
}

/// The prompt part of one file of kind `t`.
pub open spec fn file_part(f: ContextFile) -> Seq<char> {
    match f.file_type {
        ContextFileType::Agents => "\n## From AGENTS.md ("@ + f.path@ + ")\n\n"@ + trim(f.content@) + "\n"@,
        ContextFileType::Guidelines => "\n## Project Guidelines ("@ + f.path@ + ")\n\n"@ + trim(f.content@)
            + "\n"@,
        ContextFileType::Config => match json_instructions(f.content@) {
            Some(i) => "\n## Config Instructions\n\n"@ + i + "\n"@,
            None => Seq::empty(),
        },
        ContextFileType::Local => "\n## Local Overrides ("@ + f.path@ + ")\n\n"@ + trim(f.content@) + "\n"@,
    }
}

/// The prompt parts of the files of kind `t`, in order.
pub open spec fn parts_of_type(fs: Seq<ContextFile>, t: ContextFileType) -> Seq<char>
    decreases fs.len(),
{
    if fs.len() == 0 {
        Seq::empty()
    } else {
        parts_of_type(fs.drop_last(), t) + if fs.last().file_type == t {
            file_part(fs.last())
        } else {
            Seq::empty()
        }
    }
}

/// The system prompt of the files: agent instructions first, then the
/// guidelines, the settings' instructions, and the local overrides last.
pub open spec fn prompt_from(fs: Seq<ContextFile>) -> Seq<char> {
    parts_of_type(fs, ContextFileType::Agents) + parts_of_type(fs, ContextFileType::Guidelines)
        + parts_of_type(fs, ContextFileType::Config) + parts_of_type(fs, ContextFileType::Local)
}

fn push_part(s: &mut String, f: &ContextFile)
    ensures
        final(s)@ == old(s)@ + file_part(*f),
{
    match f.file_type {
        ContextFileType::Agents => {
            push_str(s, "\n## From AGENTS.md (");
            push_str(s, f.path.as_str());
            push_str(s, ")\n\n");
            let t = trim_str(f.content.as_str());
            push_str(s, t.as_str());
            push_str(s, "\n");
        },
        ContextFileType::Guidelines => {
            push_str(s, "\n## Project Guidelines (");
            push_str(s, f.path.as_str());
            push_str(s, ")\n\n");
            let t = trim_str(f.content.as_str());
            push_str(s, t.as_str());
            push_str(s, "\n");
        },
        ContextFileType::Config => {
            match instructions_of(f.content.as_str()) {
                Some(i) => {
                    push_str(s, "\n## Config Instructions\n\n");
                    push_str(s, i.as_str());
                    push_str(s, "\n");
                },
                None => {
                    assert(s@ =~= s@ + Seq::<char>::empty());
                },
            }
        },
        ContextFileType::Local => {
            push_str(s, "\n## Local Overrides (");
            push_str(s, f.path.as_str());
            push_str(s, ")\n\n");
            let t = trim_str(f.content.as_str());
            push_str(s, t.as_str());
            push_str(s, "\n");
        },
    }
}

fn push_parts_of_type(s: &mut String, files: &[ContextFile], t: ContextFileType)
    ensures
        final(s)@ == old(s)@ + parts_of_type(files@, t),
{
    let ghost start = s@;
    let mut i: usize = 0;
    while i < files.len()
        invariant
            i <= files@.len(),
            s@ == start + parts_of_type(files@.subrange(0, i as int), t),
        decreases files.len() - i,
    {
        proof {
            let pre = files@.subrange(0, i + 1);
            assert(pre.drop_last() =~= files@.subrange(0, i as int));
        }
        if files[i].file_type == t {
            push_part(s, &files[i]);
        } else {
            assert(s@ =~= s@ + Seq::<char>::empty());
        }
        i = i + 1;
    }
    assert(files@.subrange(0, files@.len() as int) =~= files@);
}

fn build_prompt(files: &[ContextFile]) -> (r: String)
    ensures
        r@ == prompt_from(files@),
{
    let mut s = String::new();
    push_parts_of_type(&mut s, files, ContextFileType::Agents);
    push_parts_of_type(&mut s, files, ContextFileType::Guidelines);
    push_parts_of_type(&mut s, files, ContextFileType::Config);
    push_parts_of_type(&mut s, files, ContextFileType::Local);
    assert(s@ =~= prompt_from(files@));
    s
}

/// The time known for `path`: the first entry of `known` for it.
pub open spec fn known_time(known: Seq<(Seq<char>, u64)>, path: Seq<char>) -> Option<u64>
    decreases known.len(),
{
    if known.len() == 0 {
        None
    } else if known[0].0 == path {
        Some(known[0].1)
    } else {
        known_time(known.drop_first(), path)
    }
}

/// The paths, in order, of the files whose times were read (`current`,
/// `None` where the file's time could not be read) and that have a known
/// time that differs from the current one.
pub open spec fn modified_paths(current: Seq<(Seq<char>, Option<u64>)>, known: Seq<(Seq<char>, u64)>) -> Seq<Seq<char>>
    decreases current.len(),
{
    if current.len() == 0 {
        Seq::empty()
    } else {
        let (p, t) = current.last();
        modified_paths(current.drop_last(), known) + match known_time(known, p) {
            Some(k) => if t != Some(k) {
                seq![p]
            } else {
                Seq::empty()
            },
            None => Seq::empty(),
        }
    }
}

/// Pairs of a path and a time, as values.
pub open spec fn timed(v: Seq<(String, u64)>) -> Seq<(Seq<char>, u64)> {
    v.map_values(|p: (String, u64)| (p.0@, p.1))
}

/// Pairs of a path and a time that may be missing, as values.
pub open spec fn maybe_timed(v: Seq<(String, Option<u64>)>) -> Seq<(Seq<char>, Option<u64>)> {
    v.map_values(|p: (String, Option<u64>)| (p.0@, p.1))
}

fn known_time_of(known: &[(String, u64)], path: &str) -> (r: Option<u64>)
    ensures
        r == known_time(timed(known@), path@),
{
    let mut i: usize = 0;
    assert(timed(known@).subrange(0, known@.len() as int) =~= timed(known@));
    while i < known.len()
        invariant
            i <= known@.len(),
            known_time(timed(known@), path@) == known_time(timed(known@).subrange(i as int, known@.len() as int), path@),
        decreases known.len() - i,
    {
        proof {
            let rest = timed(known@).subrange(i as int, known@.len() as int);
            assert(rest.drop_first() =~= timed(known@).subrange(i + 1, known@.len() as int));
            assert(rest[0] == (known@[i as int].0@, known@[i as int].1));
        }
        if crate::text::str_eq(known[i].0.as_str(), path) {
            return Some(known[i].1);
        }
        i = i + 1;
    }
    None
}

/// The files changed since their times were recorded in `known`.
pub fn check_modified(current: &[(String, Option<u64>)], known: &[(String, u64)]) -> (r: Vec<String>)
    ensures
        views(r@) == modified_paths(maybe_timed(current@), timed(known@)),
{
    let mut out: Vec<String> = Vec::new();
    let mut i: usize = 0;
    while i < current.len()
        invariant
            i <= current@.len(),
            views(out@) == modified_paths(maybe_timed(current@).subrange(0, i as int), timed(known@)),
        decreases current.len() - i,
    {
        proof {
            let pre = maybe_timed(current@).subrange(0, i + 1);
            assert(pre.drop_last() =~= maybe_timed(current@).subrange(0, i as int));
        }
        let ghost before = views(out@);
        match known_time_of(known, current[i].0.as_str()) {
            Some(k) => {
                let differs = match current[i].1 {
                    Some(t) => t != k,
                    None => true,
                };
                if differs {
                    out.push(owned(current[i].0.as_str()));
                    assert(views(out@) =~= before.push(current@[i as int].0@));
                }
            },
            None => {},
        }
        i = i + 1;
    }
    assert(maybe_timed(current@).subrange(0, current@.len() as int) =~= maybe_timed(current@));
    out
}

/// A line opens a section: it starts with `# ` or `## `.
pub open spec fn is_heading(line: Seq<char>) -> bool {
    starts_with(line, "## "@) || starts_with(line, "# "@)
}

/// Where a guidelines file has been read to: the sections done, the title
/// and the text of the section being read.
pub struct SectionScan {
    pub done: Map<Seq<char>, Seq<char>>,
    pub title: Seq<char>,
    pub body: Seq<char>,
}

/// The sections with the one being read added, when it has a title and
/// some text; a later section of the same title replaces an earlier one.
pub open spec fn close_section(st: SectionScan) -> Map<Seq<char>, Seq<char>> {
    if st.title.len() > 0 && trim(st.body).len() > 0 {
        st.done.insert(st.title, trim(st.body))
    } else {
        st.done
    }
}

/// The scan after the lines `ls`.
pub open spec fn scan_sections(ls: Seq<Seq<char>>) -> SectionScan
    decreases ls.len(),
{
    if ls.len() == 0 {
        SectionScan { done: Map::empty(), title: Seq::empty(), body: Seq::empty() }
    } else {
        let st = scan_sections(ls.drop_last());
        let line = ls.last();
        if is_heading(line) {
            SectionScan { done: close_section(st), title: trim(trim_start_char(line, '#')), body: Seq::empty() }
        } else {
            SectionScan { body: st.body + line + "\n"@, ..st }
        }
    }
}

/// The sections of a guidelines file: each heading's title, without its
/// `#`s, to the trimmed text under it.
pub open spec fn md_sections(content: Seq<char>) -> Map<Seq<char>, Seq<char>> {
    close_section(scan_sections(lines(content)))
}

fn close_into(sections: &mut StringMap, title: &String, body: &String)
    ensures
        final(sections).map_spec() == close_section(
            SectionScan { done: old(sections).map_spec(), title: title@, body: body@ },
        ),
{
    let t = trim_str(body.as_str());
    if !title.as_str().is_empty() && !t.as_str().is_empty() {
        sections.insert(title.as_str(), t.as_str());
    }
}

/// The sections of a guidelines file, title to text.
pub fn parse_guidelines_md(content: &str) -> (r: StringMap)
    ensures
        r.map_spec() == md_sections(content@),
{
    let ls = crate::text::lines_of(content);
    let mut sections = StringMap::new();
    let mut title = String::new();
    let mut body = String::new();
    let mut i: usize = 0;
    while i < ls.len()
        invariant
            i <= ls@.len(),
            views(ls@) == lines(content@),
            scan_sections(views(ls@).subrange(0, i as int)) == (SectionScan {
                done: sections.map_spec(),
                title: title@,
                body: body@,
            }),
        decreases ls.len() - i,
    {
        proof {
            let pre = views(ls@).subrange(0, i + 1);
            assert(pre.drop_last() =~= views(ls@).subrange(0, i as int));
            assert(pre.last() == ls@[i as int]@);
        }
        let line = ls[i].as_str();
        if str_starts_with(line, "## ") || str_starts_with(line, "# ") {
            close_into(&mut sections, &title, &body);
            let stripped = strip_leading(line, '#');
            title = trim_str(stripped.as_str());
            body = String::new();
        } else {
            push_str(&mut body, line);
            push_str(&mut body, "\n");
        }
        i = i + 1;
    }
    assert(views(ls@).subrange(0, ls@.len() as int) =~= views(ls@));
    close_into(&mut sections, &title, &body);
    sections
}

/// The template of a project guidelines file.
pub open spec fn guidelines_template(project_name: Seq<char>, project_type: Seq<char>) -> Seq<char> {
    "# "@ + project_name + " - Project Guidelines\n\n## Project Overview\nBrief description of this project.\n\n## Tech Stack\n- Language/Framework: "@
        + project_type
        + "\n- Key Dependencies: ...\n\n## Project Structure\n```\n/src\n  ...\n```\n\n## Key Conventions\n- Code style: ...\n- Naming: ...\n- Testing: ...\n\n## Commands\n- Build: ...\n- Test: ...\n- Run: ...\n\n## Notes\nAny project-specific notes or reminders.\n"@
}

/// A project guidelines file to start from.
pub fn generate_guidelines_md_template(project_name: &str, project_type: &str) -> (r: String)
    ensures
        r@ == guidelines_template(project_name@, project_type@),
{
    let mut s = owned("# ");
    push_str(&mut s, project_name);
    push_str(
        &mut s,
        " - Project Guidelines\n\n## Project Overview\nBrief description of this project.\n\n## Tech Stack\n- Language/Framework: ",
    );
    push_str(&mut s, project_type);
    push_str(
        &mut s,
        "\n- Key Dependencies: ...\n\n## Project Structure\n```\n/src\n  ...\n```\n\n## Key Conventions\n- Code style: ...\n- Naming: ...\n- Testing: ...\n\n## Commands\n- Build: ...\n- Test: ...\n- Run: ...\n\n## Notes\nAny project-specific notes or reminders.\n",
    );
    s
}

/// The template of an AGENTS.md file.
pub open spec fn agents_template() -> Seq<char> {
    "# Multi-Agent Instructions\n\n## Agent Personas\nDefine different agent roles and their responsibilities.\n\n### Senior Developer\n- Role: ...\n- Instructions: ...\n\n### Junior Developer\n- Role: ...\n- Instructions: ...\n\n### DevOps Engineer\n- Role: ...\n- Instructions: ...\n\n## Communication Protocols\nHow agents should communicate and share context.\n\n## Task Assignment\nHow tasks are distributed among agents.\n"@
}

/// An AGENTS.md file to start from.
pub fn generate_agents_md_template() -> (r: String)
    ensures
        r@ == agents_template(),
{
    owned(
        "# Multi-Agent Instructions\n\n## Agent Personas\nDefine different agent roles and their responsibilities.\n\n### Senior Developer\n- Role: ...\n- Instructions: ...\n\n### Junior Developer\n- Role: ...\n- Instructions: ...\n\n### DevOps Engineer\n- Role: ...\n- Instructions: ...\n\n## Communication Protocols\nHow agents should communicate and share context.\n\n## Task Assignment\nHow tasks are distributed among agents.\n",
    )
}

/// Files whose current times are the times recorded for them are not
/// reported as changed.
pub proof fn lemma_unchanged_not_modified(current: Seq<(Seq<char>, Option<u64>)>, known: Seq<(Seq<char>, u64)>)
    requires
        forall|i: int|
            0 <= i < current.len() ==> (#[trigger] current[i]).1 == known_time(known, current[i].0),
    ensures
        modified_paths(current, known).len() == 0,
    decreases current.len(),
{
    if current.len() > 0 {
        let d = current.drop_last();
        assert forall|i: int| 0 <= i < d.len() implies (#[trigger] d[i]).1 == known_time(known, d[i].0) by {
            assert(d[i] == current[i]);
        }
        lemma_unchanged_not_modified(d, known);
        assert(current.last() == current[current.len() - 1]);
    }
}

} // verus!
