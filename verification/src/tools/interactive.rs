//! Interactive tools: questions put to the user, and notebook cell edits.

use vstd::prelude::*;
use crate::skills::str_views;
use crate::text::{decimal, join, owned, parse_uint, parse_unsigned, push_str, views};
use crate::tools::Tool;
use crate::tools::executor::join_strings;

verus! {

/// One choice offered with a question.
pub struct QuestionOption {
    pub label: String,
    pub description: Option<String>,
}

/// How a question is answered.
#[derive(Clone, Copy, Debug, PartialEq, Eq, Structural)]
pub enum QuestionHeader {
    SingleSelect,
    MultiSelect,
    Input,
}

/// A question for the user.
pub struct AskUserQuestionRequest {
    pub question: String,
    pub options: Vec<QuestionOption>,
    pub header: QuestionHeader,
    pub multi_select: bool,
}

/// The labels of options.
pub open spec fn option_labels(os: Seq<QuestionOption>) -> Seq<Seq<char>> {
    os.map_values(|o: QuestionOption| o.label@)
}

impl AskUserQuestionRequest {
    /// A question answered by free text.
    pub fn new(question: &str) -> (r: Self)
        ensures
            r.question@ == question@,
            r.options@.len() == 0,
            r.header == QuestionHeader::Input,
            !r.multi_select,
    {
        AskUserQuestionRequest {
            question: owned(question),
            options: Vec::new(),
            header: QuestionHeader::Input,
            multi_select: false,
        }
    }

    /// The question with these choices, one to be picked.
    pub fn with_options(self, options: Vec<&str>) -> (r: Self)
        ensures
            option_labels(r.options@) == str_views(options@),
            forall|i: int| 0 <= i < r.options@.len() ==> (#[trigger] r.options@[i]).description is None,
            r.header == QuestionHeader::SingleSelect,
            r.question == self.question && r.multi_select == self.multi_select,
    {
        let mut s = self;
        let mut os: Vec<QuestionOption> = Vec::new();
        let mut i: usize = 0;
        while i < options.len()
            invariant
                i <= options@.len(),
                option_labels(os@) == str_views(options@).subrange(0, i as int),
                forall|k: int| 0 <= k < os@.len() ==> (#[trigger] os@[k]).description is None,
            decreases options.len() - i,
        {
            let ghost before = os@;
            os.push(QuestionOption { label: owned(options[i]), description: None });
            assert(option_labels(os@) =~= option_labels(before).push(options@[i as int]@));
            i = i + 1;
        }
        assert(str_views(options@).subrange(0, options@.len() as int) =~= str_views(options@));
        s.options = os;
        s.header = QuestionHeader::SingleSelect;
        s
    }

    /// The question with several choices allowed.
    pub fn multi_select(self) -> (r: Self)
        ensures
            r.multi_select,
            r.header == QuestionHeader::MultiSelect,
            r.question == self.question && r.options == self.options,
    {
        let mut s = self;
        s.multi_select = true;
        s.header = QuestionHeader::MultiSelect;
        s
    }
}

/// What the user answered.
pub struct AskUserQuestionResponse {
    pub selected: Vec<String>,
    pub input: Option<String>,
}

/// The tool that puts a question to the user.
pub struct AskUserQuestionTool;

impl AskUserQuestionTool {
    pub fn new() -> (r: Self) {
        AskUserQuestionTool
    }
}

impl Tool for AskUserQuestionTool {
    fn name(&self) -> (r: &'static str)
        ensures
            r@ == "AskUserQuestion"@,
    {
        "AskUserQuestion"
    }

    fn description(&self) -> (r: &'static str)
        ensures
            r@ == "Ask the user a question with optional choices"@,
    {
        "Ask the user a question with optional choices"
    }

    fn execute(&self, args: &[String]) -> (r: Result<String, String>)
        ensures
            r is Ok,
            args@.len() == 0 ==> r->Ok_0@ == "Usage: AskUserQuestion <question> [option1] [option2] ..."@,
            args@.len() > 0 ==> r->Ok_0@ == "Question: "@ + args@[0]@ + "\nOptions: "@ + if args@.len()
                == 1 {
                "(text input)"@
            } else {
                join(views(args@).subrange(1, args@.len() as int), ", "@)
            },
    {
        if args.len() == 0 {
            return Ok(owned("Usage: AskUserQuestion <question> [option1] [option2] ..."));
        }
        let mut m = owned("Question: ");
        push_str(&mut m, args[0].as_str());
        push_str(&mut m, "\nOptions: ");
        if args.len() == 1 {
            push_str(&mut m, "(text input)");
        } else {
            let rest = crate::tools::executor::join_from(args, 1, ", ");
            push_str(&mut m, rest.as_str());
        }
        Ok(m)
    }
}

/// Kind of a notebook cell.
#[derive(Clone, Copy, Debug, PartialEq, Eq, Structural)]
pub enum CellType {
    Code,
    Markdown,
    Raw,
}

/// A notebook cell. Its metadata is kept as JSON text.
pub struct NotebookCell {
    pub id: String,
    pub cell_type: CellType,
    pub source: String,
    pub outputs: Option<Vec<String>>,
    pub metadata: String,
}

impl NotebookCell {
    /// A cell of `cell_type` holding `source`, under a fresh random UUID,
    /// with no outputs and empty metadata.
    pub fn new(cell_type: CellType, source: &str) -> (r: Self)
        ensures
            r.id@.len() == 36,
            r.cell_type == cell_type,
            r.source@ == source@,
            r.outputs is None,
            r.metadata@ == "{}"@,
    {
        NotebookCell {
            id: crate::cron::new_uuid_v4(),
            cell_type,
            source: owned(source),
            outputs: None,
            metadata: owned("{}"),
        }
    }

    /// A code cell.
    pub fn code(source: &str) -> (r: Self)
        ensures
            r.cell_type == CellType::Code && r.source@ == source@ && r.outputs is None && r.id@.len() == 36,
    {
        NotebookCell::new(CellType::Code, source)
    }

    /// A Markdown cell.
    pub fn markdown(source: &str) -> (r: Self)
        ensures
            r.cell_type == CellType::Markdown && r.source@ == source@ && r.outputs is None && r.id@.len() == 36,
    {
        NotebookCell::new(CellType::Markdown, source)
    }
}

/// A notebook: its cells in order; its metadata is kept as JSON text.
pub struct Notebook {
    pub cells: Vec<NotebookCell>,
    pub metadata: String,
}

/// The metadata of a new notebook: a Python 3 kernel.
pub open spec fn python_kernel_metadata() -> Seq<char> {
    "{\"kernelspec\":{\"display_name\":\"Python 3\",\"language\":\"python\",\"name\":\"python3\"}}"@
}

impl Notebook {
    /// An empty notebook with a Python 3 kernel.
    pub fn new() -> (r: Self)
        ensures
            r.cells@.len() == 0,
            r.metadata@ == python_kernel_metadata(),
    {
        Notebook {
            cells: Vec::new(),
            metadata: owned(
                "{\"kernelspec\":{\"display_name\":\"Python 3\",\"language\":\"python\",\"name\":\"python3\"}}",
            ),
        }
    }

    /// Appends `cell` and returns it.
    pub fn add_cell(&mut self, cell: NotebookCell) -> (r: &NotebookCell)
        ensures
            final(self).cells@ == old(self).cells@.push(cell),
            final(self).metadata == old(self).metadata,
            *r == cell,
    {
        let len = self.cells.len();
        self.cells.push(cell);
        &self.cells[len]
    }

    /// Inserts `cell` before position `index`; false, and nothing changed,
    /// when `index` is past the end.
    pub fn insert_cell(&mut self, index: usize, cell: NotebookCell) -> (b: bool)
        ensures
            b == (index <= old(self).cells@.len()),
            b ==> final(self).cells@ == old(self).cells@.insert(index as int, cell),
            !b ==> final(self).cells@ == old(self).cells@,
            final(self).metadata == old(self).metadata,
    {
        if index <= self.cells.len() {
            self.cells.insert(index, cell);
            true
        } else {
            false
        }
    }

    /// Removes and returns the cell at `index`; `None`, and nothing
    /// changed, when there is none.
    pub fn remove_cell(&mut self, index: usize) -> (r: Option<NotebookCell>)
        ensures
            index < old(self).cells@.len() ==> (r == Some(old(self).cells@[index as int])
                && final(self).cells@ == old(self).cells@.remove(index as int)),
            index >= old(self).cells@.len() ==> (r is None && final(self).cells@ == old(self).cells@),
            final(self).metadata == old(self).metadata,
    {
        if index < self.cells.len() {
            Some(self.cells.remove(index))
        } else {
            None
        }
    }
}

/// Inserting a cell and then removing the cell at the same place gives
/// back the cell and leaves the cells as they were.
pub proof fn lemma_insert_then_remove_cell(cells: Seq<NotebookCell>, index: int, cell: NotebookCell)
    requires
        0 <= index <= cells.len(),
    ensures
        cells.insert(index, cell)[index] == cell,
        cells.insert(index, cell).remove(index) == cells,
{
    assert(cells.insert(index, cell).remove(index) =~= cells);
}

impl Default for Notebook {
    fn default() -> (r: Self)
        ensures
            r.cells@.len() == 0,
            r.metadata@ == python_kernel_metadata(),
    {
        Notebook::new()
    }
}

/// The tool that edits a notebook cell.
pub struct NotebookEditTool;

impl NotebookEditTool {
    pub fn new() -> (r: Self) {
        NotebookEditTool
    }
}

/// The cell index that an argument names: the number it reads as, or 0.
pub open spec fn cell_index_of(arg: Seq<char>) -> nat {
    match parse_unsigned(arg, usize::MAX as nat) {
        Some(v) => v,
        None => 0,
    }
}

impl Tool for NotebookEditTool {
    fn name(&self) -> (r: &'static str)
        ensures
            r@ == "NotebookEdit"@,
    {
        "NotebookEdit"
    }

    fn description(&self) -> (r: &'static str)
        ensures
            r@ == "Edit Jupyter notebook cells"@,
    {
        "Edit Jupyter notebook cells"
    }

    fn execute(&self, args: &[String]) -> (r: Result<String, String>)
        ensures
            r is Ok,
            args@.len() < 3 ==> r->Ok_0@ == "Usage: NotebookEdit <notebook_path> <cell_index> <new_content>"@,
            args@.len() >= 3 ==> r->Ok_0@ == "NotebookEdit: "@ + args@[0]@ + " cell "@ + decimal(
                cell_index_of(args@[1]@),
            ) + " = "@ + join(views(args@).subrange(2, args@.len() as int), " "@),
    {
        if args.len() < 3 {
            return Ok(owned("Usage: NotebookEdit <notebook_path> <cell_index> <new_content>"));
        }
        let index = match parse_uint(args[1].as_str(), usize::MAX as u64) {
            Some(v) => v,
            None => 0,
        };
        let mut m = owned("NotebookEdit: ");
        push_str(&mut m, args[0].as_str());
        push_str(&mut m, " cell ");
        let n = crate::text::u64_to_decimal(index);
        push_str(&mut m, n.as_str());
        push_str(&mut m, " = ");
        let rest = crate::tools::executor::join_from(args, 2, " ");
        push_str(&mut m, rest.as_str());
        Ok(m)
    }
}

} // verus!
