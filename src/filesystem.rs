//! File tools: read, write and edit a file, list a directory.
//!
//! Each tool checks its parameters and resolves its path (`prepare`), lets
//! the caller perform the file-system work, and turns what came of it into
//! the text handed back to the agent (`finish`). Failures are text too.

use vstd::prelude::*;
use crate::params::ParamMap;
use crate::paths::{expand_path, is_home_relative, joined_path};
use crate::schema::{
    object_schema, string_params, string_prop, string_schema, ParameterSchema, PropSchema, ParameterSchemaView, PropSchemaView, ToolSchema,
    ToolSchemaView,
};
use crate::text::{
    join, join_strings, lemma_text_le_total, lemma_text_le_trans, text_le, text_le_exec, views,
    count_occurrences, chars_of, decimal, decimal_string, find_first, lemma_found_iff_occurs,
    occurrences, replace_first, splice,
};

verus! {

/// What kind of failure a file-system operation met.
#[derive(Clone, Copy, Debug, PartialEq, Eq, Structural)]
pub enum IoKind {
    NotFound,
    PermissionDenied,
    Other,
}

/// A failed file-system operation: its kind and its error text.
#[derive(Clone, Debug)]
pub struct IoFailure {
    pub kind: IoKind,
    pub message: String,
}

/// `Error: Missing required parameter '<name>'`
pub open spec fn missing_param(name: Seq<char>) -> Seq<char> {
    "Error: Missing required parameter '"@ + name + "'"@
}

/// The value of a required parameter, or the text that reports it missing.
pub fn require_param(params: &ParamMap, name: &str) -> (r: Result<String, String>)
    ensures
        match r {
            Ok(v) => params.value_of(name@) == Some(v@),
            Err(e) => params.value_of(name@) is None && e@ == missing_param(name@),
        },
{
    match params.get(name) {
        Some(v) => Ok(v.clone()),
        None => {
            let mut e = String::from_str("Error: Missing required parameter '");
            e.append(name);
            e.append("'");
            Err(e)
        },
    }
}

/// `path` is what `given` resolves to: itself, or, for a path that begins
/// with `~/`, the rest joined onto a home directory.
pub open spec fn resolves_to(given: Seq<char>, path: Seq<char>) -> bool {
    &&& !is_home_relative(given) ==> path == given
    &&& is_home_relative(given) ==> path == given || exists|h: Seq<char>|
        path == joined_path(h, given.subrange(2, given.len() as int))
}

/// A file or directory to work on: the path as the caller gave it (used in
/// messages) and the path resolved for the file system.
#[derive(Clone, Debug)]
pub struct FileRequest {
    pub shown: String,
    pub path: String,
}

fn request_for(params: &ParamMap) -> (r: Result<FileRequest, String>)
    ensures
        match r {
            Ok(q) => params.value_of("path"@) == Some(q.shown@) && resolves_to(q.shown@, q.path@),
            Err(e) => params.value_of("path"@) is None && e@ == missing_param("path"@),
        },
{
    let shown = require_param(params, "path")?;
    let path = expand_path(shown.as_str());
    Ok(FileRequest { shown, path })
}

/// The one-property schema `{path}` with `path` required.
pub open spec fn path_only_params(description: Seq<char>) -> ParameterSchemaView {
    ParameterSchemaView {
        properties: seq![("path"@, PropSchemaView { json_type: "string"@, description })],
        required: seq!["path"@],
    }
}

fn path_only_schema(description: &str) -> (r: ParameterSchema)
    ensures
        r@ == path_only_params(description@),
{
    let mut props: Vec<(String, PropSchema)> = Vec::new();
    props.push((String::from_str("path"), string_prop(description)));
    let mut req: Vec<String> = Vec::new();
    req.push(String::from_str("path"));
    let ghost want = path_only_params(description@);
    let ghost got = (ParameterSchema { properties: props, required: req })@;
    assert(got.properties =~= want.properties);
    assert(got.required =~= want.required);
    assert(want.property_names() =~= seq!["path"@]);
    object_schema(props, req)
}

/// `<prefix><tail>`
fn message(prefix: &str, tail: &str) -> (r: String)
    ensures
        r@ == prefix@ + tail@,
{
    let mut r = String::from_str(prefix);
    r.append(tail);
    r
}

// ---------------------------------------------------------------------------
// Read

/// The text handed back after reading a file.
pub open spec fn read_result(shown: Seq<char>, outcome: Result<Seq<char>, (IoKind, Seq<char>)>) -> Seq<
    char,
> {
    match outcome {
        Ok(content) => content,
        Err((kind, msg)) => match kind {
            IoKind::NotFound => "Error: File not found: "@ + shown,
            IoKind::PermissionDenied => "Error: Permission denied: "@ + shown,
            IoKind::Other => "Error reading file: "@ + msg,
        },
    }
}

/// The outcome of an operation, by views.
pub open spec fn outcome_view<T: View>(o: Result<T, IoFailure>) -> Result<T::V, (IoKind, Seq<char>)> {
    match o {
        Ok(v) => Ok(v@),
        Err(e) => Err((e.kind, e.message@)),
    }
}

/// Reads a file as text.
#[derive(Clone, Copy, Debug)]
pub struct ReadFileTool;

pub open spec fn read_file_schema() -> ToolSchemaView {
    ToolSchemaView {
        name: "read_file"@,
        description: "Read the contents of a file at the given path."@,
        parameters: path_only_params("The file path to read"@),
    }
}

impl ReadFileTool {
    pub fn new() -> Self {
        ReadFileTool
    }

    pub fn tool_name(&self) -> (r: &'static str)
        ensures
            r@ == read_file_schema().name,
    {
        "read_file"
    }

    pub fn description(&self) -> (r: &'static str)
        ensures
            r@ == read_file_schema().description,
    {
        "Read the contents of a file at the given path."
    }

    pub fn parameters(&self) -> (r: ParameterSchema)
        ensures
            r@ == read_file_schema().parameters,
    {
        path_only_schema("The file path to read")
    }

    pub fn to_schema(&self) -> (r: ToolSchema)
        ensures
            r@ == read_file_schema(),
    {
        ToolSchema {
            name: String::from_str(self.tool_name()),
            description: String::from_str(self.description()),
            parameters: self.parameters(),
        }
    }

    /// Checks the parameters: `path` is required.
    pub fn prepare(&self, params: &ParamMap) -> (r: Result<FileRequest, String>)
        ensures
            match r {
                Ok(q) => params.value_of("path"@) == Some(q.shown@) && resolves_to(
                    q.shown@,
                    q.path@,
                ),
                Err(e) => params.value_of("path"@) is None && e@ == missing_param("path"@),
            },
    {
        request_for(params)
    }

    /// The result of reading the file `shown`: its contents, or the failure.
    pub fn finish(&self, shown: &str, outcome: Result<String, IoFailure>) -> (r: String)
        ensures
            r@ == read_result(shown@, outcome_view(outcome)),
    {
        match outcome {
            Ok(content) => content,
            Err(e) => match e.kind {
                IoKind::NotFound => message("Error: File not found: ", shown),
                IoKind::PermissionDenied => message("Error: Permission denied: ", shown),
                IoKind::Other => message("Error reading file: ", e.message.as_str()),
            },
        }
    }
}

// ---------------------------------------------------------------------------
// Write

/// The length of the text in UTF-8, as `str::len` gives it (a string held
/// in memory has its length in `usize`).
pub open spec fn byte_len(s: Seq<char>) -> nat {
    (vstd::utf8::encode_utf8(s).len() as usize) as nat
}

/// What came of writing a file.
#[derive(Clone, Debug)]
pub enum WriteOutcome {
    /// The parent directories could not be created; the error's text.
    DirsFailed(String),
    /// The file could not be written.
    Failed(IoFailure),
    Written,
}

/// A file to write: where, and what.
#[derive(Clone, Debug)]
pub struct WriteRequest {
    pub shown: String,
    pub path: String,
    pub content: String,
}

/// The text handed back after writing `content` to the file `shown`.
pub open spec fn write_result(shown: Seq<char>, content: Seq<char>, outcome: WriteOutcome) -> Seq<
    char,
> {
    match outcome {
        WriteOutcome::DirsFailed(e) => "Error creating directories: "@ + e@,
        WriteOutcome::Failed(e) => if e.kind == IoKind::PermissionDenied {
            "Error: Permission denied: "@ + shown
        } else {
            "Error writing file: "@ + e.message@
        },
        WriteOutcome::Written => "Successfully wrote "@ + decimal(byte_len(content)) + " bytes to "@
            + shown,
    }
}

/// Writes text to a file, creating missing parent directories first.
#[derive(Clone, Copy, Debug)]
pub struct WriteFileTool;

pub open spec fn write_file_props() -> Seq<(&'static str, &'static str)> {
    seq![("path", "The file path to write to"), ("content", "The content to write")]
}

pub open spec fn write_file_schema() -> ToolSchemaView {
    ToolSchemaView {
        name: "write_file"@,
        description: "Write content to a file at the given path. Creates parent directories if needed."@,
        parameters: string_params(write_file_props(), seq!["path", "content"]),
    }
}

impl WriteFileTool {
    pub fn new() -> Self {
        WriteFileTool
    }

    pub fn tool_name(&self) -> (r: &'static str)
        ensures
            r@ == write_file_schema().name,
    {
        "write_file"
    }

    pub fn description(&self) -> (r: &'static str)
        ensures
            r@ == write_file_schema().description,
    {
        "Write content to a file at the given path. Creates parent directories if needed."
    }

    pub fn parameters(&self) -> (r: ParameterSchema)
        ensures
            r@ == write_file_schema().parameters,
    {
        let mut props: Vec<(&str, &str)> = Vec::new();
        props.push(("path", "The file path to write to"));
        props.push(("content", "The content to write"));
        let mut req: Vec<&str> = Vec::new();
        req.push("path");
        req.push("content");
        proof {
            reveal_strlit("path");
            reveal_strlit("content");
            assert(props@ =~= write_file_props());
            assert(req@ =~= seq!["path", "content"]);
            let v = string_params(props@, req@);
            assert(v.property_names() =~= seq!["path"@, "content"@]);
            assert(v.property_names()[0].len() != v.property_names()[1].len());
            assert(v.property_names().contains(v.required[0]));
            assert(v.property_names().contains(v.required[1]));
        }
        string_schema(&props, &req)
    }

    pub fn to_schema(&self) -> (r: ToolSchema)
        ensures
            r@ == write_file_schema(),
    {
        ToolSchema {
            name: String::from_str(self.tool_name()),
            description: String::from_str(self.description()),
            parameters: self.parameters(),
        }
    }

    /// Checks the parameters: `path`, then `content`, are required.
    pub fn prepare(&self, params: &ParamMap) -> (r: Result<WriteRequest, String>)
        ensures
            match r {
                Ok(q) => params.value_of("path"@) == Some(q.shown@) && params.value_of("content"@)
                    == Some(q.content@) && resolves_to(q.shown@, q.path@),
                Err(e) => if params.value_of("path"@) is None {
                    e@ == missing_param("path"@)
                } else {
                    params.value_of("content"@) is None && e@ == missing_param("content"@)
                },
            },
    {
        let shown = require_param(params, "path")?;
        let content = require_param(params, "content")?;
        let path = expand_path(shown.as_str());
        Ok(WriteRequest { shown, path, content })
    }

    /// The result of writing `content` to the file `shown`.
    pub fn finish(&self, shown: &str, content: &str, outcome: WriteOutcome) -> (r: String)
        ensures
            r@ == write_result(shown@, content@, outcome),
    {
        match &outcome {
            WriteOutcome::DirsFailed(e) => message("Error creating directories: ", e.as_str()),
            WriteOutcome::Failed(e) => if e.kind == IoKind::PermissionDenied {
                message("Error: Permission denied: ", shown)
            } else {
                message("Error writing file: ", e.message.as_str())
            },
            WriteOutcome::Written => {
                let len = content.len();
                let n = decimal_string(len as u128);
                let mut r = String::from_str("Successfully wrote ");
                r.append(n.as_str());
                r.append(" bytes to ");
                r.append(shown);
                r
            },
        }
    }
}

// ---------------------------------------------------------------------------
// Edit

/// An edit to make: in the file, replace `old_text` by `new_text`.
#[derive(Clone, Debug)]
pub struct EditRequest {
    pub shown: String,
    pub path: String,
    pub old_text: String,
    pub new_text: String,
}

/// Decides an edit from what reading the file gave: `Ok` with the new
/// contents to write, or `Err` with the text to hand back, the file left
/// as it is. The edit is made only when `old_text` occurs exactly once.
pub open spec fn edit_plan(
    shown: Seq<char>,
    old_text: Seq<char>,
    new_text: Seq<char>,
    read: Result<Seq<char>, (IoKind, Seq<char>)>,
) -> Result<Seq<char>, Seq<char>> {
    match read {
        Err((kind, msg)) => if kind == IoKind::NotFound {
            Err("Error: File not found: "@ + shown)
        } else {
            Err("Error reading file: "@ + msg)
        },
        Ok(content) => {
            let n = occurrences(content, old_text);
            if n == 0 {
                Err("Error: old_text not found in file. Make sure it matches exactly."@)
            } else if n > 1 {
                Err("Warning: old_text appears "@ + decimal(n)
                    + " times. Please provide more context to make it unique."@)
            } else {
                Ok(replace_first(content, old_text, new_text))
            }
        },
    }
}

/// The text handed back after writing the edited file `shown`.
pub open spec fn edit_written(shown: Seq<char>, outcome: Result<(), (IoKind, Seq<char>)>) -> Seq<
    char,
> {
    match outcome {
        Ok(_) => "Successfully edited "@ + shown,
        Err((kind, msg)) => if kind == IoKind::PermissionDenied {
            "Error: Permission denied: "@ + shown
        } else {
            "Error writing file: "@ + msg
        },
    }
}

/// Replaces one exact, unique piece of text in a file.
#[derive(Clone, Copy, Debug)]
pub struct EditFileTool;

pub open spec fn edit_file_props() -> Seq<(&'static str, &'static str)> {
    seq![
        ("path", "The file path to edit"),
        ("old_text", "The exact text to find and replace"),
        ("new_text", "The text to replace with"),
    ]
}

pub open spec fn edit_file_schema() -> ToolSchemaView {
    ToolSchemaView {
        name: "edit_file"@,
        description: "Edit a file by replacing old_text with new_text. The old_text must exist exactly in the file."@,
        parameters: string_params(edit_file_props(), seq!["path", "old_text", "new_text"]),
    }
}

impl EditFileTool {
    pub fn new() -> Self {
        EditFileTool
    }

    pub fn tool_name(&self) -> (r: &'static str)
        ensures
            r@ == edit_file_schema().name,
    {
        "edit_file"
    }

    pub fn description(&self) -> (r: &'static str)
        ensures
            r@ == edit_file_schema().description,
    {
        "Edit a file by replacing old_text with new_text. The old_text must exist exactly in the file."
    }

    pub fn parameters(&self) -> (r: ParameterSchema)
        ensures
            r@ == edit_file_schema().parameters,
    {
        let mut props: Vec<(&str, &str)> = Vec::new();
        props.push(("path", "The file path to edit"));
        props.push(("old_text", "The exact text to find and replace"));
        props.push(("new_text", "The text to replace with"));
        let mut req: Vec<&str> = Vec::new();
        req.push("path");
        req.push("old_text");
        req.push("new_text");
        proof {
            reveal_strlit("path");
            reveal_strlit("old_text");
            reveal_strlit("new_text");
            assert(props@ =~= edit_file_props());
            assert(req@ =~= seq!["path", "old_text", "new_text"]);
            let v = string_params(props@, req@);
            let names = v.property_names();
            assert(names =~= seq!["path"@, "old_text"@, "new_text"@]);
            assert(names[0].len() != names[1].len());
            assert(names[0].len() != names[2].len());
            assert(names[1][0] != names[2][0]);
            assert(names.contains(v.required[0]));
            assert(names.contains(v.required[1]));
            assert(names.contains(v.required[2]));
        }
        string_schema(&props, &req)
    }

    pub fn to_schema(&self) -> (r: ToolSchema)
        ensures
            r@ == edit_file_schema(),
    {
        ToolSchema {
            name: String::from_str(self.tool_name()),
            description: String::from_str(self.description()),
            parameters: self.parameters(),
        }
    }

    /// Checks the parameters: `path`, `old_text` and `new_text`, in this
    /// order, are required.
    pub fn prepare(&self, params: &ParamMap) -> (r: Result<EditRequest, String>)
        ensures
            match r {
                Ok(q) => params.value_of("path"@) == Some(q.shown@) && params.value_of(
                    "old_text"@,
                ) == Some(q.old_text@) && params.value_of("new_text"@) == Some(q.new_text@)
                    && resolves_to(q.shown@, q.path@),
                Err(e) => if params.value_of("path"@) is None {
                    e@ == missing_param("path"@)
                } else if params.value_of("old_text"@) is None {
                    e@ == missing_param("old_text"@)
                } else {
                    params.value_of("new_text"@) is None && e@ == missing_param("new_text"@)
                },
            },
    {
        let shown = require_param(params, "path")?;
        let old_text = require_param(params, "old_text")?;
        let new_text = require_param(params, "new_text")?;
        let path = expand_path(shown.as_str());
        Ok(EditRequest { shown, path, old_text, new_text })
    }

    /// Decides the edit from what reading the file gave (see [`edit_plan`]).
    pub fn plan(&self, req: &EditRequest, read: Result<String, IoFailure>) -> (r: Result<
        String,
        String,
    >)
        ensures
            match r {
                Ok(w) => edit_plan(req.shown@, req.old_text@, req.new_text@, outcome_view(read))
                    == Ok::<Seq<char>, Seq<char>>(w@),
                Err(t) => edit_plan(req.shown@, req.old_text@, req.new_text@, outcome_view(read))
                    == Err::<Seq<char>, Seq<char>>(t@),
            },
    {
        let content = match read {
            Err(e) => {
                if e.kind == IoKind::NotFound {
                    return Err(message("Error: File not found: ", req.shown.as_str()));
                } else {
                    return Err(message("Error reading file: ", e.message.as_str()));
                }
            },
            Ok(c) => c,
        };
        let cv = chars_of(content.as_str());
        let ov = chars_of(req.old_text.as_str());
        let n = count_occurrences(&cv, &ov);
        if n == 0 {
            return Err(
                String::from_str("Error: old_text not found in file. Make sure it matches exactly."),
            );
        }
        if n > 1 {
            let mut t = String::from_str("Warning: old_text appears ");
            t.append(decimal_string(n).as_str());
            t.append(" times. Please provide more context to make it unique.");
            return Err(t);
        }
        proof {
            lemma_found_iff_occurs(cv@, ov@);
        }
        match find_first(&cv, &ov) {
            Some(at) => Ok(splice(content.as_str(), at, ov.len(), req.new_text.as_str())),
            None => Err(
                String::from_str("Error: old_text not found in file. Make sure it matches exactly."),
            ),
        }
    }

    /// The result of writing the edited file `shown`.
    pub fn finish(&self, shown: &str, written: Result<(), IoFailure>) -> (r: String)
        ensures
            r@ == edit_written(
                shown@,
                match written {
                    Ok(_) => Ok(()),
                    Err(e) => Err((e.kind, e.message@)),
                },
            ),
    {
        match written {
            Ok(()) => message("Successfully edited ", shown),
            Err(e) => if e.kind == IoKind::PermissionDenied {
                message("Error: Permission denied: ", shown)
            } else {
                message("Error writing file: ", e.message.as_str())
            },
        }
    }
}

// ---------------------------------------------------------------------------
// List directory

/// One entry of a directory: its name and whether it is a directory.
#[derive(Clone, Debug)]
pub struct DirEntry {
    pub name: String,
    pub is_dir: bool,
}

/// What came of listing a directory.
#[derive(Clone, Debug)]
pub enum ListOutcome {
    /// The path could not be examined.
    StatFailed(IoFailure),
    /// The path exists and is not a directory.
    NotADirectory,
    /// The directory could not be read.
    ReadFailed(IoFailure),
    /// The entries, in the order the file system gave them.
    Entries(Vec<DirEntry>),
}

/// The entries are in order of their names.
pub open spec fn sorted_by_name(s: Seq<DirEntry>) -> bool {
    forall|i: int, j: int| 0 <= i < j < s.len() ==> text_le(s[i].name@, s[j].name@)
}

/// The line of an entry: a folder or file glyph, then the name.
pub open spec fn entry_line(e: DirEntry) -> Seq<char> {
    (if e.is_dir {
        "\u{1F4C1} "@
    } else {
        "\u{1F4C4} "@
    }) + e.name@
}

/// The lines of the entries, one per entry, separated by newlines.
pub open spec fn listing(s: Seq<DirEntry>) -> Seq<char> {
    join(s.map_values(|e: DirEntry| entry_line(e)), "\n"@)
}

/// `r` is the text handed back after listing the directory `shown`.
pub open spec fn list_result(shown: Seq<char>, outcome: ListOutcome, r: Seq<char>) -> bool {
    match outcome {
        ListOutcome::StatFailed(e) => r == if e.kind == IoKind::NotFound {
            "Error: Directory not found: "@ + shown
        } else {
            "Error: "@ + e.message@
        },
        ListOutcome::NotADirectory => r == "Error: Not a directory: "@ + shown,
        ListOutcome::ReadFailed(e) => r == if e.kind == IoKind::PermissionDenied {
            "Error: Permission denied: "@ + shown
        } else {
            "Error listing directory: "@ + e.message@
        },
        ListOutcome::Entries(es) => if es@.len() == 0 {
            r == "Directory "@ + shown + " is empty"@
        } else {
            exists|s: Seq<DirEntry>|
                s.to_multiset() == es@.to_multiset() && sorted_by_name(s) && r == listing(s)
        },
    }
}

/// Puts the entries in order of their names.
pub fn sort_entries(entries: Vec<DirEntry>) -> (r: Vec<DirEntry>)
    ensures
        r@.to_multiset() == entries@.to_multiset(),
        sorted_by_name(r@),
{
    broadcast use vstd::seq_lib::group_to_multiset_ensures;

    let mut rest = entries;
    let mut out: Vec<DirEntry> = Vec::new();
    while rest.len() > 0
        invariant
            out@.to_multiset().add(rest@.to_multiset()) == entries@.to_multiset(),
            sorted_by_name(out@),
        decreases rest@.len(),
    {
        let ghost before = rest@;
        let e = rest.pop().unwrap();
        proof {
            assert(before =~= rest@.push(e));
        }
        let key = chars_of(e.name.as_str());
        let mut j: usize = 0;
        while j < out.len() && text_le_exec(&chars_of(out[j].name.as_str()), &key)
            invariant
                j <= out@.len(),
                key@ == e.name@,
                forall|k: int| 0 <= k < j ==> text_le(#[trigger] out@[k].name@, e.name@),
            decreases out@.len() - j,
        {
            j = j + 1;
        }
        proof {
            if j < out@.len() {
                lemma_text_le_total(out@[j as int].name@, e.name@);
                assert forall|k: int| j <= k < out@.len() implies text_le(
                    e.name@,
                    #[trigger] out@[k].name@,
                ) by {
                    if k > j {
                        lemma_text_le_trans(e.name@, out@[j as int].name@, out@[k].name@);
                    }
                }
            }
        }
        let ghost old_out = out@;
        out.insert(j, e);
        proof {
            vstd::seq_lib::to_multiset_insert(old_out, j as int, e);
            assert(out@ == old_out.insert(j as int, e));
            vstd::seq_lib::to_multiset_build(rest@, e);
            assert(before == rest@.push(e));
            assert(before.to_multiset() =~= rest@.to_multiset().insert(e));
            assert(out@.to_multiset().add(rest@.to_multiset()) =~= old_out.to_multiset().add(
                before.to_multiset(),
            ));
            assert forall|a: int, b: int| 0 <= a < b < out@.len() implies text_le(
                out@[a].name@,
                out@[b].name@,
            ) by {
                if b < j {
                } else if b == j {
                } else if a < j {
                    assert(text_le(old_out[a].name@, e.name@));
                    assert(text_le(e.name@, old_out[b - 1].name@));
                    lemma_text_le_trans(old_out[a].name@, e.name@, old_out[b - 1].name@);
                } else if a == j {
                } else {
                }
            }
        }
    }
    proof {
        assert(rest@ =~= Seq::<DirEntry>::empty());
    }
    out
}

/// The lines of the entries, in their order.
pub fn render_listing(entries: &Vec<DirEntry>) -> (r: String)
    ensures
        r@ == listing(entries@),
{
    let ghost want = entries@.map_values(|e: DirEntry| entry_line(e));
    let mut lines: Vec<String> = Vec::new();
    let mut i: usize = 0;
    while i < entries.len()
        invariant
            i <= entries@.len(),
            want == entries@.map_values(|e: DirEntry| entry_line(e)),
            views(lines@) =~= want.subrange(0, i as int),
        decreases entries@.len() - i,
    {
        let mut line = if entries[i].is_dir {
            String::from_str("\u{1F4C1} ")
        } else {
            String::from_str("\u{1F4C4} ")
        };
        line.append(entries[i].name.as_str());
        let ghost before = lines@;
        proof {
            assert(line@ == want[i as int]);
        }
        lines.push(line);
        proof {
            assert(views(lines@) =~= views(before).push(want[i as int]));
            assert(want.subrange(0, i + 1) =~= want.subrange(0, i as int).push(want[i as int]));
        }
        i = i + 1;
    }
    assert(want.subrange(0, entries@.len() as int) =~= want);
    join_strings(&lines, "\n")
}

/// Lists a directory, entries in order of name, each marked as a folder or a
/// file.
#[derive(Clone, Copy, Debug)]
pub struct ListDirTool;

pub open spec fn list_dir_schema() -> ToolSchemaView {
    ToolSchemaView {
        name: "list_dir"@,
        description: "List the contents of a directory."@,
        parameters: path_only_params("The directory path to list"@),
    }
}

impl ListDirTool {
    pub fn new() -> Self {
        ListDirTool
    }

    pub fn tool_name(&self) -> (r: &'static str)
        ensures
            r@ == list_dir_schema().name,
    {
        "list_dir"
    }

    pub fn description(&self) -> (r: &'static str)
        ensures
            r@ == list_dir_schema().description,
    {
        "List the contents of a directory."
    }

    pub fn parameters(&self) -> (r: ParameterSchema)
        ensures
            r@ == list_dir_schema().parameters,
    {
        path_only_schema("The directory path to list")
    }

    pub fn to_schema(&self) -> (r: ToolSchema)
        ensures
            r@ == list_dir_schema(),
    {
        ToolSchema {
            name: String::from_str(self.tool_name()),
            description: String::from_str(self.description()),
            parameters: self.parameters(),
        }
    }

    /// Checks the parameters: `path` is required.
    pub fn prepare(&self, params: &ParamMap) -> (r: Result<FileRequest, String>)
        ensures
            match r {
                Ok(q) => params.value_of("path"@) == Some(q.shown@) && resolves_to(
                    q.shown@,
                    q.path@,
                ),
                Err(e) => params.value_of("path"@) is None && e@ == missing_param("path"@),
            },
    {
        request_for(params)
    }

    /// The result of listing the directory `shown`.
    pub fn finish(&self, shown: &str, outcome: ListOutcome) -> (r: String)
        ensures
            list_result(shown@, outcome, r@),
    {
        match outcome {
            ListOutcome::StatFailed(e) => if e.kind == IoKind::NotFound {
                message("Error: Directory not found: ", shown)
            } else {
                message("Error: ", e.message.as_str())
            },
            ListOutcome::NotADirectory => message("Error: Not a directory: ", shown),
            ListOutcome::ReadFailed(e) => if e.kind == IoKind::PermissionDenied {
                message("Error: Permission denied: ", shown)
            } else {
                message("Error listing directory: ", e.message.as_str())
            },
            ListOutcome::Entries(es) => {
                if es.len() == 0 {
                    let mut r = String::from_str("Directory ");
                    r.append(shown);
                    r.append(" is empty");
                    r
                } else {
                    let ghost given = es@;
                    let sorted = sort_entries(es);
                    let r = render_listing(&sorted);
                    assert(sorted@.to_multiset() == given.to_multiset() && sorted_by_name(
                        sorted@,
                    ) && r@ == listing(sorted@));
                    r
                }
            },
        }
    }
}

} // verus!
