//! The tool registry: a name-to-tool mapping with registration, lookup,
//! schema export and dispatch.

use vstd::prelude::*;
use crate::filesystem::{
    edit_file_props, edit_file_schema, list_dir_schema, read_file_schema,
    write_file_props, write_file_schema, EditFileTool, ListDirTool, ReadFileTool, WriteFileTool,
};
use crate::schema::{string_params, ToolSchema, ToolSchemaView};
use crate::shell::{exec_props, exec_schema, ExecTool};
use crate::text::{decimal, decimal_string, views};

verus! {

/// One of the built-in tools.
#[derive(Clone, Debug)]
pub enum Tool {
    ReadFile(ReadFileTool),
    WriteFile(WriteFileTool),
    EditFile(EditFileTool),
    ListDir(ListDirTool),
    Exec(ExecTool),
}

/// The schema of a tool.
pub open spec fn schema_of(t: Tool) -> ToolSchemaView {
    match t {
        Tool::ReadFile(_) => read_file_schema(),
        Tool::WriteFile(_) => write_file_schema(),
        Tool::EditFile(_) => edit_file_schema(),
        Tool::ListDir(_) => list_dir_schema(),
        Tool::Exec(_) => exec_schema(),
    }
}

/// The name a tool is registered under.
pub open spec fn tool_name_of(t: Tool) -> Seq<char> {
    schema_of(t).name
}

/// The parameter schema of every tool is well formed: its property names
/// are unique and its required names are among them.
pub proof fn lemma_schema_wf(t: Tool)
    ensures
        schema_of(t).parameters.wf(),
{
    reveal_strlit("path");
    reveal_strlit("content");
    reveal_strlit("old_text");
    reveal_strlit("new_text");
    reveal_strlit("command");
    reveal_strlit("working_dir");
    match t {
        Tool::ReadFile(_) | Tool::ListDir(_) => {
            let v = schema_of(t).parameters;
            assert(v.property_names() =~= seq!["path"@]);
            assert(v.property_names().contains(v.required[0]));
        },
        Tool::WriteFile(_) => {
            let v = string_params(write_file_props(), seq!["path", "content"]);
            assert(v.property_names() =~= seq!["path"@, "content"@]);
            assert(v.property_names()[0].len() != v.property_names()[1].len());
            assert(v.property_names().contains(v.required[0]));
            assert(v.property_names().contains(v.required[1]));
        },
        Tool::EditFile(_) => {
            let v = string_params(edit_file_props(), seq!["path", "old_text", "new_text"]);
            let names = v.property_names();
            assert(names =~= seq!["path"@, "old_text"@, "new_text"@]);
            assert(names[0].len() != names[1].len());
            assert(names[0].len() != names[2].len());
            assert(names[1][0] != names[2][0]);
            assert(names.contains(v.required[0]));
            assert(names.contains(v.required[1]));
            assert(names.contains(v.required[2]));
        },
        Tool::Exec(_) => {
            let v = string_params(exec_props(), seq!["command"]);
            let names = v.property_names();
            assert(names =~= seq!["command"@, "working_dir"@]);
            assert(names[0].len() != names[1].len());
            assert(names.contains(v.required[0]));
        },
    }
}

impl Tool {
    /// The name this tool is registered under.
    pub fn name(&self) -> (r: &'static str)
        ensures
            r@ == tool_name_of(*self),
    {
        match self {
            Tool::ReadFile(t) => t.tool_name(),
            Tool::WriteFile(t) => t.tool_name(),
            Tool::EditFile(t) => t.tool_name(),
            Tool::ListDir(t) => t.tool_name(),
            Tool::Exec(t) => t.tool_name(),
        }
    }

    /// The schema of this tool.
    pub fn to_schema(&self) -> (r: ToolSchema)
        ensures
            r@ == schema_of(*self),
    {
        match self {
            Tool::ReadFile(t) => t.to_schema(),
            Tool::WriteFile(t) => t.to_schema(),
            Tool::EditFile(t) => t.to_schema(),
            Tool::ListDir(t) => t.to_schema(),
            Tool::Exec(t) => t.to_schema(),
        }
    }

    /// A handle on the same tool, to run it without holding the registry.
    pub fn duplicate(&self) -> (r: Self)
        ensures
            r == *self,
    {
        match self {
            Tool::ReadFile(t) => Tool::ReadFile(*t),
            Tool::WriteFile(t) => Tool::WriteFile(*t),
            Tool::EditFile(t) => Tool::EditFile(*t),
            Tool::ListDir(t) => Tool::ListDir(*t),
            Tool::Exec(t) => Tool::Exec(t.duplicate()),
        }
    }
}

/// No two tools share a name.
pub open spec fn names_unique(ts: Seq<Tool>) -> bool {
    forall|i: int, j: int|
        0 <= i < ts.len() && 0 <= j < ts.len() && i != j ==> tool_name_of(ts[i]) != tool_name_of(
            ts[j],
        )
}

/// The mapping from name to tool that a list of tools with unique names holds.
pub open spec fn tool_map(ts: Seq<Tool>) -> Map<Seq<char>, Tool> {
    Map::new(
        |k: Seq<char>| exists|i: int| 0 <= i < ts.len() && tool_name_of(ts[i]) == k,
        |k: Seq<char>| ts[choose|i: int| 0 <= i < ts.len() && tool_name_of(ts[i]) == k],
    )
}

proof fn lemma_tool_map_at(ts: Seq<Tool>, j: int)
    requires
        names_unique(ts),
        0 <= j < ts.len(),
    ensures
        tool_map(ts).contains_key(tool_name_of(ts[j])),
        tool_map(ts)[tool_name_of(ts[j])] == ts[j],
{
    let k = tool_name_of(ts[j]);
    assert(tool_map(ts).dom().contains(k));
    let i = choose|i: int| 0 <= i < ts.len() && tool_name_of(ts[i]) == k;
    assert(i == j);
}

/// `defs` are the definitions of the registered tools `m`: one per tool, each
/// the schema of the tool registered under its name.
pub open spec fn definitions_of(m: Map<Seq<char>, Tool>, defs: Seq<ToolSchemaView>) -> bool {
    &&& forall|i: int|
        0 <= i < defs.len() ==> m.contains_key(#[trigger] defs[i].name) && defs[i] == schema_of(
            m[defs[i].name],
        )
    &&& forall|k: Seq<char>|
        m.contains_key(k) ==> exists|i: int| 0 <= i < defs.len() && #[trigger] defs[i].name == k
    &&& defs.map_values(|d: ToolSchemaView| d.name).no_duplicates()
}

/// `Error: Tool '<name>' not found`
pub open spec fn tool_not_found(name: Seq<char>) -> Seq<char> {
    "Error: Tool '"@ + name + "' not found"@
}

/// Tells whether two texts are equal.
fn same_text(a: &str, b: &str) -> (r: bool)
    ensures
        r == (a@ == b@),
{
    String::from_str(a) == String::from_str(b)
}

/// The registered tools, each under its name; registering a tool whose
/// name is taken replaces the earlier one.
pub struct ToolRegistry {
    tools: Vec<Tool>,
}

impl ToolRegistry {
    /// The registered tools by name.
    pub closed spec fn tools(&self) -> Map<Seq<char>, Tool> {
        tool_map(self.tools@)
    }

    pub closed spec fn wf(&self) -> bool {
        names_unique(self.tools@)
    }

    /// A registry with no tools.
    pub fn new() -> (r: Self)
        ensures
            r.wf(),
            r.tools() == Map::<Seq<char>, Tool>::empty(),
    {
        let r = ToolRegistry { tools: Vec::new() };
        assert(r.tools() =~= Map::<Seq<char>, Tool>::empty());
        r
    }

    /// The position of the tool registered under `name`, if any.
    fn position(&self, name: &str) -> (r: Option<usize>)
        requires
            self.wf(),
        ensures
            match r {
                Some(i) => i < self.tools@.len() && tool_name_of(self.tools@[i as int]) == name@,
                None => forall|i: int|
                    0 <= i < self.tools@.len() ==> tool_name_of(self.tools@[i]) != name@,
            },
    {
        let mut i: usize = 0;
        while i < self.tools.len()
            invariant
                i <= self.tools@.len(),
                forall|j: int| 0 <= j < i ==> tool_name_of(self.tools@[j]) != name@,
            decreases self.tools@.len() - i,
        {
            if same_text(self.tools[i].name(), name) {
                return Some(i);
            }
            i = i + 1;
        }
        None
    }

    /// Registers `tool` under its name, replacing any tool registered there.
    pub fn register(&mut self, tool: Tool)
        requires
            old(self).wf(),
        ensures
            final(self).wf(),
            final(self).tools() == old(self).tools().insert(tool_name_of(tool), tool),
    {
        let ghost ts = self.tools@;
        let ghost k = tool_name_of(tool);
        match self.position(tool.name()) {
            Some(i) => {
                self.tools.set(i, tool);
                proof {
                    let ts2 = self.tools@;
                    assert(ts2 == ts.update(i as int, tool));
                    assert(names_unique(ts2));
                    assert forall|key: Seq<char>|
                        #[trigger] tool_map(ts2).contains_key(key) == tool_map(ts).insert(
                            k,
                            tool,
                        ).contains_key(key) by {
                        if tool_map(ts).contains_key(key) {
                            let j = choose|j: int| 0 <= j < ts.len() && tool_name_of(ts[j]) == key;
                            assert(tool_name_of(ts2[j]) == key);
                        }
                        if tool_map(ts2).contains_key(key) {
                            let j = choose|j: int|
                                0 <= j < ts2.len() && tool_name_of(ts2[j]) == key;
                            if j != i {
                                assert(tool_name_of(ts[j]) == key);
                            }
                        }
                    }
                    assert forall|key: Seq<char>| #[trigger]
                        tool_map(ts2).contains_key(key) implies tool_map(ts2)[key] == tool_map(
                            ts,
                        ).insert(k, tool)[key] by {
                        let j = choose|j: int| 0 <= j < ts2.len() && tool_name_of(ts2[j]) == key;
                        lemma_tool_map_at(ts2, j);
                        if j != i {
                            lemma_tool_map_at(ts, j);
                        }
                    }
                    assert(tool_map(ts2) =~= tool_map(ts).insert(k, tool));
                }
            },
            None => {
                self.tools.push(tool);
                proof {
                    let ts2 = self.tools@;
                    assert(ts2 == ts.push(tool));
                    assert(names_unique(ts2));
                    assert forall|key: Seq<char>|
                        #[trigger] tool_map(ts2).contains_key(key) == tool_map(ts).insert(
                            k,
                            tool,
                        ).contains_key(key) by {
                        if tool_map(ts).contains_key(key) {
                            let j = choose|j: int| 0 <= j < ts.len() && tool_name_of(ts[j]) == key;
                            assert(tool_name_of(ts2[j]) == key);
                        }
                        if key == k {
                            assert(tool_name_of(ts2[ts.len() as int]) == key);
                        }
                        if tool_map(ts2).contains_key(key) {
                            let j = choose|j: int|
                                0 <= j < ts2.len() && tool_name_of(ts2[j]) == key;
                            if j < ts.len() {
                                assert(tool_name_of(ts[j]) == key);
                            }
                        }
                    }
                    assert forall|key: Seq<char>| #[trigger]
                        tool_map(ts2).contains_key(key) implies tool_map(ts2)[key] == tool_map(
                            ts,
                        ).insert(k, tool)[key] by {
                        let j = choose|j: int| 0 <= j < ts2.len() && tool_name_of(ts2[j]) == key;
                        lemma_tool_map_at(ts2, j);
                        if j < ts.len() {
                            lemma_tool_map_at(ts, j);
                        }
                    }
                    assert(tool_map(ts2) =~= tool_map(ts).insert(k, tool));
                }
            },
        }
    }

    /// Removes the tool registered under `name`, if there is one.
    pub fn unregister(&mut self, name: &str)
        requires
            old(self).wf(),
        ensures
            final(self).wf(),
            final(self).tools() == old(self).tools().remove(name@),
    {
        let ghost ts = self.tools@;
        match self.position(name) {
            Some(i) => {
                self.tools.remove(i);
                proof {
                    let ts2 = self.tools@;
                    assert(ts2 == ts.remove(i as int));
                    assert forall|a: int, b: int|
                        0 <= a < ts2.len() && 0 <= b < ts2.len() && a != b implies tool_name_of(
                            ts2[a],
                        ) != tool_name_of(ts2[b]) by {
                        let a0 = if a < i { a } else { a + 1 };
                        let b0 = if b < i { b } else { b + 1 };
                        assert(ts2[a] == ts[a0] && ts2[b] == ts[b0]);
                    }
                    assert forall|key: Seq<char>|
                        #[trigger] tool_map(ts2).contains_key(key) == tool_map(ts).remove(
                            name@,
                        ).contains_key(key) by {
                        if tool_map(ts).contains_key(key) && key != name@ {
                            let j = choose|j: int| 0 <= j < ts.len() && tool_name_of(ts[j]) == key;
                            let j2 = if j < i { j } else { j - 1 };
                            assert(ts2[j2] == ts[j]);
                        }
                        if tool_map(ts2).contains_key(key) {
                            let j = choose|j: int|
                                0 <= j < ts2.len() && tool_name_of(ts2[j]) == key;
                            let j0 = if j < i { j } else { j + 1 };
                            assert(ts2[j] == ts[j0]);
                        }
                    }
                    assert forall|key: Seq<char>| #[trigger]
                        tool_map(ts2).contains_key(key) implies tool_map(ts2)[key] == tool_map(
                            ts,
                        ).remove(name@)[key] by {
                        let j = choose|j: int| 0 <= j < ts2.len() && tool_name_of(ts2[j]) == key;
                        let j0 = if j < i { j } else { j + 1 };
                        assert(ts2[j] == ts[j0]);
                        lemma_tool_map_at(ts2, j);
                        lemma_tool_map_at(ts, j0);
                    }
                    assert(tool_map(ts2) =~= tool_map(ts).remove(name@));
                }
            },
            None => {
                assert(tool_map(ts) =~= tool_map(ts).remove(name@));
            },
        }
    }

    /// Whether a tool is registered under `name`.
    pub fn has(&self, name: &str) -> (r: bool)
        requires
            self.wf(),
        ensures
            r == self.tools().contains_key(name@),
    {
        match self.position(name) {
            Some(i) => {
                assert(self.tools().dom().contains(name@));
                true
            },
            None => false,
        }
    }

    /// Same as [`ToolRegistry::has`].
    pub fn contains(&self, name: &str) -> (r: bool)
        requires
            self.wf(),
        ensures
            r == self.tools().contains_key(name@),
    {
        self.has(name)
    }

    /// The names of the registered tools, each once.
    pub fn tool_names(&self) -> (r: Vec<String>)
        requires
            self.wf(),
        ensures
            views(r@).no_duplicates(),
            forall|k: Seq<char>| views(r@).contains(k) <==> self.tools().contains_key(k),
    {
        let ghost ts = self.tools@;
        let mut r: Vec<String> = Vec::new();
        let mut i: usize = 0;
        while i < self.tools.len()
            invariant
                ts == self.tools@,
                names_unique(ts),
                i <= ts.len(),
                r@.len() == i,
                forall|j: int| 0 <= j < i ==> #[trigger] r@[j]@ == tool_name_of(ts[j]),
            decreases ts.len() - i,
        {
            r.push(String::from_str(self.tools[i].name()));
            i = i + 1;
        }
        proof {
            assert forall|k: Seq<char>| views(r@).contains(k) <==> self.tools().contains_key(
                k,
            ) by {
                if views(r@).contains(k) {
                    let j = choose|j: int| 0 <= j < views(r@).len() && views(r@)[j] == k;
                    assert(tool_name_of(ts[j]) == k);
                }
                if self.tools().contains_key(k) {
                    let j = choose|j: int| 0 <= j < ts.len() && tool_name_of(ts[j]) == k;
                    assert(views(r@)[j] == k);
                }
            }
        }
        r
    }

    /// The definitions of all registered tools, in no particular order.
    pub fn get_definitions(&self) -> (r: Vec<ToolSchema>)
        requires
            self.wf(),
        ensures
            definitions_of(self.tools(), r@.map_values(|s: ToolSchema| s@)),
    {
        let ghost ts = self.tools@;
        let mut r: Vec<ToolSchema> = Vec::new();
        let mut i: usize = 0;
        while i < self.tools.len()
            invariant
                ts == self.tools@,
                names_unique(ts),
                i <= ts.len(),
                r@.len() == i,
                forall|j: int| 0 <= j < i ==> #[trigger] r@[j]@ == schema_of(ts[j]),
            decreases ts.len() - i,
        {
            r.push(self.tools[i].to_schema());
            i = i + 1;
        }
        proof {
            let defs = r@.map_values(|s: ToolSchema| s@);
            assert forall|j: int| 0 <= j < defs.len() implies self.tools().contains_key(
                #[trigger] defs[j].name,
            ) && defs[j] == schema_of(self.tools()[defs[j].name]) by {
                lemma_tool_map_at(ts, j);
            }
            assert forall|k: Seq<char>| self.tools().contains_key(k) implies exists|j: int|
                0 <= j < defs.len() && #[trigger] defs[j].name == k by {
                let j = choose|j: int| 0 <= j < ts.len() && tool_name_of(ts[j]) == k;
                assert(defs[j].name == k);
            }
            let names = defs.map_values(|d: ToolSchemaView| d.name);
            assert forall|a: int, b: int|
                0 <= a < names.len() && 0 <= b < names.len() && a != b implies names[a]
                != names[b] by {
                assert(names[a] == tool_name_of(ts[a]));
                assert(names[b] == tool_name_of(ts[b]));
            }
        }
        r
    }

    /// The tool registered under `name`, as a handle to run it with; when
    /// there is none, the text that says so.
    pub fn dispatch(&self, name: &str) -> (r: Result<Tool, String>)
        requires
            self.wf(),
        ensures
            match r {
                Ok(t) => self.tools().contains_key(name@) && t == self.tools()[name@],
                Err(e) => !self.tools().contains_key(name@) && e@ == tool_not_found(name@),
            },
    {
        match self.position(name) {
            Some(i) => {
                proof {
                    lemma_tool_map_at(self.tools@, i as int);
                }
                Ok(self.tools[i].duplicate())
            },
            None => {
                let mut e = String::from_str("Error: Tool '");
                e.append(name);
                e.append("' not found");
                Err(e)
            },
        }
    }

    /// How many tools are registered.
    pub fn len(&self) -> (r: usize)
        requires
            self.wf(),
        ensures
            r == self.tools().dom().len(),
    {
        proof {
            self.lemma_count();
        }
        self.tools.len()
    }

    proof fn lemma_count(&self)
        requires
            self.wf(),
        ensures
            self.tools().dom().len() == self.tools@.len(),
    {
        let ts = self.tools@;
        let names = ts.map_values(|t: Tool| tool_name_of(t));
        assert(names.no_duplicates());
        names.unique_seq_to_set();
        assert(self.tools().dom() =~= names.to_set()) by {
            assert forall|k: Seq<char>| self.tools().dom().contains(k) implies names.to_set().contains(k) by {
                let j = choose|j: int| 0 <= j < ts.len() && tool_name_of(ts[j]) == k;
                assert(names[j] == k);
            }
        }
    }

    /// `ToolRegistry(tools=N)`.
    pub fn repr(&self) -> (r: String)
        requires
            self.wf(),
        ensures
            r@ == "ToolRegistry(tools="@ + decimal(self.tools().dom().len()) + ")"@,
    {
        let n = self.len();
        let mut r = String::from_str("ToolRegistry(tools=");
        r.append(decimal_string(n as u128).as_str());
        r.append(")");
        r
    }
}

/// Once a tool is registered, the definitions exported from the registry
/// hold one entry under its name; that entry is the tool's schema, and its
/// required parameters are among its properties.
pub proof fn lemma_registered_definition(
    before: Map<Seq<char>, Tool>,
    tool: Tool,
    defs: Seq<ToolSchemaView>,
)
    requires
        definitions_of(before.insert(tool_name_of(tool), tool), defs),
    ensures
        exists|i: int| 0 <= i < defs.len() && #[trigger] defs[i].name == tool_name_of(tool),
        forall|i: int|
            0 <= i < defs.len() && #[trigger] defs[i].name == tool_name_of(tool) ==> defs[i]
                == schema_of(tool) && defs[i].parameters.wf(),
{
    let m = before.insert(tool_name_of(tool), tool);
    assert(m.contains_key(tool_name_of(tool)));
    lemma_schema_wf(tool);
}

} // verus!
