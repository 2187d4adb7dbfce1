//! Tool schemas: a tool's name, description and parameter shape, and their
//! rendering as a function-calling definition in JSON.

use vstd::prelude::*;
use crate::text::{join, join_strings, views};

verus! {

/// The shape of one parameter: its JSON type and what it means.
#[derive(Clone, Debug)]
pub struct PropSchema {
    pub json_type: String,
    pub description: String,
}

pub struct PropSchemaView {
    pub json_type: Seq<char>,
    pub description: Seq<char>,
}

impl View for PropSchema {
    type V = PropSchemaView;

    open spec fn view(&self) -> PropSchemaView {
        PropSchemaView { json_type: self.json_type@, description: self.description@ }
    }
}

/// The parameters of a tool as a JSON-schema object: its properties by name,
/// and the names that must be given.
#[derive(Clone, Debug)]
pub struct ParameterSchema {
    pub properties: Vec<(String, PropSchema)>,
    pub required: Vec<String>,
}

pub struct ParameterSchemaView {
    pub properties: Seq<(Seq<char>, PropSchemaView)>,
    pub required: Seq<Seq<char>>,
}

impl ParameterSchemaView {
    pub open spec fn property_names(self) -> Seq<Seq<char>> {
        self.properties.map_values(|p: (Seq<char>, PropSchemaView)| p.0)
    }

    /// Property names are unique and every required name is a property.
    pub open spec fn wf(self) -> bool {
        &&& self.property_names().no_duplicates()
        &&& forall|i: int|
            0 <= i < self.required.len() ==> self.property_names().contains(
                #[trigger] self.required[i],
            )
    }
}

impl View for ParameterSchema {
    type V = ParameterSchemaView;

    open spec fn view(&self) -> ParameterSchemaView {
        ParameterSchemaView {
            properties: self.properties@.map_values(
                |p: (String, PropSchema)| (p.0@, p.1@),
            ),
            required: views(self.required@),
        }
    }
}

/// A tool's portable description.
#[derive(Clone, Debug)]
pub struct ToolSchema {
    pub name: String,
    pub description: String,
    pub parameters: ParameterSchema,
}

pub struct ToolSchemaView {
    pub name: Seq<char>,
    pub description: Seq<char>,
    pub parameters: ParameterSchemaView,
}

impl View for ToolSchema {
    type V = ToolSchemaView;

    open spec fn view(&self) -> ToolSchemaView {
        ToolSchemaView {
            name: self.name@,
            description: self.description@,
            parameters: self.parameters@,
        }
    }
}

/// A string parameter with the given description.
pub fn string_prop(description: &str) -> (r: PropSchema)
    ensures
        r@ == (PropSchemaView { json_type: "string"@, description: description@ }),
{
    PropSchema { json_type: String::from_str("string"), description: String::from_str(description) }
}

/// An integer parameter with the given description.
pub fn int_prop(description: &str) -> (r: PropSchema)
    ensures
        r@ == (PropSchemaView { json_type: "integer"@, description: description@ }),
{
    PropSchema { json_type: String::from_str("integer"), description: String::from_str(description) }
}

/// An object schema over the given properties and required names.
pub fn object_schema(properties: Vec<(String, PropSchema)>, required: Vec<String>) -> (r:
    ParameterSchema)
    requires
        (ParameterSchema { properties, required })@.wf(),
    ensures
        r@ == (ParameterSchema { properties, required })@,
        r@.wf(),
{
    ParameterSchema { properties, required }
}

/// An object schema whose properties are all strings, from (name,
/// description) pairs and the required names.
pub open spec fn string_params(props: Seq<(&str, &str)>, required: Seq<&str>) -> ParameterSchemaView {
    ParameterSchemaView {
        properties: props.map_values(
            |p: (&str, &str)| (p.0@, PropSchemaView { json_type: "string"@, description: p.1@ }),
        ),
        required: required.map_values(|s: &str| s@),
    }
}

/// Builds the object schema of string properties described by [`string_params`].
pub fn string_schema(props: &Vec<(&str, &str)>, required: &Vec<&str>) -> (r: ParameterSchema)
    requires
        string_params(props@, required@).wf(),
    ensures
        r@ == string_params(props@, required@),
{
    let ghost want = string_params(props@, required@);
    let mut properties: Vec<(String, PropSchema)> = Vec::new();
    let mut i: usize = 0;
    while i < props.len()
        invariant
            i <= props@.len(),
            want == string_params(props@, required@),
            properties@.map_values(|p: (String, PropSchema)| (p.0@, p.1@)) =~= want.properties.subrange(
                0,
                i as int,
            ),
        decreases props@.len() - i,
    {
        let ghost before = properties@;
        let entry = (String::from_str(props[i].0), string_prop(props[i].1));
        properties.push(entry);
        proof {
            let f = |p: (String, PropSchema)| (p.0@, p.1@);
            assert(properties@.map_values(f) =~= before.map_values(f).push(f(entry)));
            assert(want.properties.subrange(0, i + 1) =~= want.properties.subrange(0, i as int).push(
                want.properties[i as int],
            ));
        }
        i = i + 1;
    }
    let mut names: Vec<String> = Vec::new();
    let mut j: usize = 0;
    while j < required.len()
        invariant
            j <= required@.len(),
            want == string_params(props@, required@),
            views(names@) =~= want.required.subrange(0, j as int),
        decreases required@.len() - j,
    {
        let ghost before = names@;
        let name = String::from_str(required[j]);
        names.push(name);
        proof {
            assert(views(names@) =~= views(before).push(name@));
            assert(want.required.subrange(0, j + 1) =~= want.required.subrange(0, j as int).push(
                want.required[j as int],
            ));
        }
        j = j + 1;
    }
    assert(want.properties.subrange(0, props@.len() as int) =~= want.properties);
    assert(want.required.subrange(0, required@.len() as int) =~= want.required);
    ParameterSchema { properties, required: names }
}

/// A lowercase hexadecimal digit.
pub open spec fn hex_digit(d: nat) -> char {
    seq!['0', '1', '2', '3', '4', '5', '6', '7', '8', '9', 'a', 'b', 'c', 'd', 'e', 'f'][d as int]
}

/// How one character stands inside a JSON string: quote and backslash
/// behind a backslash, the usual short escapes, `\u00XX` for the other
/// control characters, anything else as it is.
pub open spec fn json_escaped_char(c: char) -> Seq<char> {
    let u = c as u32;
    if c == '"' {
        seq!['\\', '"']
    } else if c == '\\' {
        seq!['\\', '\\']
    } else if u == 0x08 {
        seq!['\\', 'b']
    } else if u == 0x09 {
        seq!['\\', 't']
    } else if u == 0x0a {
        seq!['\\', 'n']
    } else if u == 0x0c {
        seq!['\\', 'f']
    } else if u == 0x0d {
        seq!['\\', 'r']
    } else if u < 0x20 {
        seq!['\\', 'u', '0', '0', hex_digit((u / 16) as nat), hex_digit((u % 16) as nat)]
    } else {
        seq![c]
    }
}

/// The characters of `s`, each escaped for a JSON string.
pub open spec fn json_escaped(s: Seq<char>) -> Seq<char>
    decreases s.len(),
{
    if s.len() == 0 {
        Seq::empty()
    } else {
        json_escaped(s.drop_last()) + json_escaped_char(s.last())
    }
}

/// What serde_json writes for a string: the escaped text between quotes.
pub open spec fn json_string(s: Seq<char>) -> Seq<char> {
    seq!['"'] + json_escaped(s) + seq!['"']
}

/// Relies on serde_json::to_string on a `str` (`format_escaped_str`): the
/// text between quotes, escaped as [`json_escaped_char`] says; writing a
/// string into memory does not fail.
#[verifier::external_body]
fn json_quote(s: &str) -> (r: String)
    ensures
        r@ == json_string(s@),
{
    match serde_json::to_string(s) {
        Ok(t) => t,
        Err(_) => String::new(),
    }
}

/// `"name":{"type":...,"description":...}`
pub open spec fn property_json(p: (Seq<char>, PropSchemaView)) -> Seq<char> {
    json_string(p.0) + ":{\"type\":"@ + json_string(p.1.json_type) + ",\"description\":"@
        + json_string(p.1.description) + "}"@
}

/// The JSON-schema object of the parameters.
pub open spec fn parameters_json(s: ParameterSchemaView) -> Seq<char> {
    "{\"type\":\"object\",\"properties\":{"@ + join(
        s.properties.map_values(|p: (Seq<char>, PropSchemaView)| property_json(p)),
        ","@,
    ) + "},\"required\":["@ + join(
        s.required.map_values(|r: Seq<char>| json_string(r)),
        ","@,
    ) + "]}"@
}

/// The function-calling definition of a tool.
pub open spec fn definition_json(s: ToolSchemaView) -> Seq<char> {
    "{\"type\":\"function\",\"function\":{\"name\":"@ + json_string(s.name)
        + ",\"description\":"@ + json_string(s.description) + ",\"parameters\":"@
        + parameters_json(s.parameters) + "}}"@
}

impl ParameterSchema {
    /// The parameters as a JSON-schema object.
    pub fn to_json(&self) -> (r: String)
        ensures
            r@ == parameters_json(self@),
    {
        let ghost pv = self@.properties.map_values(
            |p: (Seq<char>, PropSchemaView)| property_json(p),
        );
        let mut props: Vec<String> = Vec::new();
        let mut i: usize = 0;
        while i < self.properties.len()
            invariant
                i <= self.properties@.len(),
                pv == self@.properties.map_values(
                    |p: (Seq<char>, PropSchemaView)| property_json(p),
                ),
                views(props@) =~= pv.subrange(0, i as int),
            decreases self.properties@.len() - i,
        {
            let (name, p) = (&self.properties[i].0, &self.properties[i].1);
            let mut s = json_quote(name.as_str());
            s.append(":{\"type\":");
            s.append(json_quote(p.json_type.as_str()).as_str());
            s.append(",\"description\":");
            s.append(json_quote(p.description.as_str()).as_str());
            s.append("}");
            let ghost before = props@;
            props.push(s);
            proof {
                assert(self@.properties[i as int] == (name@, p@));
                assert(pv[i as int] == property_json(self@.properties[i as int]));
                assert(s@ =~= pv[i as int]);
                assert(views(props@) =~= views(before).push(pv[i as int]));
                assert(pv.subrange(0, i + 1) =~= pv.subrange(0, i as int).push(pv[i as int]));
            }
            i = i + 1;
        }
        let ghost rv = self@.required.map_values(|r: Seq<char>| json_string(r));
        let mut reqs: Vec<String> = Vec::new();
        let mut j: usize = 0;
        while j < self.required.len()
            invariant
                j <= self.required@.len(),
                rv == self@.required.map_values(|r: Seq<char>| json_string(r)),
                views(reqs@) =~= rv.subrange(0, j as int),
            decreases self.required@.len() - j,
        {
            let ghost before = reqs@;
            let q = json_quote(self.required[j].as_str());
            proof {
                assert(self@.required[j as int] == self.required@[j as int]@);
                assert(q@ == rv[j as int]);
            }
            reqs.push(q);
            proof {
                assert(views(reqs@) =~= views(before).push(rv[j as int]));
                assert(rv.subrange(0, j + 1) =~= rv.subrange(0, j as int).push(rv[j as int]));
            }
            j = j + 1;
        }
        assert(views(props@) =~= pv);
        assert(views(reqs@) =~= rv);
        let mut r = String::from_str("{\"type\":\"object\",\"properties\":{");
        r.append(join_strings(&props, ",").as_str());
        r.append("},\"required\":[");
        r.append(join_strings(&reqs, ",").as_str());
        r.append("]}");
        r
    }
}

impl ToolSchema {
    /// The definition in the function-calling format:
    /// `{"type":"function","function":{"name":...,"description":...,"parameters":...}}`.
    pub fn to_dict(&self) -> (r: String)
        ensures
            r@ == definition_json(self@),
    {
        let mut r = String::from_str("{\"type\":\"function\",\"function\":{\"name\":");
        r.append(json_quote(self.name.as_str()).as_str());
        r.append(",\"description\":");
        r.append(json_quote(self.description.as_str()).as_str());
        r.append(",\"parameters\":");
        r.append(self.parameters.to_json().as_str());
        r.append("}}");
        r
    }

    /// The parameters of the schema.
    pub fn get_parameters(&self) -> (r: &ParameterSchema)
        ensures
            r@ == self.parameters@,
    {
        &self.parameters
    }
}

} // verus!
