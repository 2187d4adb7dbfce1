use debot_core::filesystem::{EditFileTool, ListDirTool, ReadFileTool, WriteFileTool};
use debot_core::registry::{Tool, ToolRegistry};
use debot_core::schema::{int_prop, object_schema, string_prop, ParameterSchema, ToolSchema};
use debot_core::shell::ExecTool;
use debot_core::text::{count_occurrences, decimal_string, is_blank, signed_decimal_string};

fn full_registry() -> ToolRegistry {
    let mut r = ToolRegistry::new();
    r.register(Tool::ReadFile(ReadFileTool::new()));
    r.register(Tool::WriteFile(WriteFileTool::new()));
    r.register(Tool::EditFile(EditFileTool::new()));
    r.register(Tool::ListDir(ListDirTool::new()));
    r.register(Tool::Exec(ExecTool::new(60, None)));
    r
}

#[test]
fn execute_unknown_tool_reports_not_found() {
    let r = full_registry();
    match r.dispatch("nonexistent") {
        Err(text) => assert_eq!(text, "Error: Tool 'nonexistent' not found"),
        Ok(_) => panic!("no such tool"),
    }
}

#[test]
fn register_replaces_same_name() {
    let mut r = full_registry();
    assert_eq!(r.len(), 5);
    r.register(Tool::Exec(ExecTool::new(5, Some("/w".into()))));
    assert_eq!(r.len(), 5);
    match r.dispatch("exec") {
        Ok(Tool::Exec(t)) => {
            assert_eq!(t.timeout_secs, 5);
            assert_eq!(t.working_dir, Some("/w".to_string()));
        }
        _ => panic!("exec is registered"),
    }
}

#[test]
fn unregister_removes_only_that_name() {
    let mut r = full_registry();
    r.unregister("read_file");
    assert!(!r.has("read_file"));
    assert!(r.has("write_file"));
    assert!(r.contains("exec"));
    r.unregister("missing");
    assert_eq!(r.len(), 4);
    assert_eq!(r.repr(), "ToolRegistry(tools=4)");
}

#[test]
fn tool_names_lists_each_once() {
    let r = full_registry();
    let mut names = r.tool_names();
    names.sort();
    assert_eq!(names, vec!["edit_file", "exec", "list_dir", "read_file", "write_file"]);
}

fn parse_definition(d: &ToolSchema) -> serde_json::Value {
    serde_json::from_str(&d.to_dict()).expect("definition is JSON")
}

#[test]
fn definitions_round_trip_required_subset_of_properties() {
    let r = full_registry();
    let defs = r.get_definitions();
    assert_eq!(defs.len(), 5);
    for name in ["read_file", "write_file", "edit_file", "list_dir", "exec"] {
        let d = defs.iter().find(|d| d.name == name).expect("registered");
        let v = parse_definition(d);
        assert_eq!(v["type"], "function");
        assert_eq!(v["function"]["name"], name);
        let params = &v["function"]["parameters"];
        assert_eq!(params["type"], "object");
        let props = params["properties"].as_object().unwrap();
        for req in params["required"].as_array().unwrap() {
            assert!(props.contains_key(req.as_str().unwrap()));
        }
    }
}

#[test]
fn exec_definition_text() {
    let s = ExecTool::new(60, None).to_schema();
    assert_eq!(
        s.to_dict(),
        "{\"type\":\"function\",\"function\":{\"name\":\"exec\",\"description\":\"Execute a shell command and return its output. Use with caution.\",\"parameters\":{\"type\":\"object\",\"properties\":{\"command\":{\"type\":\"string\",\"description\":\"The shell command to execute\"},\"working_dir\":{\"type\":\"string\",\"description\":\"Optional working directory for the command\"}},\"required\":[\"command\"]}}}"
    );
}

#[test]
fn schema_json_escapes_text() {
    let params = object_schema(vec![("n".to_string(), int_prop("a \"count\""))], vec!["n".to_string()]);
    assert_eq!(
        params.to_json(),
        "{\"type\":\"object\",\"properties\":{\"n\":{\"type\":\"integer\",\"description\":\"a \\\"count\\\"\"}},\"required\":[\"n\"]}"
    );
    let s = ToolSchema { name: "t".into(), description: "d".into(), parameters: params };
    assert_eq!(s.get_parameters().required, vec!["n".to_string()]);
    let p: ParameterSchema = object_schema(vec![("p".to_string(), string_prop("x"))], vec![]);
    assert_eq!(p.properties[0].1.json_type, "string");
}

#[test]
fn text_helpers() {
    assert_eq!(decimal_string(0), "0");
    assert_eq!(decimal_string(1234567890), "1234567890");
    assert_eq!(signed_decimal_string(-7), "-7");
    assert!(is_blank(" \t\n\u{3000}"));
    assert!(!is_blank(" x "));
    let s: Vec<char> = "abab ab".chars().collect();
    let p: Vec<char> = "ab".chars().collect();
    assert_eq!(count_occurrences(&s, &p), 3);
}

#[test]
fn schema_json_escapes_control_characters() {
    let params = object_schema(vec![("k".to_string(), string_prop("a\tb\n\u{1}\\"))], vec![]);
    assert_eq!(
        params.to_json(),
        "{\"type\":\"object\",\"properties\":{\"k\":{\"type\":\"string\",\"description\":\"a\\tb\\n\\u0001\\\\\"}},\"required\":[]}"
    );
}
