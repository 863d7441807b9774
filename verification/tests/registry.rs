use merco_llmproxy::tools::{
    execute_tool, get_all_tools, get_tools_by_names, register_tool, ToolRegistry,
};
use merco_llmproxy::traits::{JsonSchema, Tool, ToolCallFunction};

type Executor = Box<dyn Fn(&str) -> Result<String, String> + Send + Sync>;

fn integer_fragment() -> serde_json::Value {
    let mut fragment = serde_json::Map::new();
    fragment.insert("type".to_string(), serde_json::Value::String("integer".to_string()));
    serde_json::Value::Object(fragment)
}

fn tool(name: &str, description: &str) -> Tool {
    Tool {
        name: name.to_string(),
        description: description.to_string(),
        parameters: JsonSchema {
            schema_type: "object".to_string(),
            properties: Some({
                let mut props = serde_json::Map::new();
                props.insert("a".to_string(), integer_fragment());
                props.insert("b".to_string(), integer_fragment());
                props
            }),
            required: Some(vec!["a".to_string(), "b".to_string()]),
        },
    }
}

fn add_executor() -> Executor {
    Box::new(|args| {
        let parsed: Result<serde_json::Value, _> = serde_json::from_str(args);
        match parsed {
            Ok(value) => {
                let a = value.get("a").and_then(|v| v.as_i64()).unwrap_or(0);
                let b = value.get("b").and_then(|v| v.as_i64()).unwrap_or(0);
                Ok((a + b).to_string())
            }
            Err(e) => Err(format!("Failed to parse arguments: {}", e)),
        }
    })
}

fn constant(answer: &'static str) -> Executor {
    Box::new(move |_| Ok(answer.to_string()))
}

#[test]
fn test_tool_registry() {
    let mut registry: ToolRegistry<Executor> = ToolRegistry::new();

    let add_tool = tool("add", "Add two numbers");
    registry.register(add_tool.clone(), add_executor());

    assert_eq!(registry.get_tools().len(), 1);
    assert_eq!(registry.get_tools()[0].name, "add");

    let result = registry.execute_tool("add", r#"{"a": 5, "b": 3}"#);
    assert_eq!(result, Ok("8".to_string()));

    let error = registry.execute_tool("multiply", r#"{"a": 5, "b": 3}"#);
    assert!(error.is_err());
}

#[test]
fn a_new_registry_is_empty() {
    let registry: ToolRegistry<Executor> = ToolRegistry::new();
    assert!(registry.get_tools().is_empty());
}

#[test]
fn later_registration_replaces_the_earlier() {
    let mut registry: ToolRegistry<Executor> = ToolRegistry::new();
    registry.register(tool("add", "first"), constant("1"));
    registry.register(tool("add", "second"), constant("2"));

    let tools = registry.get_tools();
    assert_eq!(tools.len(), 1);
    assert_eq!(tools[0].name, "add");
    assert_eq!(tools[0].description, "second");
    assert_eq!(registry.execute_tool("add", "{}"), Ok("2".to_string()));
}

#[test]
fn registration_keeps_other_entries() {
    let mut registry: ToolRegistry<Executor> = ToolRegistry::new();
    registry.register(tool("add", "adds"), constant("a"));
    registry.register(tool("mul", "multiplies"), constant("m"));
    registry.register(tool("add", "adds again"), constant("a2"));

    let mut names: Vec<String> = registry.get_tools().into_iter().map(|t| t.name).collect();
    names.sort();
    assert_eq!(names, vec!["add".to_string(), "mul".to_string()]);
    assert_eq!(registry.execute_tool("mul", "{}"), Ok("m".to_string()));
    assert_eq!(registry.execute_tool("add", "{}"), Ok("a2".to_string()));
}

#[test]
fn executing_a_missing_tool_says_not_found() {
    let empty: ToolRegistry<Executor> = ToolRegistry::new();
    assert_eq!(
        empty.execute_tool("missing", "{}"),
        Err("Tool 'missing' not found in registry".to_string())
    );

    let mut registry: ToolRegistry<Executor> = ToolRegistry::new();
    registry.register(tool("add", "adds"), add_executor());
    assert_eq!(
        registry.execute_tool("missing", "{}"),
        Err("Tool 'missing' not found in registry".to_string())
    );
}

#[test]
fn the_executor_error_comes_back_verbatim() {
    let mut registry: ToolRegistry<Executor> = ToolRegistry::new();
    registry.register(tool("add", "adds"), add_executor());
    let result = registry.execute_tool("add", "not json");
    match result {
        Err(e) => assert!(e.starts_with("Failed to parse arguments: ")),
        Ok(_) => panic!("expected the executor's error"),
    }
}

#[test]
fn execute_tool_call_runs_the_named_tool() {
    let mut registry: ToolRegistry<Executor> = ToolRegistry::new();
    registry.register(tool("add", "adds"), add_executor());
    let call = ToolCallFunction { name: "add".to_string(), arguments: r#"{"a":2,"b":40}"#.to_string() };
    assert_eq!(registry.execute_tool_call(&call), Ok("42".to_string()));
    let missing = ToolCallFunction { name: "sub".to_string(), arguments: "{}".to_string() };
    assert_eq!(
        registry.execute_tool_call(&missing),
        Err("Tool 'sub' not found in registry".to_string())
    );
}

#[test]
fn tools_by_names_follow_the_names_and_skip_unknown_ones() {
    let mut registry: ToolRegistry<Executor> = ToolRegistry::new();
    registry.register(tool("add", "adds"), constant("a"));
    registry.register(tool("mul", "multiplies"), constant("m"));
    registry.register(tool("neg", "negates"), constant("n"));

    let found = registry.get_tools_by_names(&["neg", "nope", "add", "neg"]);
    let names: Vec<&str> = found.iter().map(|t| t.name.as_str()).collect();
    assert_eq!(names, vec!["neg", "add", "neg"]);
    assert!(registry.get_tools_by_names(&[]).is_empty());
    assert!(registry.get_tools_by_names(&["nope"]).is_empty());
}

#[test]
fn listed_tools_keep_their_schema() {
    let mut registry: ToolRegistry<Executor> = ToolRegistry::new();
    registry.register(tool("add", "adds"), constant("a"));
    let tools = registry.get_tools();
    let properties = tools[0].parameters.properties.as_ref().unwrap();
    assert_eq!(properties.len(), 2);
    assert_eq!(properties.get("a"), Some(&integer_fragment()));
    assert_eq!(tools[0].parameters.required, Some(vec!["a".to_string(), "b".to_string()]));
    assert_eq!(tools[0].parameters.schema_type, "object");
}

#[test]
fn shared_registry_functions_work_on_a_locked_registry() {
    let mut registry: ToolRegistry<Executor> = ToolRegistry::new();
    register_tool(&mut registry, tool("add", "adds"), add_executor());
    register_tool(&mut registry, tool("mul", "multiplies"), constant("m"));

    assert_eq!(get_all_tools(Some(&registry)).len(), 2);
    let picked = get_tools_by_names(Some(&registry), &["mul", "zzz"]);
    assert_eq!(picked.len(), 1);
    assert_eq!(picked[0].name, "mul");
    assert_eq!(execute_tool(Ok(&registry), "add", r#"{"a":1,"b":2}"#), Ok("3".to_string()));
    assert_eq!(
        execute_tool(Ok(&registry), "missing", "{}"),
        Err("Tool 'missing' not found in registry".to_string())
    );
}

#[test]
fn shared_registry_functions_degrade_when_the_lock_fails() {
    assert!(get_all_tools::<Executor>(None).is_empty());
    assert!(get_tools_by_names::<Executor>(None, &["add"]).is_empty());
    assert_eq!(
        execute_tool::<Executor>(Err("poisoned lock".to_string()), "add", "{}"),
        Err("Failed to lock registry: poisoned lock".to_string())
    );
}
