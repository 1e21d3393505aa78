use mcp_server::{JsonValue, Tool, ToolRegistry};

fn tool(name: &str, description: &str) -> Tool {
    Tool {
        name: name.to_string(),
        description: description.to_string(),
        input_schema: JsonValue::Null,
    }
}

#[test]
fn a_new_registry_is_empty() {
    let registry = ToolRegistry::new();
    assert_eq!(registry.len(), 0);
    assert!(registry.list().is_empty());
    assert!(registry.get("echo").is_none());
    assert!(!registry.contains("echo"));
}

#[test]
fn tools_are_listed_in_registration_order() {
    let mut registry = ToolRegistry::new();
    registry.register(tool("b", "second letter"));
    registry.register(tool("a", "first letter"));
    registry.register(tool("c", "third letter"));
    let names: Vec<&str> = registry.list().iter().map(|t| t.name.as_str()).collect();
    assert_eq!(names, vec!["b", "a", "c"]);
    assert_eq!(registry.len(), 3);
}

#[test]
fn registering_a_name_again_overwrites_in_place() {
    let mut registry = ToolRegistry::new();
    registry.register(tool("a", "one"));
    registry.register(tool("b", "two"));
    registry.register(tool("a", "three"));
    assert_eq!(registry.len(), 2);
    let listed: Vec<(&str, &str)> = registry
        .list()
        .iter()
        .map(|t| (t.name.as_str(), t.description.as_str()))
        .collect();
    assert_eq!(listed, vec![("a", "three"), ("b", "two")]);
    assert_eq!(registry.get("a").unwrap().description, "three");
}

#[test]
fn get_finds_by_exact_name() {
    let mut registry = ToolRegistry::new();
    registry.register(tool("echo", "says it again"));
    assert_eq!(registry.get("echo").unwrap().description, "says it again");
    assert!(registry.get("Echo").is_none());
    assert!(registry.get("ech").is_none());
    assert!(registry.get("echo ").is_none());
    assert!(registry.contains("echo"));
    assert!(!registry.contains(""));
}

#[test]
fn the_schema_is_kept_as_it_was_given() {
    let schema = JsonValue::Array(vec![JsonValue::Bool(true), JsonValue::Null]);
    let mut registry = ToolRegistry::new();
    registry.register(Tool {
        name: "odd".to_string(),
        description: String::new(),
        input_schema: schema.clone(),
    });
    assert_eq!(registry.get("odd").unwrap().input_schema, schema);
}
