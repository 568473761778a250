use blockcell::error::Error;
use blockcell::json::JsonValue;
use blockcell::skill_dispatch::{
    dispatch_request, ArgumentSpec, DispatchArgument, DispatchRequest, SkillAction, SkillDecisionEngine, SkillExecution,
    StructuredSkillExecutor,
};

fn execution() -> SkillExecution {
    SkillExecution {
        runtime_kind: "python".to_string(),
        dispatch_kind: "argv".to_string(),
        summary_mode: "llm".to_string(),
        actions: vec![
            SkillAction {
                name: "search".to_string(),
                description: "Search AI news".to_string(),
                triggers: vec!["search".to_string()],
                arguments: vec![
                    (
                        "query".to_string(),
                        ArgumentSpec {
                            kind: "string".to_string(),
                            required: true,
                            description: "Search term".to_string(),
                            enum_values: vec![],
                        },
                    ),
                    (
                        "lang".to_string(),
                        ArgumentSpec {
                            kind: "string".to_string(),
                            required: false,
                            description: "Language".to_string(),
                            enum_values: vec!["en".to_string(), "zh".to_string()],
                        },
                    ),
                ],
                argv: vec!["--query".to_string(), "{query}".to_string(), "--n={limit}".to_string()],
            },
            SkillAction {
                name: "latest".to_string(),
                description: "Latest news".to_string(),
                triggers: vec![],
                arguments: vec![],
                argv: vec![],
            },
        ],
    }
}

fn arg(name: &str, value: JsonValue, text: &str) -> DispatchArgument {
    DispatchArgument { name: name.to_string(), value, json_text: text.to_string() }
}

fn skill_error(r: Result<blockcell::skill_dispatch::StructuredDispatchPlan, Error>) -> String {
    match r {
        Err(Error::Skill(m)) => m,
        other => panic!("unexpected {:?}", other),
    }
}

#[test]
fn dispatch_plan_expands_argv() {
    let d = DispatchRequest {
        method: Some("search".to_string()),
        arguments: vec![
            arg("query", JsonValue::Str("blockcell".to_string()), "\"blockcell\""),
            arg("limit", JsonValue::Number("5".to_string()), "5"),
        ],
    };
    let plan = StructuredSkillExecutor::build_dispatch_plan("news", &execution(), &d).unwrap();
    assert_eq!(plan.method_name, "search");
    assert_eq!(plan.argv, vec!["--query", "blockcell", "--n=5"]);
    assert_eq!(plan.arguments.len(), 2);
    let ctx = StructuredSkillExecutor::build_rhai_context(&plan);
    match ctx {
        JsonValue::Object(top) => {
            assert_eq!(top[0].0, "invocation");
            assert_eq!(top[0].1.get_str("method"), Some("search".to_string()));
        }
        other => panic!("unexpected {:?}", other),
    }
}

#[test]
fn dispatch_errors() {
    let ex = execution();
    let no_method = DispatchRequest { method: None, arguments: vec![] };
    assert_eq!(
        skill_error(StructuredSkillExecutor::build_dispatch_plan("news", &ex, &no_method)),
        "LLM did not return a 'method' field in JSON"
    );
    let unknown = DispatchRequest { method: Some("fetch".to_string()), arguments: vec![] };
    assert_eq!(
        skill_error(StructuredSkillExecutor::build_dispatch_plan("news", &ex, &unknown)),
        "Method 'fetch' not found in skill 'news' (available: search, latest)"
    );
    let missing = DispatchRequest { method: Some("search".to_string()), arguments: vec![] };
    assert_eq!(
        skill_error(StructuredSkillExecutor::build_dispatch_plan("news", &ex, &missing)),
        "Required argument 'query' missing for method 'search'"
    );
    let bad_enum = DispatchRequest {
        method: Some("search".to_string()),
        arguments: vec![
            arg("query", JsonValue::Str("q".to_string()), "\"q\""),
            arg("lang", JsonValue::Str("fr".to_string()), "\"fr\""),
        ],
    };
    assert_eq!(
        skill_error(StructuredSkillExecutor::build_dispatch_plan("news", &ex, &bad_enum)),
        "Argument 'lang' has invalid value 'fr' for method 'search'"
    );
    let ok_enum = DispatchRequest {
        method: Some("search".to_string()),
        arguments: vec![
            arg("query", JsonValue::Str("q".to_string()), "\"q\""),
            arg("lang", JsonValue::Str("zh".to_string()), "\"zh\""),
        ],
    };
    assert!(StructuredSkillExecutor::build_dispatch_plan("news", &ex, &ok_enum).is_ok());
    let non_string_enum = DispatchRequest {
        method: Some("search".to_string()),
        arguments: vec![
            arg("query", JsonValue::Str("q".to_string()), "\"q\""),
            arg("lang", JsonValue::Number("3".to_string()), "3"),
        ],
    };
    assert!(StructuredSkillExecutor::build_dispatch_plan("news", &ex, &non_string_enum).is_ok());
}

#[test]
fn skill_schema_and_choice() {
    let schema = SkillDecisionEngine::build_structured_skill_schema("news", &execution());
    assert_eq!(schema.get_str("skill"), Some("news".to_string()));
    assert_eq!(schema.get_str("runtime_kind"), Some("python".to_string()));
    assert_eq!(schema.get_str("dispatch_kind"), Some("argv".to_string()));
    assert_eq!(schema.get_str("summary_mode"), Some("llm".to_string()));
    let candidates = vec![
        ("weather".to_string(), "w".to_string()),
        ("news".to_string(), "n".to_string()),
        ("news_digest".to_string(), "d".to_string()),
    ];
    assert_eq!(
        SkillDecisionEngine::normalize_selected_skill_name("  news ", &candidates),
        Some("news".to_string())
    );
    assert_eq!(
        SkillDecisionEngine::normalize_selected_skill_name("use the weather skill", &candidates),
        Some("weather".to_string())
    );
    assert_eq!(
        SkillDecisionEngine::normalize_selected_skill_name("dig", &candidates),
        Some("news_digest".to_string())
    );
    assert_eq!(SkillDecisionEngine::normalize_selected_skill_name("   ", &candidates), None);
    assert_eq!(SkillDecisionEngine::normalize_selected_skill_name("xyz", &candidates), None);
}

#[test]
fn dispatch_request_reads_method_and_arguments() {
    let args = JsonValue::Object(vec![
        ("query".to_string(), JsonValue::Str("rust \"verus\"".to_string())),
        ("limit".to_string(), JsonValue::Number("5".to_string())),
        ("tags".to_string(), JsonValue::Array(vec![JsonValue::Bool(true), JsonValue::Null])),
        (
            "opts".to_string(),
            JsonValue::Object(vec![("b".to_string(), JsonValue::Number("2".to_string()))]),
        ),
    ]);
    let d = JsonValue::Object(vec![
        ("method".to_string(), JsonValue::Str("search".to_string())),
        ("arguments".to_string(), args),
    ]);
    let r = dispatch_request(&d);
    assert_eq!(r.method, Some("search".to_string()));
    let names: Vec<&str> = r.arguments.iter().map(|a| a.name.as_str()).collect();
    assert_eq!(names, vec!["query", "limit", "tags", "opts"]);
    let texts: Vec<&str> = r.arguments.iter().map(|a| a.json_text.as_str()).collect();
    assert_eq!(texts, vec!["\"rust \\\"verus\\\"\"", "5", "[true,null]", "{\"b\":2}"]);
}

#[test]
fn dispatch_request_without_arguments_object() {
    let d = JsonValue::Object(vec![
        ("method".to_string(), JsonValue::Number("1".to_string())),
        ("arguments".to_string(), JsonValue::Array(vec![])),
    ]);
    let r = dispatch_request(&d);
    assert_eq!(r.method, None);
    assert!(r.arguments.is_empty());
    let r = dispatch_request(&JsonValue::Null);
    assert_eq!(r.method, None);
    assert!(r.arguments.is_empty());
}

#[test]
fn method_decision_prompt_wraps_the_schema() {
    let p = SkillDecisionEngine::build_method_decision_prompt("查天气", "weather", &execution());
    let prefix = "你是技能调度器，请根据用户请求选择最合适的方法并构造参数。\n\n技能结构化 schema：\n{";
    let suffix = "}\n\n用户请求：查天气\n\n请严格输出 JSON，不要包含任何额外说明：\n{\"method\": \"方法名\", \"arguments\": {\"参数名\": \"参数值\"}}";
    assert!(p.starts_with(prefix));
    assert!(p.ends_with(suffix));
    assert!(p.contains("\"skill\":\"weather\""));
    assert!(!p.contains("\n  "));
}
