use infrix::dispatch::{dispatch_table, EntryRole};
use infrix::schema::{build_event_schema_json, build_schema_json, calculate_selector, escape_json};
use infrix::shape_json::{
    build_rules_fragment_json, build_shape_set_json, json_string, ParsedRule, ParsedShape,
    RuleSetArgs, ShapeParam, ShapeSetArgs,
};
use infrix::shape_params::{expr_to_json_value, rust_type_to_shape_type, shape_accessors, AccessorKind, ParamExpr, ParamLit};
use infrix::shape_rules::{rule_from_attr, to_snake_case, validate_color, validate_name, validate_rules, validate_shape_set, RuleAttr};
use infrix::type_names::{extract_return_schema, rust_type_to_schema, rust_type_to_schema_str};

#[test]
fn test_calculate_selector() {
    let selector1 = calculate_selector("transfer");
    let selector2 = calculate_selector("balance_of");

    assert_ne!(selector1, selector2);

    // Same name should give same selector
    assert_eq!(selector1, calculate_selector("transfer"));
}

#[test]
fn test_contract_args_parse() {
    // Argument parsing of the contract attribute is done by the macro front end.
}

#[test]
fn test_rust_type_to_schema() {
    let cases = vec![
        ("i32", "i32"),
        ("i64", "i64"),
        ("u32", "u32"),
        ("u64", "u64"),
        ("bool", "bool"),
        ("String", "string"),
        ("u128", "u128"),
    ];
    for (input, expected) in cases {
        assert_eq!(rust_type_to_schema(input), expected, "for type {}", input);
    }
}

#[test]
fn test_build_schema_json() {
    let functions = vec![
        (
            "increment".into(),
            "mutable".into(),
            vec![],
            vec![("count".into(), "i32".into())],
            "Increments the counter.".into(),
        ),
        (
            "set".into(),
            "mutable".into(),
            vec![("value".into(), "i32".into())],
            vec![],
            String::new(),
        ),
    ];
    let events: Vec<(String, Vec<(String, String, bool)>)> = vec![];
    let json = build_schema_json("Counter", &functions, &events);

    assert!(json.contains("\"schema_version\": 1"));
    assert!(json.contains("\"name\": \"Counter\""));
    assert!(json.contains("\"name\": \"increment\""));
    assert!(json.contains("\"mutability\": \"mutable\""));
    assert!(json.contains("\"doc\": \"Increments the counter.\""));
    assert!(json.contains("\"name\": \"set\""));
    assert!(json.contains("\"type\":\"i32\""));
}

#[test]
fn test_build_schema_json_with_events() {
    let functions = vec![];
    let events = vec![(
        "Transfer".into(),
        vec![
            ("from".into(), "address".into(), true),
            ("to".into(), "address".into(), true),
            ("amount".into(), "u256".into(), false),
        ],
    )];
    let json = build_schema_json("Token", &functions, &events);

    assert!(json.contains("\"events\""));
    assert!(json.contains("\"name\": \"Transfer\""));
    assert!(json.contains("\"indexed\":true"));
    assert!(json.contains("\"indexed\":false"));
}

#[test]
fn test_escape_json() {
    assert_eq!(escape_json("hello"), "hello");
    assert_eq!(escape_json("hello \"world\""), "hello \\\"world\\\"");
    assert_eq!(escape_json("line1\nline2"), "line1\\nline2");
}

#[test]
fn test_build_event_schema_json() {
    let fields = vec![
        ("from".to_string(), "address".to_string(), true),
        ("to".to_string(), "address".to_string(), true),
        ("amount".to_string(), "u256".to_string(), false),
    ];
    let json = build_event_schema_json("Transfer", &fields);
    assert_eq!(
        json,
        "{\"name\":\"Transfer\",\"fields\":[\
         {\"name\":\"from\",\"type\":\"address\",\"indexed\":true},\
         {\"name\":\"to\",\"type\":\"address\",\"indexed\":true},\
         {\"name\":\"amount\",\"type\":\"u256\",\"indexed\":false}]}"
    );
    assert!(!json.contains('\n'), "must be single-line for NDJSON merging");
}

#[test]
fn schema_json_exact_layout() {
    let functions = vec![(
        "get".to_string(),
        "view".to_string(),
        vec![("k".to_string(), "u64".to_string())],
        vec![],
        String::new(),
    )];
    let events = vec![("E".to_string(), vec![("a".to_string(), "u8".to_string(), false)])];
    let json = build_schema_json("C", &functions, &events);
    assert_eq!(
        json,
        "{\n  \"schema_version\": 1,\n  \"name\": \"C\",\n  \"functions\": [\n    {\n      \"name\": \"get\",\n      \"mutability\": \"view\",\n      \"params\": [{\"name\":\"k\",\"type\":\"u64\"}],\n      \"returns\": []\n    }\n  ],\n  \"events\": [\n    {\n      \"name\": \"E\",\n      \"fields\": [{\"name\":\"a\",\"type\":\"u8\",\"indexed\":false}]\n    }\n  ]\n}"
    );
    let empty = build_schema_json("X", &[], &[]);
    assert_eq!(empty, "{\n  \"schema_version\": 1,\n  \"name\": \"X\",\n  \"functions\": [\n  ]\n}");
}

#[test]
fn event_schema_escapes_newlines() {
    let json = build_event_schema_json("A\nB", &[("x\"y".to_string(), "t".to_string(), true)]);
    assert_eq!(json, "{\"name\":\"A\\nB\",\"fields\":[{\"name\":\"x\\\"y\",\"type\":\"t\",\"indexed\":true}]}");
    assert!(!json.contains('\n'));
}

#[test]
fn selector_is_fnv1a() {
    assert_eq!(calculate_selector(""), 0x811c9dc5);
    assert_eq!(calculate_selector("a"), 0xe40c292c);
}

#[test]
fn type_names_map_to_schema_names() {
    assert_eq!(rust_type_to_schema("Vec < u8 >"), "bytes");
    assert_eq!(rust_type_to_schema("Option < u64 >"), "option<u64>");
    assert_eq!(rust_type_to_schema("Vec < Address >"), "array<Address>");
    assert_eq!(rust_type_to_schema("[u8 ; 32]"), "bytes32");
    assert_eq!(rust_type_to_schema(":: infrix_sdk :: infrix_types :: U256"), "u256");
    assert_eq!(rust_type_to_schema("MyType"), "MyType");
    assert_eq!(rust_type_to_schema_str("  String "), "string");
    assert_eq!(rust_type_to_schema_str("Address"), "address");
    assert_eq!(rust_type_to_schema_str("u8"), "u8");
}

#[test]
fn return_types_map_to_entries() {
    assert_eq!(extract_return_schema(None), vec![]);
    assert_eq!(extract_return_schema(Some("()")), vec![]);
    assert_eq!(extract_return_schema(Some("Self")), vec![]);
    assert_eq!(
        extract_return_schema(Some("Result < U256 , Error >")),
        vec![("result".to_string(), "u256".to_string())]
    );
    assert_eq!(extract_return_schema(Some("Result < () , Error >")), vec![]);
    assert_eq!(
        extract_return_schema(Some("u64")),
        vec![("result".to_string(), "u64".to_string())]
    );
}

fn param(name: &str, ty: &str, value: &str) -> ShapeParam {
    ShapeParam {
        name: name.into(),
        rust_type: ty.into(),
        shape_type: ty.into(),
        value_json: value.into(),
        description: None,
    }
}

#[test]
fn builds_deterministic_shape_json() {
    let shapes = vec![
        ParsedShape {
            name: "conservative".into(),
            description: Some("Low risk".into()),
            color: Some("green".into()),
            priority: Some(1),
            params: vec![param("ltv_ratio", "u64", "5000"), param("borrow_enabled", "bool", "true")],
        },
        ParsedShape {
            name: "growth".into(),
            description: None,
            color: Some("blue".into()),
            priority: None,
            params: vec![param("ltv_ratio", "u64", "7500"), param("borrow_enabled", "bool", "true")],
        },
    ];
    validate_shape_set(&shapes, "conservative").unwrap();
    let json = build_shape_set_json(
        "Lending",
        "conservative",
        &shapes,
        &ShapeSetArgs {
            cooldown_blocks: Some(5),
            ..ShapeSetArgs::default()
        },
    );
    assert_eq!(
        json,
        "{\"version\":1,\"contract_name\":\"Lending\",\"default_shape\":\"conservative\",\"shapes\":[{\"name\":\"conservative\",\"parameters\":[{\"name\":\"ltv_ratio\",\"type\":\"u64\",\"value\":5000},{\"name\":\"borrow_enabled\",\"type\":\"bool\",\"value\":true}],\"description\":\"Low risk\",\"color\":\"green\",\"priority\":1},{\"name\":\"growth\",\"parameters\":[{\"name\":\"ltv_ratio\",\"type\":\"u64\",\"value\":7500},{\"name\":\"borrow_enabled\",\"type\":\"bool\",\"value\":true}],\"color\":\"blue\"}],\"evolution_rules\":[],\"parameter_schema\":[{\"name\":\"ltv_ratio\",\"type\":\"u64\"},{\"name\":\"borrow_enabled\",\"type\":\"bool\"}],\"cooldown_blocks\":5}"
    );
}

#[test]
fn rejects_default_shape_that_is_not_declared() {
    let shapes = vec![ParsedShape {
        name: "alpha".into(),
        description: None,
        color: None,
        priority: None,
        params: vec![],
    }];
    let err = validate_shape_set(&shapes, "beta").unwrap_err();
    assert!(err.contains("default shape beta is not declared"));
}

#[test]
fn rejects_schema_mismatch() {
    let shapes = vec![
        ParsedShape {
            name: "alpha".into(),
            description: None,
            color: None,
            priority: None,
            params: vec![param("rate", "u64", "1")],
        },
        ParsedShape {
            name: "beta".into(),
            description: None,
            color: None,
            priority: None,
            params: vec![param("enabled", "bool", "true")],
        },
    ];
    let err = validate_shape_set(&shapes, "alpha").unwrap_err();
    assert!(err.contains("parameter schema mismatch"));
}

#[test]
fn builds_rule_fragment_json() {
    let rules = vec![ParsedRule {
        name: "grow".into(),
        description: Some("Move to growth".into()),
        condition: "env::price() > 200".into(),
        target_shape: "growth".into(),
        source_shapes: vec!["conservative".into()],
        priority: 0,
        duration_blocks: Some(5),
        enabled: true,
    }];
    validate_rules(&rules).unwrap();
    let json = build_rules_fragment_json(
        &rules,
        &RuleSetArgs {
            cooldown_blocks: Some(5),
            ..RuleSetArgs::default()
        },
    );
    assert_eq!(
        json,
        "{\"version\":1,\"evolution_rules\":[{\"name\":\"grow\",\"condition\":\"env::price() > 200\",\"target_shape\":\"growth\",\"priority\":0,\"enabled\":true,\"description\":\"Move to growth\",\"source_shapes\":[\"conservative\"],\"duration_blocks\":5}],\"cooldown_blocks\":5}"
    );
}

#[test]
fn escapes_json_strings() {
    assert_eq!(json_string("a\"b\\c\n"), "\"a\\\"b\\\\c\\n\"");
}

fn lending_shapes() -> Vec<ParsedShape> {
    let mut shapes = Vec::new();
    for (variant, description, color, ltv) in [
        ("Conservative", "Low-risk parameters", "green", "5000"),
        ("Growth", "Higher-growth parameters", "blue", "7500"),
    ] {
        let name = to_snake_case(variant);
        validate_name(&name, "shape", 32).unwrap();
        validate_color(color).unwrap();
        let ltv_type = rust_type_to_shape_type("u64").unwrap();
        let ltv_value = expr_to_json_value(&ParamExpr::Lit(ParamLit::Int(ltv.into())), &ltv_type).unwrap();
        let flag_type = rust_type_to_shape_type("bool").unwrap();
        let flag_value = expr_to_json_value(&ParamExpr::Lit(ParamLit::Bool(true)), &flag_type).unwrap();
        shapes.push(ParsedShape {
            name,
            description: Some(description.into()),
            color: Some(color.into()),
            priority: None,
            params: vec![
                ShapeParam {
                    name: "ltv_ratio".into(),
                    rust_type: "u64".into(),
                    shape_type: ltv_type,
                    value_json: ltv_value,
                    description: None,
                },
                ShapeParam {
                    name: "borrow_enabled".into(),
                    rust_type: "bool".into(),
                    shape_type: flag_type,
                    value_json: flag_value,
                    description: None,
                },
            ],
        });
    }
    shapes
}

#[test]
fn shapes_macro_emits_deterministic_runtime_json_and_accessors() {
    let shapes = lending_shapes();
    validate_shape_set(&shapes, "conservative").unwrap();
    let json = build_shape_set_json(
        "Lending",
        "conservative",
        &shapes,
        &ShapeSetArgs {
            contract_name: Some("Lending".into()),
            default_shape: Some("conservative".into()),
            evaluation_interval: Some(2),
            cooldown_blocks: None,
            max_transitions_per_day: Some(3),
        },
    );
    assert!(json.contains("\"contract_name\":\"Lending\""));
    assert!(json.contains("\"default_shape\":\"conservative\""));
    assert!(json.contains("\"name\":\"growth\""));
    assert!(json.contains("\"parameter_schema\":[{\"name\":\"ltv_ratio\",\"type\":\"u64\"},{\"name\":\"borrow_enabled\",\"type\":\"bool\"}]"));
    assert!(json.contains("\"evaluation_interval\":2"));
    assert!(json.contains("\"max_transitions_per_day\":3"));

    let accessors = shape_accessors(&shapes[0].params).unwrap();
    assert_eq!(accessors.len(), 2);
    assert_eq!(accessors[0].0, "ltv_ratio");
    assert_eq!(accessors[0].1, AccessorKind::U64);
    assert_eq!(shapes[0].params[0].value_json, "5000");
    assert_eq!(accessors[1].0, "borrow_enabled");
    assert_eq!(accessors[1].1, AccessorKind::Bool);
    assert_eq!(shapes[0].params[1].value_json, "true");
}

#[test]
fn evolution_rules_macro_emits_deterministic_rule_fragment() {
    let attr = RuleAttr {
        name: None,
        description: None,
        condition: Some("env::price() > 200".into()),
        target_shape: Some("growth".into()),
        source_shapes: vec!["conservative".into()],
        priority: Some(0),
        duration_blocks: Some(7),
        enabled: None,
    };
    let rule = rule_from_attr("grow_on_price", attr).unwrap();
    let rules = vec![rule];
    validate_rules(&rules).unwrap();
    let json = build_rules_fragment_json(
        &rules,
        &RuleSetArgs {
            evaluation_interval: None,
            cooldown_blocks: Some(5),
            max_transitions_per_day: None,
        },
    );
    assert!(json.contains("\"evolution_rules\""));
    assert!(json.contains("\"target_shape\":\"growth\""));
    assert!(json.contains("\"source_shapes\":[\"conservative\"]"));
    assert!(json.contains("\"duration_blocks\":7"));
    assert!(json.contains("\"cooldown_blocks\":5"));
    assert!(json.contains("\"name\":\"grow_on_price\""));
    assert!(json.contains("\"enabled\":true"));
}

#[test]
fn name_and_color_validation() {
    assert_eq!(validate_name("", "shape", 32).unwrap_err(), "shape name is empty");
    assert_eq!(
        validate_name("abcdef", "rule", 3).unwrap_err(),
        "rule name abcdef exceeds 3 characters"
    );
    assert_eq!(
        validate_name("Bad", "shape", 32).unwrap_err(),
        "invalid shape name Bad: must match [a-z_][a-z0-9_]*"
    );
    assert!(validate_name("_ok_1", "shape", 32).is_ok());
    assert_eq!(validate_color("pink").unwrap_err(), "invalid shape color: pink");
    assert!(validate_color("").is_ok());
    assert_eq!(to_snake_case("GrowOnPrice"), "grow_on_price");
}

#[test]
fn shape_set_duplicates_rejected() {
    let dup = vec![
        ParsedShape { name: "a".into(), description: None, color: None, priority: None, params: vec![] },
        ParsedShape { name: "a".into(), description: None, color: None, priority: None, params: vec![] },
    ];
    assert_eq!(validate_shape_set(&dup, "a").unwrap_err(), "duplicate shape name: a");
    let dup_param = vec![ParsedShape {
        name: "a".into(),
        description: None,
        color: None,
        priority: None,
        params: vec![param("x", "u64", "1"), param("x", "u64", "2")],
    }];
    assert_eq!(
        validate_shape_set(&dup_param, "a").unwrap_err(),
        "duplicate parameter name in shape a: x"
    );
    let short = vec![
        ParsedShape { name: "a".into(), description: None, color: None, priority: None, params: vec![param("x", "u64", "1")] },
        ParsedShape { name: "b".into(), description: None, color: None, priority: None, params: vec![] },
    ];
    assert_eq!(
        validate_shape_set(&short, "a").unwrap_err(),
        "shape b does not match the parameter schema"
    );
}

#[test]
fn rule_attribute_errors() {
    let mut attr = RuleAttr::default();
    attr.condition = Some("x".into());
    assert_eq!(
        rule_from_attr("f", attr).unwrap_err(),
        "#[rule] requires target = \"shape_name\""
    );
    let mut attr = RuleAttr::default();
    attr.target_shape = Some("g".into());
    attr.condition = Some("   ".into());
    assert_eq!(rule_from_attr("f", attr).unwrap_err(), "#[rule] condition cannot be empty");
    let rules = vec![
        ParsedRule {
            name: "r".into(),
            description: None,
            condition: "c".into(),
            target_shape: "t".into(),
            source_shapes: vec![],
            priority: 100,
            duration_blocks: None,
            enabled: true,
        },
        ParsedRule {
            name: "r".into(),
            description: None,
            condition: "c".into(),
            target_shape: "t".into(),
            source_shapes: vec![],
            priority: 100,
            duration_blocks: None,
            enabled: true,
        },
    ];
    assert_eq!(validate_rules(&rules).unwrap_err(), "duplicate evolution rule name: r");
}

#[test]
fn parameter_defaults_to_json() {
    assert_eq!(
        expr_to_json_value(&ParamExpr::Lit(ParamLit::Str("a\tb".into())), "string").unwrap(),
        "\"a\\tb\""
    );
    let bytes = ParamExpr::Array(vec![
        ParamExpr::Lit(ParamLit::Int("007".into())),
        ParamExpr::Lit(ParamLit::Int("255".into())),
    ]);
    assert_eq!(expr_to_json_value(&bytes, "bytes").unwrap(), "[7,255]");
    let too_big = ParamExpr::Array(vec![ParamExpr::Lit(ParamLit::Int("256".into()))]);
    assert_eq!(
        expr_to_json_value(&too_big, "bytes").unwrap_err(),
        "number too large to fit in target type"
    );
    assert_eq!(
        expr_to_json_value(&ParamExpr::Lit(ParamLit::Bool(true)), "u64").unwrap_err(),
        "numeric parameter requires an integer literal"
    );
    assert_eq!(
        expr_to_json_value(&ParamExpr::Other, "bool").unwrap_err(),
        "invalid default literal for bool parameter"
    );
    assert_eq!(
        rust_type_to_shape_type("f64").unwrap_err(),
        "unsupported shape parameter type: f64"
    );
    assert_eq!(rust_type_to_shape_type("& str").unwrap(), "string");
    assert_eq!(json_string("\u{1}"), "\"\\u0001\"");
}

#[test]
fn accessor_plan_dedups_and_rejects() {
    let params = vec![param("a", "u64", "1"), param("a", "i64", "2"), param("b", "string", "\"s\"")];
    let plan = shape_accessors(&params).unwrap();
    assert_eq!(plan.len(), 2);
    assert_eq!(plan[0].1, AccessorKind::U64);
    assert_eq!(plan[1].1, AccessorKind::Str);
    let bad = vec![param("c", "f32", "1")];
    assert_eq!(shape_accessors(&bad).unwrap_err(), "unsupported accessor parameter type: f32");
}

#[test]
fn dispatch_table_classifies_methods() {
    let methods: Vec<(&str, Vec<EntryRole>)> = vec![
        ("new", vec![EntryRole::Init]),
        ("increment", vec![EntryRole::Other, EntryRole::Call]),
        ("get", vec![EntryRole::View]),
        ("helper", vec![]),
    ];
    let t = dispatch_table(&methods);
    assert!(t.has_init);
    assert_eq!(t.calls, vec![(1usize, calculate_selector("increment"))]);
    assert_eq!(t.views, vec![(2usize, calculate_selector("get"))]);
    let none = dispatch_table(&[("get", vec![EntryRole::View])]);
    assert!(!none.has_init);
    assert!(none.calls.is_empty());
}

#[test]
fn mappable_type_texts() {
    assert!(infrix::type_names::schema_mappable_text("Option < u64 >"));
    assert!(infrix::type_names::schema_mappable_text("Vec<u8>"));
    assert!(infrix::type_names::schema_mappable_text("u64"));
    assert!(!infrix::type_names::schema_mappable_text("Option<"));
    assert!(!infrix::type_names::schema_mappable_text("Vec<é"));
    assert!(infrix::type_names::return_mappable_text(None));
    assert!(infrix::type_names::return_mappable_text(Some("Result<u64, Error>")));
    assert!(!infrix::type_names::return_mappable_text(Some("Vec<")));
}
