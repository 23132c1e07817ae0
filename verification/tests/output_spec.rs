use lens::{
    InteractivityMode, LensError, LensOutputSpec, Loaded, OutputDefinition, OutputErrorMode,
    RenderBlock, RenderBlockType, OUTPUT_SPEC_FILENAME,
};
use std::path::PathBuf;

fn json(text: &str) -> serde_json::Value {
    serde_json::from_str(text).unwrap()
}

fn block(block_type: RenderBlockType) -> RenderBlock {
    RenderBlock { block_type, title: None, source: None, options: serde_json::Value::Null }
}

fn definition(key: &str, title: &str) -> OutputDefinition {
    OutputDefinition {
        key: key.to_string(),
        title: title.to_string(),
        description: String::new(),
        payload_schema: json("{}"),
        render_blocks: vec![block(RenderBlockType::Notice)],
        interactivity: InteractivityMode::default(),
        required_fields: vec![],
        error_modes: vec![],
        examples: vec![json(r#"{"ok": true}"#)],
    }
}

fn contract(lens_id: &str, outputs: Vec<OutputDefinition>) -> LensOutputSpec {
    LensOutputSpec { lens_id: lens_id.to_string(), outputs }
}

fn invalid_input(result: Result<(), LensError>) -> String {
    match result {
        Err(LensError::InvalidInput(message)) => message,
        other => panic!("Expected InvalidInput, got {:?}", other),
    }
}

fn result_spec() -> LensOutputSpec {
    contract(
        "test",
        vec![OutputDefinition {
            payload_schema: json(
                r#"{"type": "object", "properties": {"status": {"type": "string"}, "data": {"type": "object"}}}"#,
            ),
            render_blocks: vec![block(RenderBlockType::JsonView)],
            required_fields: vec!["status".to_string()],
            examples: vec![json(r#"{"status": "ok", "data": {}}"#)],
            ..definition("result", "Result")
        }],
    )
}

#[test]
fn test_parse_and_validate_output_spec() {
    let written = contract(
        "figma",
        vec![OutputDefinition {
            key: "phase_0_tokens".to_string(),
            title: "Design Tokens".to_string(),
            description: "Extracted tokens from design".to_string(),
            payload_schema: json(
                r#"{"type": "object", "properties": {"colors": {"type": "array"}}}"#,
            ),
            render_blocks: vec![
                RenderBlock {
                    title: Some("Tokens".to_string()),
                    ..block(RenderBlockType::Header)
                },
                RenderBlock {
                    source: Some("colors".to_string()),
                    ..block(RenderBlockType::Table)
                },
            ],
            interactivity: InteractivityMode::NoInteraction,
            required_fields: vec!["colors".to_string()],
            error_modes: vec![OutputErrorMode {
                code: "INVALID_TOKEN".to_string(),
                message: "Token extraction failed".to_string(),
                recoverable: true,
            }],
            examples: vec![json(r#"{"colors": []}"#)],
        }],
    );

    let spec = LensOutputSpec::from_yaml(Ok(written)).unwrap();
    assert_eq!(spec.lens_id, "figma");
    assert_eq!(spec.outputs.len(), 1);
    assert_eq!(spec.outputs[0].key, "phase_0_tokens");
    assert_eq!(spec.outputs[0].render_blocks.len(), 2);
}

#[test]
fn test_reject_duplicate_keys() {
    let written =
        contract("test", vec![definition("duplicate", "One"), definition("duplicate", "Two")]);
    let err = LensOutputSpec::from_yaml(Ok(written)).unwrap_err();
    assert!(err.to_string().contains("duplicate output key"));
}

#[test]
fn test_validate_payload_required_fields() {
    let spec = LensOutputSpec::from_yaml(Ok(result_spec())).unwrap();
    spec.validate_payload("result", &json(r#"{"status":"ok","data":{}}"#)).unwrap();

    let err = spec.validate_payload("result", &json(r#"{"data":{}}"#)).unwrap_err();
    assert!(err.to_string().contains("missing required field"));
}

#[test]
fn test_reject_missing_examples() {
    let written = contract(
        "test",
        vec![OutputDefinition { examples: vec![], ..definition("no_examples", "No Examples") }],
    );
    let err = LensOutputSpec::from_yaml(Ok(written)).unwrap_err();
    assert!(err.to_string().contains("must include at least one example payload"));
}

#[test]
fn test_output_spec_file_name() {
    assert_eq!(OUTPUT_SPEC_FILENAME, "lens.output.yaml");
}

#[test]
fn test_contract_faults_in_order() {
    let faulty = contract(" ", vec![]);
    assert_eq!(invalid_input(faulty.validate()), "lens.output.yaml: lens_id is required");

    let faulty = contract("figma", vec![]);
    assert_eq!(
        invalid_input(faulty.validate()),
        "lens.output.yaml for 'figma' must declare at least one output"
    );

    let faulty = contract("figma", vec![definition("ok", "Fine"), definition("  ", "Blank")]);
    assert_eq!(
        invalid_input(faulty.validate()),
        "lens.output.yaml for 'figma': output key cannot be empty"
    );

    let faulty = contract(
        "figma",
        vec![definition("a", "A"), definition("b", "B"), definition("a", "Again")],
    );
    assert_eq!(
        invalid_input(faulty.validate()),
        "lens.output.yaml for 'figma': duplicate output key 'a'"
    );
}

#[test]
fn test_earlier_fault_is_reported_before_a_duplicate_key() {
    let faulty = contract(
        "figma",
        vec![definition("a", ""), definition("b", "B"), definition("b", "Again")],
    );
    assert_eq!(
        invalid_input(faulty.validate()),
        "lens.output.yaml for 'figma': output 'a' must have a non-empty title"
    );
    // The repetition is still what makes the rest of the contract invalid.
    let faulty = contract(
        "figma",
        vec![definition("a", "A"), definition("b", "B"), definition("b", "")],
    );
    assert_eq!(
        invalid_input(faulty.validate()),
        "lens.output.yaml for 'figma': duplicate output key 'b'"
    );
}

#[test]
fn test_definition_faults() {
    let check = |definition: OutputDefinition| invalid_input(definition.validate("figma"));

    assert_eq!(
        check(definition("tokens", " \t")),
        "lens.output.yaml for 'figma': output 'tokens' must have a non-empty title"
    );
    assert_eq!(
        check(OutputDefinition { render_blocks: vec![], ..definition("tokens", "Tokens") }),
        "lens.output.yaml for 'figma': output 'tokens' must include at least one render block"
    );
    assert_eq!(
        check(OutputDefinition { examples: vec![], ..definition("tokens", "Tokens") }),
        "lens.output.yaml for 'figma': output 'tokens' must include at least one example payload"
    );
    assert_eq!(
        check(OutputDefinition {
            required_fields: vec!["colors".to_string(), "".to_string()],
            ..definition("tokens", "Tokens")
        }),
        "lens.output.yaml for 'figma': output 'tokens' has an empty required_fields entry"
    );
    assert_eq!(
        check(OutputDefinition {
            error_modes: vec![OutputErrorMode {
                code: "E1".to_string(),
                message: " ".to_string(),
                recoverable: false,
            }],
            ..definition("tokens", "Tokens")
        }),
        "lens.output.yaml for 'figma': output 'tokens' has invalid error_modes entry"
    );
    assert_eq!(
        check(OutputDefinition {
            error_modes: vec![OutputErrorMode {
                code: "".to_string(),
                message: "failed".to_string(),
                recoverable: false,
            }],
            ..definition("tokens", "Tokens")
        }),
        "lens.output.yaml for 'figma': output 'tokens' has invalid error_modes entry"
    );
    assert_eq!(
        check(OutputDefinition {
            payload_schema: json(r#"{"type": "object", "properties": {"colors": {}}}"#),
            required_fields: vec!["colors".to_string(), "fonts".to_string(), "sizes".to_string()],
            ..definition("tokens", "Tokens")
        }),
        "lens.output.yaml for 'figma': output 'tokens' required field 'fonts' is not declared in payload_schema.properties"
    );
}

#[test]
fn test_definition_without_declared_properties_accepts_any_required_field() {
    for schema in ["{}", r#"{"properties": 3}"#, r#"{"properties": ["colors"]}"#, "[]", "null", r#""properties""#] {
        let fine = OutputDefinition {
            payload_schema: json(schema),
            required_fields: vec!["colors".to_string()],
            ..definition("tokens", "Tokens")
        };
        assert!(fine.validate("figma").is_ok(), "{}", schema);
    }
    let empty_properties = OutputDefinition {
        payload_schema: json(r#"{"properties": {}}"#),
        required_fields: vec!["colors".to_string()],
        ..definition("tokens", "Tokens")
    };
    assert!(empty_properties.validate("figma").is_err());
    let nothing_required = OutputDefinition {
        payload_schema: json(r#"{"properties": {}}"#),
        ..definition("tokens", "Tokens")
    };
    assert!(nothing_required.validate("figma").is_ok());
}

#[test]
fn test_definition_fault_is_reported_by_the_contract() {
    let faulty = contract(
        "figma",
        vec![
            definition("a", "A"),
            OutputDefinition { render_blocks: vec![], ..definition("b", "B") },
        ],
    );
    assert_eq!(
        invalid_input(faulty.validate()),
        "lens.output.yaml for 'figma': output 'b' must include at least one render block"
    );
    assert!(contract("figma", vec![definition("a", "A"), definition("b", "B")]).validate().is_ok());
}

#[test]
fn test_get_output_returns_the_first_declared() {
    let spec = contract("figma", vec![definition("a", "First"), definition("b", "Second")]);
    assert_eq!(spec.get_output("a").unwrap().title, "First");
    assert_eq!(spec.get_output("b").unwrap().title, "Second");
    assert!(spec.get_output("c").is_none());
    assert!(spec.get_output("").is_none());

    let repeated = contract("figma", vec![definition("a", "First"), definition("a", "Second")]);
    assert_eq!(repeated.get_output("a").unwrap().title, "First");
}

#[test]
fn test_validate_payload_undeclared_key() {
    let spec = result_spec();
    let message = invalid_input(spec.validate_payload("summary", &json("{}")));
    assert_eq!(message, "Output key 'summary' is not declared in lens.output.yaml for 'test'");
}

#[test]
fn test_validate_payload_expects_an_object() {
    let spec = result_spec();
    for payload in ["[]", "null", "3", r#""status""#, "true", r#"["status"]"#] {
        let message = invalid_input(spec.validate_payload("result", &json(payload)));
        assert_eq!(
            message,
            "Output 'result' expects an object payload to validate required_fields"
        );
    }
}

#[test]
fn test_validate_payload_names_the_first_missing_field() {
    let spec = contract(
        "test",
        vec![OutputDefinition {
            required_fields: vec!["a".to_string(), "b".to_string(), "c".to_string()],
            ..definition("result", "Result")
        }],
    );
    assert!(spec.validate_payload("result", &json(r#"{"a": 1, "b": null, "c": []}"#)).is_ok());
    assert!(spec.validate_payload("result", &json(r#"{"c": 0, "b": 0, "a": 0, "d": 0}"#)).is_ok());
    assert_eq!(
        invalid_input(spec.validate_payload("result", &json(r#"{"a": 1}"#))),
        "Output 'result' missing required field 'b'"
    );
    assert_eq!(
        invalid_input(spec.validate_payload("result", &json(r#"{"b": 1}"#))),
        "Output 'result' missing required field 'a'"
    );
    assert_eq!(
        invalid_input(spec.validate_payload("result", &json(r#"{"a": 1, "b": 2, "C": 3}"#))),
        "Output 'result' missing required field 'c'"
    );
    assert_eq!(
        invalid_input(spec.validate_payload("result", &json("{}"))),
        "Output 'result' missing required field 'a'"
    );
}

#[test]
fn test_validate_payload_without_required_fields_accepts_anything() {
    let spec = contract("test", vec![definition("result", "Result")]);
    for payload in ["{}", "[]", "null", "1", r#""text""#] {
        assert!(spec.validate_payload("result", &json(payload)).is_ok());
    }
}

#[test]
fn test_validate_payload_checks_presence_only() {
    let spec = result_spec();
    assert!(spec.validate_payload("result", &json(r#"{"status": 17}"#)).is_ok());
    assert!(spec.validate_payload("result", &json(r#"{"status": null}"#)).is_ok());
}

#[test]
fn test_from_yaml_reports_a_text_that_did_not_parse() {
    let err = LensOutputSpec::from_yaml(Err("mapping values are not allowed".to_string()))
        .unwrap_err();
    match err {
        LensError::InvalidInput(message) => assert_eq!(
            message,
            "Failed to parse lens output spec YAML: mapping values are not allowed"
        ),
        other => panic!("Expected InvalidInput, got {:?}", other),
    }
}

#[test]
fn test_from_file() {
    let path = PathBuf::from("/lenses/figma/lens.output.yaml");
    let err = LensOutputSpec::from_file(&path, Loaded::Unreadable("permission denied".to_string()))
        .unwrap_err();
    assert_eq!(
        err.to_string(),
        "Invalid lens input: Failed to read output spec \"/lenses/figma/lens.output.yaml\": permission denied"
    );
    let err =
        LensOutputSpec::from_file(&path, Loaded::Malformed("bad indent".to_string())).unwrap_err();
    assert_eq!(
        err.to_string(),
        "Invalid lens input: Failed to parse lens output spec YAML: bad indent"
    );
    let err = LensOutputSpec::from_file(&path, Loaded::Parsed(contract("figma", vec![])))
        .unwrap_err();
    assert!(err.to_string().contains("must declare at least one output"));
    let spec =
        LensOutputSpec::from_file(&path, Loaded::Parsed(contract("figma", vec![definition("a", "A")])))
            .unwrap();
    assert_eq!(spec.lens_id, "figma");
}

#[test]
fn test_to_yaml() {
    assert_eq!(LensOutputSpec::to_yaml(Ok("lens_id: figma\n".to_string())).unwrap(), "lens_id: figma\n");
    match LensOutputSpec::to_yaml(Err("unsupported".to_string())) {
        Err(LensError::InvalidInput(message)) => {
            assert_eq!(message, "Failed to serialize output spec to YAML: unsupported")
        }
        other => panic!("Expected InvalidInput, got {:?}", other),
    }
}

#[test]
fn test_interactivity_default() {
    assert_eq!(InteractivityMode::default(), InteractivityMode::NoInteraction);
}
