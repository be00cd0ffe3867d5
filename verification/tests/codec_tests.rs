use gltf_validator::{
    decode_report, decode_report_str, report_from_json, report_to_json, report_to_string,
    DecodeError, Format, GltfValidator, Image, Info, Issues, Json, Message, MimeType, Primaries,
    Resource, Severity, Storage, Transfer, ValidationReport,
};

fn minimal_report() -> ValidationReport {
    ValidationReport {
        uri: None,
        mime_type: None,
        validator_version: "2.0.0-dev.3.8".to_string(),
        validated_at: None,
        issues: Issues {
            num_errors: 0,
            num_warnings: 0,
            num_infos: 0,
            num_hints: 0,
            messages: Vec::new(),
            truncated: false,
        },
        info: None,
    }
}

fn rich_report() -> ValidationReport {
    ValidationReport {
        uri: Some("model.glb".to_string()),
        mime_type: Some(MimeType::ModelGltfBinary),
        validator_version: "2.0.0-dev.3.8".to_string(),
        validated_at: Some("2024-05-01T12:00:00Z".to_string()),
        issues: Issues {
            num_errors: 1,
            num_warnings: 1,
            num_infos: 0,
            num_hints: 1,
            messages: vec![
                Message {
                    code: "ACCESSOR_MIN_MISMATCH".to_string(),
                    severity: Severity::Error,
                    pointer: Some("/accessors/0/min/0".to_string()),
                    offset: None,
                    message: "Declared minimum value mismatches actual.".to_string(),
                },
                Message {
                    code: "UNUSED_OBJECT".to_string(),
                    severity: Severity::Warning,
                    pointer: Some("/materials/0".to_string()),
                    offset: None,
                    message: "This object may be unused.".to_string(),
                },
                Message {
                    code: "GLB_CHUNK_TOO_BIG".to_string(),
                    severity: Severity::Hint,
                    pointer: None,
                    offset: Some(1024),
                    message: "Chunk is bigger than needed.".to_string(),
                },
            ],
            truncated: false,
        },
        info: Some(Info {
            version: "2.0".to_string(),
            min_version: Some("2.0".to_string()),
            generator: Some("TestGen 1.0".to_string()),
            extensions_used: Some(vec![
                "KHR_materials_unlit".to_string(),
                "KHR_texture_transform".to_string(),
            ]),
            extensions_required: Some(vec!["KHR_materials_unlit".to_string()]),
            resources: Some(vec![
                Resource {
                    pointer: "/buffers/0".to_string(),
                    storage: Storage::Glb,
                    mime_type: None,
                    byte_length: Some(2048),
                    uri: None,
                    image: None,
                },
                Resource {
                    pointer: "/images/0".to_string(),
                    storage: Storage::BufferView,
                    mime_type: Some("image/png".to_string()),
                    byte_length: Some(512),
                    uri: None,
                    image: Some(Image {
                        width: 64,
                        height: 32,
                        format: Some(Format::Rgba),
                        primaries: Some(Primaries::Srgb),
                        transfer: Some(Transfer::Srgb),
                        bits: Some(8),
                    }),
                },
            ]),
        }),
    }
}

#[test]
fn round_trip_minimal_report_through_tree() {
    let r = minimal_report();
    let j = report_to_json(&r);
    let back = report_from_json(&j).expect("round trip decodes");
    assert_eq!(back, r);
}

#[test]
fn round_trip_rich_report_through_tree() {
    let r = rich_report();
    let j = report_to_json(&r);
    let back = report_from_json(&j).expect("round trip decodes");
    assert_eq!(back, r);
}

#[test]
fn round_trip_rich_report_through_text() {
    let r = rich_report();
    let text = report_to_string(&r).expect("report prints");
    let back = decode_report_str(&text).expect("printed report decodes");
    assert_eq!(back, r);
}

#[test]
fn encoded_text_omits_absent_fields() {
    let r = minimal_report();
    let text = report_to_string(&r).expect("report prints");
    let v: serde_json::Value = serde_json::from_str(&text).expect("valid JSON");
    let obj = v.as_object().expect("object");
    assert!(!obj.contains_key("uri"));
    assert!(!obj.contains_key("mimeType"));
    assert!(!obj.contains_key("validatedAt"));
    assert!(!obj.contains_key("info"));
    assert_eq!(
        obj.get("validatorVersion").and_then(|x| x.as_str()),
        Some("2.0.0-dev.3.8")
    );
}

#[test]
fn severity_codes_decode_in_order() {
    for (code, expected) in [
        (0u64, Severity::Error),
        (1, Severity::Warning),
        (2, Severity::Information),
        (3, Severity::Hint),
    ] {
        let text = format!(
            "{{\"validatorVersion\":\"v\",\"issues\":{{\"numErrors\":0,\"numWarnings\":0,\
             \"numInfos\":0,\"numHints\":0,\"messages\":[{{\"code\":\"C\",\"severity\":{},\
             \"message\":\"m\"}}],\"truncated\":false}}}}",
            code
        );
        let r = decode_report_str(&text).expect("severity decodes");
        assert_eq!(r.issues.messages[0].severity, expected);
    }
    assert!(Severity::Error < Severity::Warning);
    assert!(Severity::Warning < Severity::Information);
    assert!(Severity::Information < Severity::Hint);
}

#[test]
fn severity_code_out_of_range_is_unknown_enum_value() {
    let text = "{\"validatorVersion\":\"v\",\"issues\":{\"numErrors\":0,\"numWarnings\":0,\
                \"numInfos\":0,\"numHints\":0,\"messages\":[{\"code\":\"C\",\"severity\":4,\
                \"message\":\"m\"}],\"truncated\":false}}";
    let e = decode_report_str(text).expect_err("severity 4 is out of the closed set");
    assert_eq!(
        e,
        DecodeError::UnknownEnumValue {
            field: "severity".to_string(),
            value: Json::UInt(4),
        }
    );
}

#[test]
fn severity_as_string_numeral_is_malformed() {
    let text = "{\"validatorVersion\":\"v\",\"issues\":{\"numErrors\":0,\"numWarnings\":0,\
                \"numInfos\":0,\"numHints\":0,\"messages\":[{\"code\":\"C\",\"severity\":\"1\",\
                \"message\":\"m\"}],\"truncated\":false}}";
    let e = decode_report_str(text).expect_err("a string severity is rejected");
    assert_eq!(
        e,
        DecodeError::Malformed {
            path: vec![
                "issues".to_string(),
                "messages".to_string(),
                "severity".to_string(),
            ],
            expected: "integer".to_string(),
            cause: String::new(),
        }
    );
}

#[test]
fn unknown_storage_token_is_unknown_enum_value() {
    let text = "{\"validatorVersion\":\"v\",\"issues\":{\"numErrors\":0,\"numWarnings\":0,\
                \"numInfos\":0,\"numHints\":0,\"messages\":[],\"truncated\":false},\
                \"info\":{\"version\":\"2.0\",\"resources\":[{\"pointer\":\"/buffers/0\",\
                \"storage\":\"unknown-kind\"}]}}";
    let e = decode_report_str(text).expect_err("unknown storage token fails");
    assert_eq!(
        e,
        DecodeError::UnknownEnumValue {
            field: "storage".to_string(),
            value: Json::Str("unknown-kind".to_string()),
        }
    );
}

#[test]
fn absent_messages_decodes_to_empty_list() {
    let text = "{\"validatorVersion\":\"v\",\"issues\":{\"numErrors\":0,\"numWarnings\":0,\
                \"numInfos\":0,\"numHints\":0,\"truncated\":false}}";
    let r = decode_report_str(text).expect("absent messages is not an error");
    assert!(r.issues.messages.is_empty());
}

#[test]
fn truncated_report_tolerates_counter_mismatch() {
    let text = "{\"validatorVersion\":\"v\",\"issues\":{\"futureField\":123,\"numErrors\":5,\
                \"numWarnings\":0,\"numInfos\":0,\"numHints\":0,\"messages\":[\
                {\"code\":\"A\",\"severity\":0,\"message\":\"a\"},\
                {\"code\":\"B\",\"severity\":0,\"message\":\"b\"},\
                {\"code\":\"C\",\"severity\":0,\"message\":\"c\"}\
                ],\"truncated\":true}}";
    let r = decode_report_str(text).expect("truncated report decodes");
    assert_eq!(r.issues.num_errors, 5);
    assert_eq!(r.issues.messages.len(), 3);
    assert!(r.issues.truncated);
}

#[test]
fn end_to_end_scenario_decodes() {
    let text = "{\"validatorVersion\":\"2.0.0-dev.3.8\",\"issues\":{\"numErrors\":0,\
                \"numWarnings\":1,\"numInfos\":0,\"numHints\":0,\"messages\":[\
                {\"code\":\"UNUSED_OBJECT\",\"severity\":1,\
                \"message\":\"This object may be unused.\",\"pointer\":\"/materials/0\"}],\
                \"truncated\":false}}";
    let r = decode_report_str(text).expect("scenario decodes");
    assert_eq!(r.validator_version, "2.0.0-dev.3.8");
    assert_eq!(r.issues.num_warnings, 1);
    assert_eq!(r.issues.messages.len(), 1);
    let m = &r.issues.messages[0];
    assert_eq!(m.code, "UNUSED_OBJECT");
    assert_eq!(m.severity, Severity::Warning);
    assert_eq!(m.pointer.as_deref(), Some("/materials/0"));
    assert_eq!(m.message, "This object may be unused.");
    assert!(r.info.is_none());
    assert!(r.uri.is_none());
    assert!(r.mime_type.is_none());
}

#[test]
fn unknown_top_level_field_is_tolerated() {
    let text = "{\"schemaVersion\":\"3.0\",\"validatorVersion\":\"v\",\"issues\":\
                {\"numErrors\":0,\"numWarnings\":0,\"numInfos\":0,\"numHints\":0,\
                \"messages\":[],\"truncated\":false}}";
    let r = decode_report_str(text).expect("unknown top-level field is ignored");
    assert_eq!(r.validator_version, "v");
}

#[test]
fn missing_validator_version_is_malformed() {
    let text = "{\"issues\":{\"numErrors\":0,\"numWarnings\":0,\"numInfos\":0,\"numHints\":0,\
                \"messages\":[],\"truncated\":false}}";
    let e = decode_report_str(text).expect_err("validatorVersion is required");
    assert_eq!(
        e,
        DecodeError::Malformed {
            path: vec!["validatorVersion".to_string()],
            expected: "string".to_string(),
            cause: String::new(),
        }
    );
}

#[test]
fn invalid_json_is_malformed_at_root() {
    let e = decode_report_str("{ not json").expect_err("parse failure");
    match e {
        DecodeError::Malformed { path, expected, cause } => {
            assert!(path.is_empty());
            assert_eq!(expected, "JSON");
            assert!(!cause.is_empty(), "the parser's own message is carried");
        }
        other => panic!("expected a malformed-payload error, got {other:?}"),
    }
}

#[test]
fn mime_type_tokens_decode() {
    let text = "{\"mimeType\":\"model/gltf+json\",\"validatorVersion\":\"v\",\"issues\":\
                {\"numErrors\":0,\"numWarnings\":0,\"numInfos\":0,\"numHints\":0,\
                \"messages\":[],\"truncated\":false}}";
    let r = decode_report_str(text).expect("mime type decodes");
    assert_eq!(r.mime_type, Some(MimeType::ModelGltfJson));

    let text2 = text.replace("model/gltf+json", "model/gltf-binary");
    let r2 = decode_report_str(&text2).expect("binary mime type decodes");
    assert_eq!(r2.mime_type, Some(MimeType::ModelGltfBinary));

    let text3 = text.replace("model/gltf+json", "model/vrml");
    let e = decode_report_str(&text3).expect_err("unknown mime type fails");
    assert_eq!(
        e,
        DecodeError::UnknownEnumValue {
            field: "mimeType".to_string(),
            value: Json::Str("model/vrml".to_string()),
        }
    );
}

#[test]
fn null_optional_field_counts_as_absent() {
    let text = "{\"uri\":null,\"validatorVersion\":\"v\",\"issues\":{\"numErrors\":0,\
                \"numWarnings\":0,\"numInfos\":0,\"numHints\":0,\"messages\":[],\
                \"truncated\":false}}";
    let r = decode_report_str(text).expect("explicit null is absent");
    assert!(r.uri.is_none());
}

#[test]
fn decode_from_bytes_matches_decode_from_text() {
    let text = "{\"validatorVersion\":\"v\",\"issues\":{\"numErrors\":0,\"numWarnings\":0,\
                \"numInfos\":0,\"numHints\":0,\"messages\":[],\"truncated\":false}}";
    let from_text = decode_report_str(text).expect("text decodes");
    let from_bytes = decode_report(text.as_bytes()).expect("bytes decode");
    assert_eq!(from_bytes, from_text);
}

#[test]
fn counter_too_large_for_u32_is_malformed() {
    let text = "{\"validatorVersion\":\"v\",\"issues\":{\"numErrors\":4294967296,\
                \"numWarnings\":0,\"numInfos\":0,\"numHints\":0,\"messages\":[],\
                \"truncated\":false}}";
    let e = decode_report_str(text).expect_err("counter above u32::MAX fails");
    assert_eq!(
        e,
        DecodeError::Malformed {
            path: vec!["issues".to_string(), "numErrors".to_string()],
            expected: "integer".to_string(),
            cause: String::new(),
        }
    );
}

#[test]
fn severity_code_table_is_exposed() {
    assert_eq!(Severity::from_code(0), Some(Severity::Error));
    assert_eq!(Severity::from_code(1), Some(Severity::Warning));
    assert_eq!(Severity::from_code(2), Some(Severity::Information));
    assert_eq!(Severity::from_code(3), Some(Severity::Hint));
    assert_eq!(Severity::from_code(4), None);
    assert_eq!(Severity::Error.code(), 0);
    assert_eq!(Severity::Hint.code(), 3);
}

#[test]
fn validator_handle_keeps_path() {
    let v = GltfValidator::new("/tmp/gltf_validator".to_string());
    assert_eq!(v.path().as_str(), "/tmp/gltf_validator");
}

#[test]
fn encoded_severity_is_a_bare_integer() {
    let r = rich_report();
    let text = report_to_string(&r).expect("report prints");
    let v: serde_json::Value = serde_json::from_str(&text).expect("valid JSON");
    let sev = &v["issues"]["messages"][0]["severity"];
    assert!(sev.is_u64());
    assert_eq!(sev.as_u64(), Some(0));
}

#[test]
fn invalid_utf8_bytes_are_replaced_not_rejected() {
    let mut bytes = Vec::new();
    bytes.extend_from_slice(b"{\"validatorVersion\":\"v");
    bytes.push(0xFF);
    bytes.extend_from_slice(
        b"\",\"issues\":{\"numErrors\":0,\"numWarnings\":0,\"numInfos\":0,\"numHints\":0,\
          \"messages\":[],\"truncated\":false}}",
    );
    let r = decode_report(&bytes).expect("invalid UTF-8 is replaced, not fatal");
    assert_eq!(r.validator_version, "v\u{FFFD}");
}

#[test]
fn image_tokens_decode() {
    let text = "{\"validatorVersion\":\"v\",\"issues\":{\"numErrors\":0,\"numWarnings\":0,\
                \"numInfos\":0,\"numHints\":0,\"messages\":[],\"truncated\":false},\
                \"info\":{\"version\":\"2.0\",\"resources\":[{\"pointer\":\"/images/0\",\
                \"storage\":\"external\",\"uri\":\"a.png\",\"image\":{\"width\":8,\"height\":4,\
                \"format\":\"luminanceAlpha\",\"primaries\":\"custom\",\"transfer\":\"linear\",\
                \"bits\":16}}]}}";
    let r = decode_report_str(text).expect("image decodes");
    let info = r.info.expect("info present");
    let resources = info.resources.expect("resources present");
    assert_eq!(resources[0].storage, Storage::External);
    let image = resources[0].image.expect("image present");
    assert_eq!(image.width, 8);
    assert_eq!(image.height, 4);
    assert_eq!(image.format, Some(Format::LuminanceAlpha));
    assert_eq!(image.primaries, Some(Primaries::Custom));
    assert_eq!(image.transfer, Some(Transfer::Linear));
    assert_eq!(image.bits, Some(16));
}

#[test]
fn json_tree_member_lookup() {
    let r = minimal_report();
    let j = report_to_json(&r);
    let issues = j.get("issues").expect("issues member present");
    assert!(matches!(issues, Json::Obj(_)));
    assert!(j.get("info").is_none());
    assert!(Json::Null.get("issues").is_none());
}

#[test]
fn fractional_optional_integer_is_malformed() {
    let text = "{\"validatorVersion\":\"v\",\"issues\":{\"numErrors\":0,\"numWarnings\":0,\
                \"numInfos\":0,\"numHints\":0,\"messages\":[{\"code\":\"C\",\"severity\":0,\
                \"offset\":1.5,\"message\":\"m\"}],\"truncated\":false}}";
    let e = decode_report_str(text).expect_err("a fractional offset is not absent");
    assert_eq!(
        e,
        DecodeError::Malformed {
            path: vec![
                "issues".to_string(),
                "messages".to_string(),
                "offset".to_string(),
            ],
            expected: "integer".to_string(),
            cause: String::new(),
        }
    );
}

#[test]
fn numeric_mime_type_is_malformed() {
    let text = "{\"mimeType\":-3,\"validatorVersion\":\"v\",\"issues\":{\"numErrors\":0,\
                \"numWarnings\":0,\"numInfos\":0,\"numHints\":0,\"messages\":[],\
                \"truncated\":false}}";
    let e = decode_report_str(text).expect_err("a numeric mimeType is not absent");
    assert_eq!(
        e,
        DecodeError::Malformed {
            path: vec!["mimeType".to_string()],
            expected: "string".to_string(),
            cause: String::new(),
        }
    );
}
