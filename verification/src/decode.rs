//! Decoding a JSON tree into a `ValidationReport`.
//!
//! The decoder validates only the shape of the document against the report
//! schema.  Required fields are `validatorVersion`, the four counters and
//! `truncated` of `issues`, `code`, `severity` and `message` of each message,
//! `version` of `info`, `pointer` and `storage` of each resource, and `width`
//! and `height` of an image.  Every other field may be absent, and an
//! explicit `null` counts as absent.  A `messages` field that is absent
//! decodes to an empty list.  Unknown fields at any level are ignored.
//! `Severity` is read from a bare unsigned integer, the canonical wire form;
//! the numeral-as-string form is not accepted.  A number that is not an
//! unsigned 64-bit integer matches the schema nowhere, in optional fields
//! too.

use vstd::prelude::*;

use crate::json::{
    obj_get, obj_get_spec, json_seq_view, lemma_json_seq_view, member_view, Json, JsonSpec,
    lossy_text, lossy_utf8, parse_error_text, parse_json_text, parsed_json,
};
use crate::report::{
    severity_of_code, mime_of_token, storage_of_token, format_of_token, primaries_of_token,
    transfer_of_token, DecodeError, DecodeErrorSpec, Format, Image, ImageSpec, Info, InfoSpec,
    Issues, IssuesSpec, Message, MessageSpec, MimeType, Primaries, Resource, ResourceSpec,
    Severity, Storage, Transfer, ValidationReport, ValidationReportSpec,
};

verus! {

/// An exec decode outcome, as the pair of models it stands for.
pub open spec fn dv<T: DeepView>(r: Result<T, DecodeError>) -> Result<T::V, DecodeErrorSpec> {
    match r {
        Ok(t) => Ok(t.deep_view()),
        Err(e) => Err(e.deep_view()),
    }
}

/// The error for a field that is absent or mistyped at `key`, where the
/// schema expected the shape named by `expected`.
pub open spec fn missing(key: Seq<char>, expected: Seq<char>) -> DecodeErrorSpec {
    DecodeErrorSpec::Malformed { path: seq![key], expected, cause: Seq::empty() }
}

/// A malformed-shape error with `seg` prepended to its path; other errors
/// pass unchanged.
pub open spec fn prefix_spec(seg: Seq<char>, e: DecodeErrorSpec) -> DecodeErrorSpec {
    match e {
        DecodeErrorSpec::Malformed { path, expected, cause } => DecodeErrorSpec::Malformed {
            path: seq![seg] + path,
            expected,
            cause,
        },
        _ => e,
    }
}

/// A required string field.
pub open spec fn req_str_spec(ms: Seq<(Seq<char>, JsonSpec)>, key: Seq<char>) -> Result<
    Seq<char>,
    DecodeErrorSpec,
> {
    match obj_get_spec(ms, key) {
        Some(JsonSpec::Str(s)) => Ok(s),
        _ => Err(missing(key, "string"@)),
    }
}

/// An optional string field.
pub open spec fn opt_str_spec(ms: Seq<(Seq<char>, JsonSpec)>, key: Seq<char>) -> Result<
    Option<Seq<char>>,
    DecodeErrorSpec,
> {
    match obj_get_spec(ms, key) {
        None => Ok(None),
        Some(JsonSpec::Null) => Ok(None),
        Some(JsonSpec::Str(s)) => Ok(Some(s)),
        Some(_) => Err(missing(key, "string"@)),
    }
}

/// A required non-negative integer field that must fit in 32 bits.
pub open spec fn req_u32_spec(ms: Seq<(Seq<char>, JsonSpec)>, key: Seq<char>) -> Result<
    u32,
    DecodeErrorSpec,
> {
    match obj_get_spec(ms, key) {
        Some(JsonSpec::UInt(n)) => if n <= u32::MAX as u64 {
            Ok(n as u32)
        } else {
            Err(missing(key, "integer"@))
        },
        _ => Err(missing(key, "integer"@)),
    }
}

/// An optional non-negative integer field that must fit in 32 bits.
pub open spec fn opt_u32_spec(ms: Seq<(Seq<char>, JsonSpec)>, key: Seq<char>) -> Result<
    Option<u32>,
    DecodeErrorSpec,
> {
    match obj_get_spec(ms, key) {
        None => Ok(None),
        Some(JsonSpec::Null) => Ok(None),
        Some(JsonSpec::UInt(n)) => if n <= u32::MAX as u64 {
            Ok(Some(n as u32))
        } else {
            Err(missing(key, "integer"@))
        },
        Some(_) => Err(missing(key, "integer"@)),
    }
}

/// A required boolean field.
pub open spec fn req_bool_spec(ms: Seq<(Seq<char>, JsonSpec)>, key: Seq<char>) -> Result<
    bool,
    DecodeErrorSpec,
> {
    match obj_get_spec(ms, key) {
        Some(JsonSpec::Bool(b)) => Ok(b),
        _ => Err(missing(key, "boolean"@)),
    }
}

/// The `severity` field of a message: a required bare unsigned integer in
/// the closed set 0 to 3.
pub open spec fn severity_field_spec(ms: Seq<(Seq<char>, JsonSpec)>) -> Result<
    Severity,
    DecodeErrorSpec,
> {
    match obj_get_spec(ms, "severity"@) {
        Some(JsonSpec::UInt(n)) => match severity_of_code(n) {
            Some(s) => Ok(s),
            None => Err(
                DecodeErrorSpec::UnknownEnumValue {
                    field: "severity"@,
                    value: JsonSpec::UInt(n),
                },
            ),
        },
        _ => Err(missing("severity"@, "integer"@)),
    }
}

/// The optional `mimeType` field of a report: a token of the closed MIME
/// type set.
pub open spec fn mime_field_spec(ms: Seq<(Seq<char>, JsonSpec)>) -> Result<
    Option<MimeType>,
    DecodeErrorSpec,
> {
    match obj_get_spec(ms, "mimeType"@) {
        None => Ok(None),
        Some(JsonSpec::Null) => Ok(None),
        Some(JsonSpec::Str(s)) => match mime_of_token(s) {
            Some(m) => Ok(Some(m)),
            None => Err(
                DecodeErrorSpec::UnknownEnumValue { field: "mimeType"@, value: JsonSpec::Str(s) },
            ),
        },
        Some(_) => Err(missing("mimeType"@, "string"@)),
    }
}

/// The required `storage` field of a resource: a token of the closed
/// storage set.
pub open spec fn storage_field_spec(ms: Seq<(Seq<char>, JsonSpec)>) -> Result<
    Storage,
    DecodeErrorSpec,
> {
    match obj_get_spec(ms, "storage"@) {
        Some(JsonSpec::Str(s)) => match storage_of_token(s) {
            Some(st) => Ok(st),
            None => Err(
                DecodeErrorSpec::UnknownEnumValue { field: "storage"@, value: JsonSpec::Str(s) },
            ),
        },
        _ => Err(missing("storage"@, "string"@)),
    }
}

/// The optional `format` field of an image.
pub open spec fn format_field_spec(ms: Seq<(Seq<char>, JsonSpec)>) -> Result<
    Option<Format>,
    DecodeErrorSpec,
> {
    match obj_get_spec(ms, "format"@) {
        None => Ok(None),
        Some(JsonSpec::Null) => Ok(None),
        Some(JsonSpec::Str(s)) => match format_of_token(s) {
            Some(f) => Ok(Some(f)),
            None => Err(
                DecodeErrorSpec::UnknownEnumValue { field: "format"@, value: JsonSpec::Str(s) },
            ),
        },
        Some(_) => Err(missing("format"@, "string"@)),
    }
}

/// The optional `primaries` field of an image.
pub open spec fn primaries_field_spec(ms: Seq<(Seq<char>, JsonSpec)>) -> Result<
    Option<Primaries>,
    DecodeErrorSpec,
> {
    match obj_get_spec(ms, "primaries"@) {
        None => Ok(None),
        Some(JsonSpec::Null) => Ok(None),
        Some(JsonSpec::Str(s)) => match primaries_of_token(s) {
            Some(p) => Ok(Some(p)),
            None => Err(
                DecodeErrorSpec::UnknownEnumValue { field: "primaries"@, value: JsonSpec::Str(s) },
            ),
        },
        Some(_) => Err(missing("primaries"@, "string"@)),
    }
}

/// The optional `transfer` field of an image.
pub open spec fn transfer_field_spec(ms: Seq<(Seq<char>, JsonSpec)>) -> Result<
    Option<Transfer>,
    DecodeErrorSpec,
> {
    match obj_get_spec(ms, "transfer"@) {
        None => Ok(None),
        Some(JsonSpec::Null) => Ok(None),
        Some(JsonSpec::Str(s)) => match transfer_of_token(s) {
            Some(t) => Ok(Some(t)),
            None => Err(
                DecodeErrorSpec::UnknownEnumValue { field: "transfer"@, value: JsonSpec::Str(s) },
            ),
        },
        Some(_) => Err(missing("transfer"@, "string"@)),
    }
}

/// One message, from any JSON value.
pub open spec fn message_from_spec(j: JsonSpec) -> Result<MessageSpec, DecodeErrorSpec> {
    match j {
        JsonSpec::Obj(ms) => message_from_obj_spec(ms),
        _ => Err(
            DecodeErrorSpec::Malformed {
                path: Seq::empty(),
                expected: "object"@,
                cause: Seq::empty(),
            },
        ),
    }
}

/// One message, from the members of its object.
pub open spec fn message_from_obj_spec(ms: Seq<(Seq<char>, JsonSpec)>) -> Result<
    MessageSpec,
    DecodeErrorSpec,
> {
    let code = req_str_spec(ms, "code"@);
    let severity = severity_field_spec(ms);
    let pointer = opt_str_spec(ms, "pointer"@);
    let offset = opt_u32_spec(ms, "offset"@);
    let message = req_str_spec(ms, "message"@);
    if code is Err {
        Err(code->Err_0)
    } else if severity is Err {
        Err(severity->Err_0)
    } else if pointer is Err {
        Err(pointer->Err_0)
    } else if offset is Err {
        Err(offset->Err_0)
    } else if message is Err {
        Err(message->Err_0)
    } else {
        Ok(
            MessageSpec {
                code: code->Ok_0,
                severity: severity->Ok_0,
                pointer: pointer->Ok_0,
                offset: offset->Ok_0,
                message: message->Ok_0,
            },
        )
    }
}

/// The error for a required field that is absent or mistyped at `key`.
fn key_path_err(key: &str, expected: &str) -> (r: DecodeError)
    ensures
        r.deep_view() == missing(key@, expected@),
{
    let mut path: Vec<String> = Vec::new();
    path.push(key.to_string());
    proof {
        assert(path.deep_view() =~= seq![key@]);
    }
    DecodeError::Malformed { path, expected: expected.to_string(), cause: String::new() }
}

/// Prepend `seg` to the path of a malformed-shape error.
fn prefix_err(seg: &str, e: DecodeError) -> (r: DecodeError)
    ensures
        r.deep_view() == prefix_spec(seg@, e.deep_view()),
{
    match e {
        DecodeError::Malformed { mut path, expected, cause } => {
            let ghost old_path = path.deep_view();
            path.insert(0, seg.to_string());
            proof {
                assert(path.deep_view() =~= seq![seg@] + old_path);
            }
            DecodeError::Malformed { path, expected, cause }
        },
        other => other,
    }
}

/// A required string field.
fn req_str(ms: &Vec<(String, Json)>, key: &str) -> (r: Result<String, DecodeError>)
    ensures
        dv(r) == req_str_spec(member_view(ms@), key@),
{
    match obj_get(ms, key) {
        Some(Json::Str(s)) => Ok(s.clone()),
        _ => Err(key_path_err(key, "string")),
    }
}

/// An optional string field.
fn opt_str(ms: &Vec<(String, Json)>, key: &str) -> (r: Result<Option<String>, DecodeError>)
    ensures
        dv(r) == opt_str_spec(member_view(ms@), key@),
{
    match obj_get(ms, key) {
        None => Ok(None),
        Some(Json::Null) => Ok(None),
        Some(Json::Str(s)) => Ok(Some(s.clone())),
        Some(_) => Err(key_path_err(key, "string")),
    }
}

/// A required non-negative integer field that must fit in 32 bits.
fn req_u32(ms: &Vec<(String, Json)>, key: &str) -> (r: Result<u32, DecodeError>)
    ensures
        dv(r) == req_u32_spec(member_view(ms@), key@),
{
    match obj_get(ms, key) {
        Some(Json::UInt(n)) => if *n <= u32::MAX as u64 {
            Ok(*n as u32)
        } else {
            Err(key_path_err(key, "integer"))
        },
        _ => Err(key_path_err(key, "integer")),
    }
}

/// An optional non-negative integer field that must fit in 32 bits.
fn opt_u32(ms: &Vec<(String, Json)>, key: &str) -> (r: Result<Option<u32>, DecodeError>)
    ensures
        dv(r) == opt_u32_spec(member_view(ms@), key@),
{
    match obj_get(ms, key) {
        None => Ok(None),
        Some(Json::Null) => Ok(None),
        Some(Json::UInt(n)) => if *n <= u32::MAX as u64 {
            Ok(Some(*n as u32))
        } else {
            Err(key_path_err(key, "integer"))
        },
        Some(_) => Err(key_path_err(key, "integer")),
    }
}

/// A required boolean field.
fn req_bool(ms: &Vec<(String, Json)>, key: &str) -> (r: Result<bool, DecodeError>)
    ensures
        dv(r) == req_bool_spec(member_view(ms@), key@),
{
    match obj_get(ms, key) {
        Some(Json::Bool(b)) => Ok(*b),
        _ => Err(key_path_err(key, "boolean")),
    }
}

/// The `severity` field of a message.
fn severity_field(ms: &Vec<(String, Json)>) -> (r: Result<Severity, DecodeError>)
    ensures
        dv(r) == severity_field_spec(member_view(ms@)),
{
    match obj_get(ms, "severity") {
        Some(Json::UInt(n)) => match Severity::from_code(*n) {
            Some(s) => Ok(s),
            None => Err(
                DecodeError::UnknownEnumValue {
                    field: "severity".to_string(),
                    value: Json::UInt(*n),
                },
            ),
        },
        _ => Err(key_path_err("severity", "integer")),
    }
}

/// The MIME type whose wire token is `s`, if any.
fn mime_from_token(s: &String) -> (r: Option<MimeType>)
    ensures
        r == mime_of_token(s@),
{
    if crate::json::string_eq_str(s, "model/gltf+json") {
        Some(MimeType::ModelGltfJson)
    } else if crate::json::string_eq_str(s, "model/gltf-binary") {
        Some(MimeType::ModelGltfBinary)
    } else {
        None
    }
}

/// The storage kind whose wire token is `s`, if any.
fn storage_from_token(s: &String) -> (r: Option<Storage>)
    ensures
        r == storage_of_token(s@),
{
    if crate::json::string_eq_str(s, "data-uri") {
        Some(Storage::DataUri)
    } else if crate::json::string_eq_str(s, "buffer-view") {
        Some(Storage::BufferView)
    } else if crate::json::string_eq_str(s, "glb") {
        Some(Storage::Glb)
    } else if crate::json::string_eq_str(s, "external") {
        Some(Storage::External)
    } else {
        None
    }
}

/// The image format whose wire token is `s`, if any.
fn format_from_token(s: &String) -> (r: Option<Format>)
    ensures
        r == format_of_token(s@),
{
    if crate::json::string_eq_str(s, "rgb") {
        Some(Format::Rgb)
    } else if crate::json::string_eq_str(s, "rgba") {
        Some(Format::Rgba)
    } else if crate::json::string_eq_str(s, "luminance") {
        Some(Format::Luminance)
    } else if crate::json::string_eq_str(s, "luminanceAlpha") {
        Some(Format::LuminanceAlpha)
    } else {
        None
    }
}

/// The primaries kind whose wire token is `s`, if any.
fn primaries_from_token(s: &String) -> (r: Option<Primaries>)
    ensures
        r == primaries_of_token(s@),
{
    if crate::json::string_eq_str(s, "srgb") {
        Some(Primaries::Srgb)
    } else if crate::json::string_eq_str(s, "custom") {
        Some(Primaries::Custom)
    } else {
        None
    }
}

/// The transfer function whose wire token is `s`, if any.
fn transfer_from_token(s: &String) -> (r: Option<Transfer>)
    ensures
        r == transfer_of_token(s@),
{
    if crate::json::string_eq_str(s, "linear") {
        Some(Transfer::Linear)
    } else if crate::json::string_eq_str(s, "srgb") {
        Some(Transfer::Srgb)
    } else if crate::json::string_eq_str(s, "custom") {
        Some(Transfer::Custom)
    } else {
        None
    }
}

/// The optional `mimeType` field of a report.
fn mime_field(ms: &Vec<(String, Json)>) -> (r: Result<Option<MimeType>, DecodeError>)
    ensures
        dv(r) == mime_field_spec(member_view(ms@)),
{
    match obj_get(ms, "mimeType") {
        None => Ok(None),
        Some(Json::Null) => Ok(None),
        Some(Json::Str(s)) => match mime_from_token(s) {
            Some(m) => Ok(Some(m)),
            None => Err(
                DecodeError::UnknownEnumValue {
                    field: "mimeType".to_string(),
                    value: Json::Str(s.clone()),
                },
            ),
        },
        Some(_) => Err(key_path_err("mimeType", "string")),
    }
}

/// The required `storage` field of a resource.
fn storage_field(ms: &Vec<(String, Json)>) -> (r: Result<Storage, DecodeError>)
    ensures
        dv(r) == storage_field_spec(member_view(ms@)),
{
    match obj_get(ms, "storage") {
        Some(Json::Str(s)) => match storage_from_token(s) {
            Some(st) => Ok(st),
            None => Err(
                DecodeError::UnknownEnumValue {
                    field: "storage".to_string(),
                    value: Json::Str(s.clone()),
                },
            ),
        },
        _ => Err(key_path_err("storage", "string")),
    }
}

/// The optional `format` field of an image.
fn format_field(ms: &Vec<(String, Json)>) -> (r: Result<Option<Format>, DecodeError>)
    ensures
        dv(r) == format_field_spec(member_view(ms@)),
{
    match obj_get(ms, "format") {
        None => Ok(None),
        Some(Json::Null) => Ok(None),
        Some(Json::Str(s)) => match format_from_token(s) {
            Some(f) => Ok(Some(f)),
            None => Err(
                DecodeError::UnknownEnumValue {
                    field: "format".to_string(),
                    value: Json::Str(s.clone()),
                },
            ),
        },
        Some(_) => Err(key_path_err("format", "string")),
    }
}

/// The optional `primaries` field of an image.
fn primaries_field(ms: &Vec<(String, Json)>) -> (r: Result<Option<Primaries>, DecodeError>)
    ensures
        dv(r) == primaries_field_spec(member_view(ms@)),
{
    match obj_get(ms, "primaries") {
        None => Ok(None),
        Some(Json::Null) => Ok(None),
        Some(Json::Str(s)) => match primaries_from_token(s) {
            Some(p) => Ok(Some(p)),
            None => Err(
                DecodeError::UnknownEnumValue {
                    field: "primaries".to_string(),
                    value: Json::Str(s.clone()),
                },
            ),
        },
        Some(_) => Err(key_path_err("primaries", "string")),
    }
}

/// The optional `transfer` field of an image.
fn transfer_field(ms: &Vec<(String, Json)>) -> (r: Result<Option<Transfer>, DecodeError>)
    ensures
        dv(r) == transfer_field_spec(member_view(ms@)),
{
    match obj_get(ms, "transfer") {
        None => Ok(None),
        Some(Json::Null) => Ok(None),
        Some(Json::Str(s)) => match transfer_from_token(s) {
            Some(t) => Ok(Some(t)),
            None => Err(
                DecodeError::UnknownEnumValue {
                    field: "transfer".to_string(),
                    value: Json::Str(s.clone()),
                },
            ),
        },
        Some(_) => Err(key_path_err("transfer", "string")),
    }
}

/// One message, from the members of its object.
fn message_from_obj(ms: &Vec<(String, Json)>) -> (r: Result<Message, DecodeError>)
    ensures
        dv(r) == message_from_obj_spec(member_view(ms@)),
{
    let code = match req_str(ms, "code") {
        Ok(v) => v,
        Err(e) => return Err(e),
    };
    let severity = match severity_field(ms) {
        Ok(v) => v,
        Err(e) => return Err(e),
    };
    let pointer = match opt_str(ms, "pointer") {
        Ok(v) => v,
        Err(e) => return Err(e),
    };
    let offset = match opt_u32(ms, "offset") {
        Ok(v) => v,
        Err(e) => return Err(e),
    };
    let message = match req_str(ms, "message") {
        Ok(v) => v,
        Err(e) => return Err(e),
    };
    Ok(Message { code, severity, pointer, offset, message })
}

/// One message, from any JSON value.
fn message_from_json(j: &Json) -> (r: Result<Message, DecodeError>)
    ensures
        dv(r) == message_from_spec(j.deep_view()),
{
    match j {
        Json::Obj(ms) => message_from_obj(ms),
        _ => Err(doc_err("object")),
    }
}

/// `r` with `pre` prepended to its list on success.
pub open spec fn prepend_msgs(
    pre: Seq<MessageSpec>,
    r: Result<Seq<MessageSpec>, DecodeErrorSpec>,
) -> Result<Seq<MessageSpec>, DecodeErrorSpec> {
    match r {
        Ok(rest) => Ok(pre + rest),
        Err(e) => Err(e),
    }
}

/// The messages of an array, in order; the first failing element decides.
pub open spec fn messages_from_seq_spec(items: Seq<JsonSpec>) -> Result<
    Seq<MessageSpec>,
    DecodeErrorSpec,
>
    decreases items.len(),
{
    if items.len() == 0 {
        Ok(Seq::empty())
    } else {
        match message_from_spec(items[0]) {
            Ok(m) => prepend_msgs(seq![m], messages_from_seq_spec(items.skip(1))),
            Err(e) => Err(e),
        }
    }
}

/// The messages of an array, in order.
fn messages_from_seq(items: &Vec<Json>) -> (r: Result<Vec<Message>, DecodeError>)
    ensures
        dv(r) == messages_from_seq_spec(json_seq_view(items@)),
{
    let ghost s = json_seq_view(items@);
    let mut out: Vec<Message> = Vec::new();
    proof {
        lemma_json_seq_view(items@);
        assert(s.skip(0) =~= s);
        assert(out.deep_view() =~= Seq::<MessageSpec>::empty());
    }
    for i in 0..items.len()
        invariant
            s == json_seq_view(items@),
            s.len() == items@.len(),
            forall|k: int| 0 <= k < s.len() ==> s[k] == items@[k].deep_view(),
            messages_from_seq_spec(s) == prepend_msgs(
                out.deep_view(),
                messages_from_seq_spec(s.skip(i as int)),
            ),
    {
        proof {
            assert(s.skip(i as int).len() > 0);
            assert(s.skip(i as int)[0] == s[i as int]);
            assert(s.skip(i as int).skip(1) =~= s.skip(i as int + 1));
        }
        match message_from_json(&items[i]) {
            Ok(m) => {
                let ghost pre = out.deep_view();
                let ghost mv = m.deep_view();
                out.push(m);
                proof {
                    assert(out.deep_view() =~= pre + seq![mv]);
                    let rest = messages_from_seq_spec(s.skip(i as int + 1));
                    if rest is Ok {
                        assert(pre + (seq![mv] + rest->Ok_0) =~= (pre + seq![mv]) + rest->Ok_0);
                    }
                }
            },
            Err(e) => {
                return Err(e);
            },
        }
    }
    proof {
        assert(s.skip(items@.len() as int) =~= Seq::<JsonSpec>::empty());
        assert(out.deep_view() + Seq::<MessageSpec>::empty() =~= out.deep_view());
    }
    Ok(out)
}

/// An image, from the members of its object.
pub open spec fn image_from_obj_spec(ms: Seq<(Seq<char>, JsonSpec)>) -> Result<
    ImageSpec,
    DecodeErrorSpec,
> {
    let width = req_u32_spec(ms, "width"@);
    let height = req_u32_spec(ms, "height"@);
    let format = format_field_spec(ms);
    let primaries = primaries_field_spec(ms);
    let transfer = transfer_field_spec(ms);
    let bits = opt_u32_spec(ms, "bits"@);
    if width is Err {
        Err(width->Err_0)
    } else if height is Err {
        Err(height->Err_0)
    } else if format is Err {
        Err(format->Err_0)
    } else if primaries is Err {
        Err(primaries->Err_0)
    } else if transfer is Err {
        Err(transfer->Err_0)
    } else if bits is Err {
        Err(bits->Err_0)
    } else {
        Ok(
            ImageSpec {
                width: width->Ok_0,
                height: height->Ok_0,
                format: format->Ok_0,
                primaries: primaries->Ok_0,
                transfer: transfer->Ok_0,
                bits: bits->Ok_0,
            },
        )
    }
}

/// The optional `image` field of a resource.
pub open spec fn image_field_spec(ms: Seq<(Seq<char>, JsonSpec)>) -> Result<
    Option<ImageSpec>,
    DecodeErrorSpec,
> {
    match obj_get_spec(ms, "image"@) {
        None => Ok(None),
        Some(JsonSpec::Null) => Ok(None),
        Some(JsonSpec::Obj(m2)) => match image_from_obj_spec(m2) {
            Ok(img) => Ok(Some(img)),
            Err(e) => Err(prefix_spec("image"@, e)),
        },
        Some(_) => Err(missing("image"@, "object"@)),
    }
}

/// One resource, from the members of its object.
pub open spec fn resource_from_obj_spec(ms: Seq<(Seq<char>, JsonSpec)>) -> Result<
    ResourceSpec,
    DecodeErrorSpec,
> {
    let pointer = req_str_spec(ms, "pointer"@);
    let storage = storage_field_spec(ms);
    let mime_type = opt_str_spec(ms, "mimeType"@);
    let byte_length = opt_u32_spec(ms, "byteLength"@);
    let uri = opt_str_spec(ms, "uri"@);
    let image = image_field_spec(ms);
    if pointer is Err {
        Err(pointer->Err_0)
    } else if storage is Err {
        Err(storage->Err_0)
    } else if mime_type is Err {
        Err(mime_type->Err_0)
    } else if byte_length is Err {
        Err(byte_length->Err_0)
    } else if uri is Err {
        Err(uri->Err_0)
    } else if image is Err {
        Err(image->Err_0)
    } else {
        Ok(
            ResourceSpec {
                pointer: pointer->Ok_0,
                storage: storage->Ok_0,
                mime_type: mime_type->Ok_0,
                byte_length: byte_length->Ok_0,
                uri: uri->Ok_0,
                image: image->Ok_0,
            },
        )
    }
}

/// One resource, from any JSON value.
pub open spec fn resource_from_spec(j: JsonSpec) -> Result<ResourceSpec, DecodeErrorSpec> {
    match j {
        JsonSpec::Obj(ms) => resource_from_obj_spec(ms),
        _ => Err(
            DecodeErrorSpec::Malformed {
                path: Seq::empty(),
                expected: "object"@,
                cause: Seq::empty(),
            },
        ),
    }
}

/// `r` with `pre` prepended to its list on success.
pub open spec fn prepend_resources(
    pre: Seq<ResourceSpec>,
    r: Result<Seq<ResourceSpec>, DecodeErrorSpec>,
) -> Result<Seq<ResourceSpec>, DecodeErrorSpec> {
    match r {
        Ok(rest) => Ok(pre + rest),
        Err(e) => Err(e),
    }
}

/// The resources of an array, in order; the first failing element decides.
pub open spec fn resources_from_seq_spec(items: Seq<JsonSpec>) -> Result<
    Seq<ResourceSpec>,
    DecodeErrorSpec,
>
    decreases items.len(),
{
    if items.len() == 0 {
        Ok(Seq::empty())
    } else {
        match resource_from_spec(items[0]) {
            Ok(rs) => prepend_resources(seq![rs], resources_from_seq_spec(items.skip(1))),
            Err(e) => Err(e),
        }
    }
}

/// `r` with `pre` prepended on success.
pub open spec fn prepend_strs(pre: Seq<Seq<char>>, r: Option<Seq<Seq<char>>>) -> Option<
    Seq<Seq<char>>,
> {
    match r {
        Some(rest) => Some(pre + rest),
        None => None,
    }
}

/// The strings of an array, in order; `None` where an element is not a
/// string.
pub open spec fn strs_from_seq_spec(items: Seq<JsonSpec>) -> Option<Seq<Seq<char>>>
    decreases items.len(),
{
    if items.len() == 0 {
        Some(Seq::empty())
    } else {
        match items[0] {
            JsonSpec::Str(x) => prepend_strs(seq![x], strs_from_seq_spec(items.skip(1))),
            _ => None,
        }
    }
}

/// An image, from the members of its object.
fn image_from_obj(ms: &Vec<(String, Json)>) -> (r: Result<Image, DecodeError>)
    ensures
        dv(r) == image_from_obj_spec(member_view(ms@)),
{
    let width = match req_u32(ms, "width") {
        Ok(v) => v,
        Err(e) => return Err(e),
    };
    let height = match req_u32(ms, "height") {
        Ok(v) => v,
        Err(e) => return Err(e),
    };
    let format = match format_field(ms) {
        Ok(v) => v,
        Err(e) => return Err(e),
    };
    let primaries = match primaries_field(ms) {
        Ok(v) => v,
        Err(e) => return Err(e),
    };
    let transfer = match transfer_field(ms) {
        Ok(v) => v,
        Err(e) => return Err(e),
    };
    let bits = match opt_u32(ms, "bits") {
        Ok(v) => v,
        Err(e) => return Err(e),
    };
    Ok(Image { width, height, format, primaries, transfer, bits })
}

/// The optional `image` field of a resource.
fn image_field(ms: &Vec<(String, Json)>) -> (r: Result<Option<Image>, DecodeError>)
    ensures
        dv(r) == image_field_spec(member_view(ms@)),
{
    match obj_get(ms, "image") {
        None => Ok(None),
        Some(Json::Null) => Ok(None),
        Some(Json::Obj(m2)) => match image_from_obj(m2) {
            Ok(img) => Ok(Some(img)),
            Err(e) => Err(prefix_err("image", e)),
        },
        Some(_) => Err(key_path_err("image", "object")),
    }
}

/// One resource, from the members of its object.
fn resource_from_obj(ms: &Vec<(String, Json)>) -> (r: Result<Resource, DecodeError>)
    ensures
        dv(r) == resource_from_obj_spec(member_view(ms@)),
{
    let pointer = match req_str(ms, "pointer") {
        Ok(v) => v,
        Err(e) => return Err(e),
    };
    let storage = match storage_field(ms) {
        Ok(v) => v,
        Err(e) => return Err(e),
    };
    let mime_type = match opt_str(ms, "mimeType") {
        Ok(v) => v,
        Err(e) => return Err(e),
    };
    let byte_length = match opt_u32(ms, "byteLength") {
        Ok(v) => v,
        Err(e) => return Err(e),
    };
    let uri = match opt_str(ms, "uri") {
        Ok(v) => v,
        Err(e) => return Err(e),
    };
    let image = match image_field(ms) {
        Ok(v) => v,
        Err(e) => return Err(e),
    };
    Ok(Resource { pointer, storage, mime_type, byte_length, uri, image })
}

/// One resource, from any JSON value.
fn resource_from_json(j: &Json) -> (r: Result<Resource, DecodeError>)
    ensures
        dv(r) == resource_from_spec(j.deep_view()),
{
    match j {
        Json::Obj(ms) => resource_from_obj(ms),
        _ => Err(doc_err("object")),
    }
}

/// The resources of an array, in order.
fn resources_from_seq(items: &Vec<Json>) -> (r: Result<Vec<Resource>, DecodeError>)
    ensures
        dv(r) == resources_from_seq_spec(json_seq_view(items@)),
{
    let ghost s = json_seq_view(items@);
    let mut out: Vec<Resource> = Vec::new();
    proof {
        lemma_json_seq_view(items@);
        assert(s.skip(0) =~= s);
        assert(out.deep_view() =~= Seq::<ResourceSpec>::empty());
    }
    for i in 0..items.len()
        invariant
            s == json_seq_view(items@),
            s.len() == items@.len(),
            forall|k: int| 0 <= k < s.len() ==> s[k] == items@[k].deep_view(),
            resources_from_seq_spec(s) == prepend_resources(
                out.deep_view(),
                resources_from_seq_spec(s.skip(i as int)),
            ),
    {
        proof {
            assert(s.skip(i as int).len() > 0);
            assert(s.skip(i as int)[0] == s[i as int]);
            assert(s.skip(i as int).skip(1) =~= s.skip(i as int + 1));
        }
        match resource_from_json(&items[i]) {
            Ok(rs) => {
                let ghost pre = out.deep_view();
                let ghost rv = rs.deep_view();
                out.push(rs);
                proof {
                    assert(out.deep_view() =~= pre + seq![rv]);
                    let rest = resources_from_seq_spec(s.skip(i as int + 1));
                    if rest is Ok {
                        assert(pre + (seq![rv] + rest->Ok_0) =~= (pre + seq![rv]) + rest->Ok_0);
                    }
                }
            },
            Err(e) => {
                return Err(e);
            },
        }
    }
    proof {
        assert(s.skip(items@.len() as int) =~= Seq::<JsonSpec>::empty());
        assert(out.deep_view() + Seq::<ResourceSpec>::empty() =~= out.deep_view());
    }
    Ok(out)
}

/// The strings of an array, in order.
fn strs_from_seq(items: &Vec<Json>) -> (r: Option<Vec<String>>)
    ensures
        match r {
            Some(v) => strs_from_seq_spec(json_seq_view(items@)) == Some(v.deep_view()),
            None => strs_from_seq_spec(json_seq_view(items@)) is None,
        },
{
    let ghost s = json_seq_view(items@);
    let mut out: Vec<String> = Vec::new();
    proof {
        lemma_json_seq_view(items@);
        assert(s.skip(0) =~= s);
        assert(out.deep_view() =~= Seq::<Seq<char>>::empty());
    }
    for i in 0..items.len()
        invariant
            s == json_seq_view(items@),
            s.len() == items@.len(),
            forall|k: int| 0 <= k < s.len() ==> s[k] == items@[k].deep_view(),
            strs_from_seq_spec(s) == prepend_strs(
                out.deep_view(),
                strs_from_seq_spec(s.skip(i as int)),
            ),
    {
        proof {
            assert(s.skip(i as int).len() > 0);
            assert(s.skip(i as int)[0] == s[i as int]);
            assert(s.skip(i as int).skip(1) =~= s.skip(i as int + 1));
        }
        match &items[i] {
            Json::Str(x) => {
                let ghost pre = out.deep_view();
                let ghost xv = x@;
                out.push(x.clone());
                proof {
                    assert(out.deep_view() =~= pre + seq![xv]);
                    let rest = strs_from_seq_spec(s.skip(i as int + 1));
                    if rest is Some {
                        assert(pre + (seq![xv] + rest->0) =~= (pre + seq![xv]) + rest->0);
                    }
                }
            },
            _ => {
                return None;
            },
        }
    }
    proof {
        assert(s.skip(items@.len() as int) =~= Seq::<JsonSpec>::empty());
        assert(out.deep_view() + Seq::<Seq<char>>::empty() =~= out.deep_view());
    }
    Some(out)
}

/// The error for a document or element whose own shape is wrong.
fn doc_err(expected: &str) -> (r: DecodeError)
    ensures
        r.deep_view() == (DecodeErrorSpec::Malformed {
            path: Seq::<Seq<char>>::empty(),
            expected: expected@,
            cause: Seq::<char>::empty(),
        }),
{
    let path: Vec<String> = Vec::new();
    proof {
        assert(path.deep_view() =~= Seq::<Seq<char>>::empty());
    }
    DecodeError::Malformed { path, expected: expected.to_string(), cause: String::new() }
}

/// The `messages` field of `issues`: absent or `null` decodes to the empty
/// list.
pub open spec fn messages_field_spec(ms: Seq<(Seq<char>, JsonSpec)>) -> Result<
    Seq<MessageSpec>,
    DecodeErrorSpec,
> {
    match obj_get_spec(ms, "messages"@) {
        None => Ok(Seq::empty()),
        Some(JsonSpec::Null) => Ok(Seq::empty()),
        Some(JsonSpec::Arr(items)) => match messages_from_seq_spec(items) {
            Ok(msgs) => Ok(msgs),
            Err(e) => Err(prefix_spec("messages"@, e)),
        },
        Some(_) => Err(missing("messages"@, "array"@)),
    }
}

/// The issues aggregate, from the members of its object.
pub open spec fn issues_from_obj_spec(ms: Seq<(Seq<char>, JsonSpec)>) -> Result<
    IssuesSpec,
    DecodeErrorSpec,
> {
    let num_errors = req_u32_spec(ms, "numErrors"@);
    let num_warnings = req_u32_spec(ms, "numWarnings"@);
    let num_infos = req_u32_spec(ms, "numInfos"@);
    let num_hints = req_u32_spec(ms, "numHints"@);
    let messages = messages_field_spec(ms);
    let truncated = req_bool_spec(ms, "truncated"@);
    if num_errors is Err {
        Err(num_errors->Err_0)
    } else if num_warnings is Err {
        Err(num_warnings->Err_0)
    } else if num_infos is Err {
        Err(num_infos->Err_0)
    } else if num_hints is Err {
        Err(num_hints->Err_0)
    } else if messages is Err {
        Err(messages->Err_0)
    } else if truncated is Err {
        Err(truncated->Err_0)
    } else {
        Ok(
            IssuesSpec {
                num_errors: num_errors->Ok_0,
                num_warnings: num_warnings->Ok_0,
                num_infos: num_infos->Ok_0,
                num_hints: num_hints->Ok_0,
                messages: messages->Ok_0,
                truncated: truncated->Ok_0,
            },
        )
    }
}

/// The required `issues` field of a report.
pub open spec fn issues_field_spec(ms: Seq<(Seq<char>, JsonSpec)>) -> Result<
    IssuesSpec,
    DecodeErrorSpec,
> {
    match obj_get_spec(ms, "issues"@) {
        Some(JsonSpec::Obj(m2)) => match issues_from_obj_spec(m2) {
            Ok(iss) => Ok(iss),
            Err(e) => Err(prefix_spec("issues"@, e)),
        },
        _ => Err(missing("issues"@, "object"@)),
    }
}

/// An optional field holding an array of strings.
pub open spec fn strs_field_spec(ms: Seq<(Seq<char>, JsonSpec)>, key: Seq<char>) -> Result<
    Option<Seq<Seq<char>>>,
    DecodeErrorSpec,
> {
    match obj_get_spec(ms, key) {
        None => Ok(None),
        Some(JsonSpec::Null) => Ok(None),
        Some(JsonSpec::Arr(items)) => match strs_from_seq_spec(items) {
            Some(ss) => Ok(Some(ss)),
            None => Err(missing(key, "array of strings"@)),
        },
        Some(_) => Err(missing(key, "array of strings"@)),
    }
}

/// The optional `resources` field of `info`.
pub open spec fn resources_field_spec(ms: Seq<(Seq<char>, JsonSpec)>) -> Result<
    Option<Seq<ResourceSpec>>,
    DecodeErrorSpec,
> {
    match obj_get_spec(ms, "resources"@) {
        None => Ok(None),
        Some(JsonSpec::Null) => Ok(None),
        Some(JsonSpec::Arr(items)) => match resources_from_seq_spec(items) {
            Ok(rs) => Ok(Some(rs)),
            Err(e) => Err(prefix_spec("resources"@, e)),
        },
        Some(_) => Err(missing("resources"@, "array"@)),
    }
}

/// The asset information, from the members of its object.
pub open spec fn info_from_obj_spec(ms: Seq<(Seq<char>, JsonSpec)>) -> Result<
    InfoSpec,
    DecodeErrorSpec,
> {
    let version = req_str_spec(ms, "version"@);
    let min_version = opt_str_spec(ms, "minVersion"@);
    let generator = opt_str_spec(ms, "generator"@);
    let extensions_used = strs_field_spec(ms, "extensionsUsed"@);
    let extensions_required = strs_field_spec(ms, "extensionsRequired"@);
    let resources = resources_field_spec(ms);
    if version is Err {
        Err(version->Err_0)
    } else if min_version is Err {
        Err(min_version->Err_0)
    } else if generator is Err {
        Err(generator->Err_0)
    } else if extensions_used is Err {
        Err(extensions_used->Err_0)
    } else if extensions_required is Err {
        Err(extensions_required->Err_0)
    } else if resources is Err {
        Err(resources->Err_0)
    } else {
        Ok(
            InfoSpec {
                version: version->Ok_0,
                min_version: min_version->Ok_0,
                generator: generator->Ok_0,
                extensions_used: extensions_used->Ok_0,
                extensions_required: extensions_required->Ok_0,
                resources: resources->Ok_0,
            },
        )
    }
}

/// The optional `info` field of a report.
pub open spec fn info_field_spec(ms: Seq<(Seq<char>, JsonSpec)>) -> Result<
    Option<InfoSpec>,
    DecodeErrorSpec,
> {
    match obj_get_spec(ms, "info"@) {
        None => Ok(None),
        Some(JsonSpec::Null) => Ok(None),
        Some(JsonSpec::Obj(m2)) => match info_from_obj_spec(m2) {
            Ok(info) => Ok(Some(info)),
            Err(e) => Err(prefix_spec("info"@, e)),
        },
        Some(_) => Err(missing("info"@, "object"@)),
    }
}

/// A report, from the members of its top-level object.
pub open spec fn report_from_obj_spec(ms: Seq<(Seq<char>, JsonSpec)>) -> Result<
    ValidationReportSpec,
    DecodeErrorSpec,
> {
    let uri = opt_str_spec(ms, "uri"@);
    let mime_type = mime_field_spec(ms);
    let validator_version = req_str_spec(ms, "validatorVersion"@);
    let validated_at = opt_str_spec(ms, "validatedAt"@);
    let issues = issues_field_spec(ms);
    let info = info_field_spec(ms);
    if uri is Err {
        Err(uri->Err_0)
    } else if mime_type is Err {
        Err(mime_type->Err_0)
    } else if validator_version is Err {
        Err(validator_version->Err_0)
    } else if validated_at is Err {
        Err(validated_at->Err_0)
    } else if issues is Err {
        Err(issues->Err_0)
    } else if info is Err {
        Err(info->Err_0)
    } else {
        Ok(
            ValidationReportSpec {
                uri: uri->Ok_0,
                mime_type: mime_type->Ok_0,
                validator_version: validator_version->Ok_0,
                validated_at: validated_at->Ok_0,
                issues: issues->Ok_0,
                info: info->Ok_0,
            },
        )
    }
}

/// A report, from any JSON value: the document must be an object.
pub open spec fn report_from_json_spec(j: JsonSpec) -> Result<
    ValidationReportSpec,
    DecodeErrorSpec,
> {
    match j {
        JsonSpec::Obj(ms) => report_from_obj_spec(ms),
        _ => Err(
            DecodeErrorSpec::Malformed {
                path: Seq::empty(),
                expected: "object"@,
                cause: Seq::empty(),
            },
        ),
    }
}

/// A report, from a text: parse as one JSON document, then read the schema.
pub open spec fn decode_report_text_spec(text: Seq<char>) -> Result<
    ValidationReportSpec,
    DecodeErrorSpec,
> {
    match parsed_json(text) {
        Some(j) => report_from_json_spec(j),
        None => Err(
            DecodeErrorSpec::Malformed {
                path: Seq::empty(),
                expected: "JSON"@,
                cause: parse_error_text(text),
            },
        ),
    }
}

/// A report, from raw bytes: read them as text first, lossily.
pub open spec fn decode_report_spec(b: Seq<u8>) -> Result<
    ValidationReportSpec,
    DecodeErrorSpec,
> {
    decode_report_text_spec(lossy_text(b))
}

/// The issues aggregate, from the members of its object.
fn issues_from_obj(ms: &Vec<(String, Json)>) -> (r: Result<Issues, DecodeError>)
    ensures
        dv(r) == issues_from_obj_spec(member_view(ms@)),
{
    let num_errors = match req_u32(ms, "numErrors") {
        Ok(v) => v,
        Err(e) => return Err(e),
    };
    let num_warnings = match req_u32(ms, "numWarnings") {
        Ok(v) => v,
        Err(e) => return Err(e),
    };
    let num_infos = match req_u32(ms, "numInfos") {
        Ok(v) => v,
        Err(e) => return Err(e),
    };
    let num_hints = match req_u32(ms, "numHints") {
        Ok(v) => v,
        Err(e) => return Err(e),
    };
    let messages = match messages_field(ms) {
        Ok(v) => v,
        Err(e) => return Err(e),
    };
    let truncated = match req_bool(ms, "truncated") {
        Ok(v) => v,
        Err(e) => return Err(e),
    };
    Ok(Issues { num_errors, num_warnings, num_infos, num_hints, messages, truncated })
}

/// The `messages` field of `issues`.
fn messages_field(ms: &Vec<(String, Json)>) -> (r: Result<Vec<Message>, DecodeError>)
    ensures
        dv(r) == messages_field_spec(member_view(ms@)),
{
    match obj_get(ms, "messages") {
        None => {
            let empty: Vec<Message> = Vec::new();
            proof {
                assert(empty.deep_view() =~= Seq::<MessageSpec>::empty());
            }
            Ok(empty)
        },
        Some(Json::Null) => {
            let empty: Vec<Message> = Vec::new();
            proof {
                assert(empty.deep_view() =~= Seq::<MessageSpec>::empty());
            }
            Ok(empty)
        },
        Some(Json::Arr(items)) => match messages_from_seq(items) {
            Ok(msgs) => Ok(msgs),
            Err(e) => Err(prefix_err("messages", e)),
        },
        Some(_) => Err(key_path_err("messages", "array")),
    }
}

/// The required `issues` field of a report.
fn issues_field(ms: &Vec<(String, Json)>) -> (r: Result<Issues, DecodeError>)
    ensures
        dv(r) == issues_field_spec(member_view(ms@)),
{
    match obj_get(ms, "issues") {
        Some(Json::Obj(m2)) => match issues_from_obj(m2) {
            Ok(iss) => Ok(iss),
            Err(e) => Err(prefix_err("issues", e)),
        },
        _ => Err(key_path_err("issues", "object")),
    }
}

/// An optional field holding an array of strings.
fn strs_field(ms: &Vec<(String, Json)>, key: &str) -> (r: Result<
    Option<Vec<String>>,
    DecodeError,
>)
    ensures
        dv(r) == strs_field_spec(member_view(ms@), key@),
{
    match obj_get(ms, key) {
        None => Ok(None),
        Some(Json::Null) => Ok(None),
        Some(Json::Arr(items)) => match strs_from_seq(items) {
            Some(ss) => Ok(Some(ss)),
            None => Err(key_path_err(key, "array of strings")),
        },
        Some(_) => Err(key_path_err(key, "array of strings")),
    }
}

/// The optional `resources` field of `info`.
fn resources_field(ms: &Vec<(String, Json)>) -> (r: Result<Option<Vec<Resource>>, DecodeError>)
    ensures
        dv(r) == resources_field_spec(member_view(ms@)),
{
    match obj_get(ms, "resources") {
        None => Ok(None),
        Some(Json::Null) => Ok(None),
        Some(Json::Arr(items)) => match resources_from_seq(items) {
            Ok(rs) => Ok(Some(rs)),
            Err(e) => Err(prefix_err("resources", e)),
        },
        Some(_) => Err(key_path_err("resources", "array")),
    }
}

/// The asset information, from the members of its object.
fn info_from_obj(ms: &Vec<(String, Json)>) -> (r: Result<Info, DecodeError>)
    ensures
        dv(r) == info_from_obj_spec(member_view(ms@)),
{
    let version = match req_str(ms, "version") {
        Ok(v) => v,
        Err(e) => return Err(e),
    };
    let min_version = match opt_str(ms, "minVersion") {
        Ok(v) => v,
        Err(e) => return Err(e),
    };
    let generator = match opt_str(ms, "generator") {
        Ok(v) => v,
        Err(e) => return Err(e),
    };
    let extensions_used = match strs_field(ms, "extensionsUsed") {
        Ok(v) => v,
        Err(e) => return Err(e),
    };
    let extensions_required = match strs_field(ms, "extensionsRequired") {
        Ok(v) => v,
        Err(e) => return Err(e),
    };
    let resources = match resources_field(ms) {
        Ok(v) => v,
        Err(e) => return Err(e),
    };
    Ok(
        Info {
            version,
            min_version,
            generator,
            extensions_used,
            extensions_required,
            resources,
        },
    )
}

/// The optional `info` field of a report.
fn info_field(ms: &Vec<(String, Json)>) -> (r: Result<Option<Info>, DecodeError>)
    ensures
        dv(r) == info_field_spec(member_view(ms@)),
{
    match obj_get(ms, "info") {
        None => Ok(None),
        Some(Json::Null) => Ok(None),
        Some(Json::Obj(m2)) => match info_from_obj(m2) {
            Ok(info) => Ok(Some(info)),
            Err(e) => Err(prefix_err("info", e)),
        },
        Some(_) => Err(key_path_err("info", "object")),
    }
}

/// A report, from the members of its top-level object.
fn report_from_obj(ms: &Vec<(String, Json)>) -> (r: Result<ValidationReport, DecodeError>)
    ensures
        dv(r) == report_from_obj_spec(member_view(ms@)),
{
    let uri = match opt_str(ms, "uri") {
        Ok(v) => v,
        Err(e) => return Err(e),
    };
    let mime_type = match mime_field(ms) {
        Ok(v) => v,
        Err(e) => return Err(e),
    };
    let validator_version = match req_str(ms, "validatorVersion") {
        Ok(v) => v,
        Err(e) => return Err(e),
    };
    let validated_at = match opt_str(ms, "validatedAt") {
        Ok(v) => v,
        Err(e) => return Err(e),
    };
    let issues = match issues_field(ms) {
        Ok(v) => v,
        Err(e) => return Err(e),
    };
    let info = match info_field(ms) {
        Ok(v) => v,
        Err(e) => return Err(e),
    };
    Ok(
        ValidationReport {
            uri,
            mime_type,
            validator_version,
            validated_at,
            issues,
            info,
        },
    )
}

/// Read a report from a JSON tree.  The document must be an object whose
/// shape matches the report schema; unknown members are ignored.
pub fn report_from_json(j: &Json) -> (r: Result<ValidationReport, DecodeError>)
    ensures
        dv(r) == report_from_json_spec(j.deep_view()),
{
    match j {
        Json::Obj(ms) => report_from_obj(ms),
        _ => Err(doc_err("object")),
    }
}

/// Decode a report from a text: parse it as one JSON document, then read
/// the schema.
pub fn decode_report_str(s: &str) -> (r: Result<ValidationReport, DecodeError>)
    ensures
        dv(r) == decode_report_text_spec(s@),
{
    match parse_json_text(s) {
        Ok(j) => report_from_json(&j),
        Err(msg) => Err(parse_failure_err(msg)),
    }
}

/// The error for a payload that is not valid JSON at all, carrying the
/// parser's own message.
fn parse_failure_err(msg: String) -> (r: DecodeError)
    ensures
        r.deep_view() == (DecodeErrorSpec::Malformed {
            path: Seq::<Seq<char>>::empty(),
            expected: "JSON"@,
            cause: msg@,
        }),
{
    let path: Vec<String> = Vec::new();
    proof {
        assert(path.deep_view() =~= Seq::<Seq<char>>::empty());
    }
    DecodeError::Malformed { path, expected: "JSON".to_string(), cause: msg }
}

/// Decode a report from raw bytes, as captured from an external validator's
/// standard output: read them as text, replacing invalid UTF-8 sequences,
/// then parse and read the schema.
pub fn decode_report(bytes: &[u8]) -> (r: Result<ValidationReport, DecodeError>)
    ensures
        dv(r) == decode_report_spec(bytes@),
{
    let text = lossy_utf8(bytes);
    decode_report_str(text.as_str())
}

} // verus!
