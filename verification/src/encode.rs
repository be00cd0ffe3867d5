//! Encoding a `ValidationReport` back into a JSON tree.
//!
//! The encoder emits every present field under its wire name, in the schema's
//! order, and omits absent optional fields altogether rather than writing
//! `null`.  Decoding an encoded report gives the report back; the proof is in
//! `laws`.

use vstd::prelude::*;

use crate::json::{member_view, json_seq_view, lemma_member_view, Json, JsonSpec, json_text,
    json_to_text};
use crate::report::{
    format_token_spec, mime_token_spec, primaries_token_spec, severity_code_spec,
    storage_token_spec, transfer_token_spec, Format, Image, ImageSpec, Info, InfoSpec, Issues,
    IssuesSpec, Message, MessageSpec, MimeType, Primaries, Resource, ResourceSpec, Severity,
    Storage, Transfer, ValidationReport, ValidationReportSpec,
};

verus! {

/// A single member.
pub open spec fn one_member(key: Seq<char>, v: JsonSpec) -> Seq<(Seq<char>, JsonSpec)> {
    seq![(key, v)]
}

/// A member present only where `o` is present.
pub open spec fn opt_member(key: Seq<char>, o: Option<JsonSpec>) -> Seq<(Seq<char>, JsonSpec)> {
    match o {
        Some(v) => one_member(key, v),
        None => Seq::empty(),
    }
}

/// A string member present only where `o` is present.
pub open spec fn opt_str_member(key: Seq<char>, o: Option<Seq<char>>) -> Seq<
    (Seq<char>, JsonSpec),
> {
    match o {
        Some(s) => one_member(key, JsonSpec::Str(s)),
        None => Seq::empty(),
    }
}

/// An integer member present only where `o` is present.
pub open spec fn opt_u32_member(key: Seq<char>, o: Option<u32>) -> Seq<(Seq<char>, JsonSpec)> {
    match o {
        Some(n) => one_member(key, JsonSpec::UInt(n as u64)),
        None => Seq::empty(),
    }
}

/// The JSON tree of one message.
pub open spec fn message_to_json_spec(m: MessageSpec) -> JsonSpec {
    JsonSpec::Obj(
        one_member("code"@, JsonSpec::Str(m.code)) + one_member(
            "severity"@,
            JsonSpec::UInt(severity_code_spec(m.severity)),
        ) + opt_str_member("pointer"@, m.pointer) + opt_u32_member("offset"@, m.offset)
            + one_member("message"@, JsonSpec::Str(m.message)),
    )
}

/// The JSON trees of a list of messages, in order.
pub open spec fn messages_to_seq_spec(msgs: Seq<MessageSpec>) -> Seq<JsonSpec>
    decreases msgs.len(),
{
    if msgs.len() == 0 {
        Seq::empty()
    } else {
        seq![message_to_json_spec(msgs[0])] + messages_to_seq_spec(msgs.skip(1))
    }
}

/// The JSON tree of the issues aggregate.
pub open spec fn issues_to_json_spec(i: IssuesSpec) -> JsonSpec {
    JsonSpec::Obj(
        one_member("numErrors"@, JsonSpec::UInt(i.num_errors as u64)) + one_member(
            "numWarnings"@,
            JsonSpec::UInt(i.num_warnings as u64),
        ) + one_member("numInfos"@, JsonSpec::UInt(i.num_infos as u64)) + one_member(
            "numHints"@,
            JsonSpec::UInt(i.num_hints as u64),
        ) + one_member("messages"@, JsonSpec::Arr(messages_to_seq_spec(i.messages)))
            + one_member("truncated"@, JsonSpec::Bool(i.truncated)),
    )
}

/// The JSON tree of an image.
pub open spec fn image_to_json_spec(img: ImageSpec) -> JsonSpec {
    JsonSpec::Obj(
        one_member("width"@, JsonSpec::UInt(img.width as u64)) + one_member(
            "height"@,
            JsonSpec::UInt(img.height as u64),
        ) + opt_member(
            "format"@,
            match img.format {
                Some(f) => Some(JsonSpec::Str(format_token_spec(f))),
                None => None,
            },
        ) + opt_member(
            "primaries"@,
            match img.primaries {
                Some(p) => Some(JsonSpec::Str(primaries_token_spec(p))),
                None => None,
            },
        ) + opt_member(
            "transfer"@,
            match img.transfer {
                Some(t) => Some(JsonSpec::Str(transfer_token_spec(t))),
                None => None,
            },
        ) + opt_u32_member("bits"@, img.bits),
    )
}

/// The JSON tree of one resource.
pub open spec fn resource_to_json_spec(r: ResourceSpec) -> JsonSpec {
    JsonSpec::Obj(
        one_member("pointer"@, JsonSpec::Str(r.pointer)) + one_member(
            "storage"@,
            JsonSpec::Str(storage_token_spec(r.storage)),
        ) + opt_str_member("mimeType"@, r.mime_type) + opt_u32_member(
            "byteLength"@,
            r.byte_length,
        ) + opt_str_member("uri"@, r.uri) + opt_member(
            "image"@,
            match r.image {
                Some(img) => Some(image_to_json_spec(img)),
                None => None,
            },
        ),
    )
}

/// The JSON trees of a list of resources, in order.
pub open spec fn resources_to_seq_spec(rs: Seq<ResourceSpec>) -> Seq<JsonSpec>
    decreases rs.len(),
{
    if rs.len() == 0 {
        Seq::empty()
    } else {
        seq![resource_to_json_spec(rs[0])] + resources_to_seq_spec(rs.skip(1))
    }
}

/// The JSON strings of a list of strings, in order.
pub open spec fn strs_to_seq_spec(ss: Seq<Seq<char>>) -> Seq<JsonSpec>
    decreases ss.len(),
{
    if ss.len() == 0 {
        Seq::empty()
    } else {
        seq![JsonSpec::Str(ss[0])] + strs_to_seq_spec(ss.skip(1))
    }
}

/// The JSON tree of the asset information.
pub open spec fn info_to_json_spec(info: InfoSpec) -> JsonSpec {
    JsonSpec::Obj(
        one_member("version"@, JsonSpec::Str(info.version)) + opt_str_member(
            "minVersion"@,
            info.min_version,
        ) + opt_str_member("generator"@, info.generator) + opt_member(
            "extensionsUsed"@,
            match info.extensions_used {
                Some(ss) => Some(JsonSpec::Arr(strs_to_seq_spec(ss))),
                None => None,
            },
        ) + opt_member(
            "extensionsRequired"@,
            match info.extensions_required {
                Some(ss) => Some(JsonSpec::Arr(strs_to_seq_spec(ss))),
                None => None,
            },
        ) + opt_member(
            "resources"@,
            match info.resources {
                Some(rs) => Some(JsonSpec::Arr(resources_to_seq_spec(rs))),
                None => None,
            },
        ),
    )
}

/// The JSON tree of a whole report.
pub open spec fn report_to_json_spec(r: ValidationReportSpec) -> JsonSpec {
    JsonSpec::Obj(
        opt_str_member("uri"@, r.uri) + opt_member(
            "mimeType"@,
            match r.mime_type {
                Some(m) => Some(JsonSpec::Str(mime_token_spec(m))),
                None => None,
            },
        ) + one_member("validatorVersion"@, JsonSpec::Str(r.validator_version)) + opt_str_member(
            "validatedAt"@,
            r.validated_at,
        ) + one_member("issues"@, issues_to_json_spec(r.issues)) + opt_member(
            "info"@,
            match r.info {
                Some(i) => Some(info_to_json_spec(i)),
                None => None,
            },
        ),
    )
}

/// Append one member.
fn push_member(members: &mut Vec<(String, Json)>, key: &str, v: Json)
    ensures
        member_view(final(members)@) == member_view(old(members)@) + seq![(key@, v.deep_view())],
{
    let ghost pre = member_view(members@);
    members.push((key.to_string(), v));
    proof {
        lemma_member_view(old(members)@);
        lemma_member_view(members@);
        assert(member_view(members@) =~= pre + seq![(key@, v.deep_view())]);
    }
}

/// Append an optional member.
fn push_opt(members: &mut Vec<(String, Json)>, key: &str, o: Option<Json>)
    ensures
        member_view(final(members)@) == member_view(old(members)@) + opt_member(
            key@,
            o.deep_view(),
        ),
{
    match o {
        Some(v) => push_member(members, key, v),
        None => {
            proof {
                assert(member_view(members@) =~= member_view(members@) + Seq::<
                    (Seq<char>, JsonSpec),
                >::empty());
            }
        },
    }
}

/// Append an optional string member.
fn push_opt_str(members: &mut Vec<(String, Json)>, key: &str, o: &Option<String>)
    ensures
        member_view(final(members)@) == member_view(old(members)@) + opt_str_member(
            key@,
            o.deep_view(),
        ),
{
    match o {
        Some(s) => push_member(members, key, Json::Str(s.clone())),
        None => {
            proof {
                assert(member_view(members@) =~= member_view(members@) + Seq::<
                    (Seq<char>, JsonSpec),
                >::empty());
            }
        },
    }
}

/// Append an optional integer member.
fn push_opt_u32(members: &mut Vec<(String, Json)>, key: &str, o: &Option<u32>)
    ensures
        member_view(final(members)@) == member_view(old(members)@) + opt_u32_member(key@, *o),
{
    match o {
        Some(n) => push_member(members, key, Json::UInt(*n as u64)),
        None => {
            proof {
                assert(member_view(members@) =~= member_view(members@) + Seq::<
                    (Seq<char>, JsonSpec),
                >::empty());
            }
        },
    }
}

/// The wire token of a MIME type, as a string.
fn mime_token(m: &MimeType) -> (r: String)
    ensures
        r@ == mime_token_spec(*m),
{
    match m {
        MimeType::ModelGltfJson => "model/gltf+json".to_string(),
        MimeType::ModelGltfBinary => "model/gltf-binary".to_string(),
    }
}

/// The wire token of a storage kind, as a string.
fn storage_token(s: &Storage) -> (r: String)
    ensures
        r@ == storage_token_spec(*s),
{
    match s {
        Storage::DataUri => "data-uri".to_string(),
        Storage::BufferView => "buffer-view".to_string(),
        Storage::Glb => "glb".to_string(),
        Storage::External => "external".to_string(),
    }
}

/// The wire token of an image format, as a string.
fn format_token(f: &Format) -> (r: String)
    ensures
        r@ == format_token_spec(*f),
{
    match f {
        Format::Rgb => "rgb".to_string(),
        Format::Rgba => "rgba".to_string(),
        Format::Luminance => "luminance".to_string(),
        Format::LuminanceAlpha => "luminanceAlpha".to_string(),
    }
}

/// The wire token of a primaries kind, as a string.
fn primaries_token(p: &Primaries) -> (r: String)
    ensures
        r@ == primaries_token_spec(*p),
{
    match p {
        Primaries::Srgb => "srgb".to_string(),
        Primaries::Custom => "custom".to_string(),
    }
}

/// The wire token of a transfer function, as a string.
fn transfer_token(t: &Transfer) -> (r: String)
    ensures
        r@ == transfer_token_spec(*t),
{
    match t {
        Transfer::Linear => "linear".to_string(),
        Transfer::Srgb => "srgb".to_string(),
        Transfer::Custom => "custom".to_string(),
    }
}

/// The JSON tree of one message.
pub fn message_to_json(m: &Message) -> (j: Json)
    ensures
        j.deep_view() == message_to_json_spec(m.deep_view()),
{
    let mut members: Vec<(String, Json)> = Vec::new();
    proof {
        lemma_member_view(members@);
        assert(member_view(members@) =~= Seq::<(Seq<char>, JsonSpec)>::empty());
    }
    push_member(&mut members, "code", Json::Str(m.code.clone()));
    push_member(&mut members, "severity", Json::UInt(m.severity.code()));
    push_opt_str(&mut members, "pointer", &m.pointer);
    push_opt_u32(&mut members, "offset", &m.offset);
    push_member(&mut members, "message", Json::Str(m.message.clone()));
    proof {
        assert(member_view(members@) =~= seq![
            ("code"@, JsonSpec::Str(m.code@)),
            ("severity"@, JsonSpec::UInt(severity_code_spec(m.severity))),
        ] + opt_str_member("pointer"@, m.pointer.deep_view()) + opt_u32_member(
            "offset"@,
            m.offset,
        ) + seq![("message"@, JsonSpec::Str(m.message@))]);
    }
    Json::Obj(members)
}

/// The JSON trees of a list of messages, in order.
fn messages_to_seq(msgs: &Vec<Message>) -> (r: Vec<Json>)
    ensures
        json_seq_view(r@) == messages_to_seq_spec(msgs.deep_view()),
{
    let mut out: Vec<Json> = Vec::new();
    for i in 0..msgs.len()
        invariant
            out@.len() == i,
            forall|k: int| 0 <= k < i ==> out@[k].deep_view() == message_to_json_spec(
                msgs@[k].deep_view(),
            ),
    {
        let j = message_to_json(&msgs[i]);
        out.push(j);
    }
    proof {
        crate::json::lemma_json_seq_view(out@);
        lemma_messages_to_seq_spec(msgs.deep_view());
        assert(json_seq_view(out@) =~= messages_to_seq_spec(msgs.deep_view()));
    }
    out
}

/// `messages_to_seq_spec` maps the list element by element.
pub proof fn lemma_messages_to_seq_spec(msgs: Seq<MessageSpec>)
    ensures
        messages_to_seq_spec(msgs).len() == msgs.len(),
        forall|i: int| 0 <= i < msgs.len() ==> messages_to_seq_spec(msgs)[i]
            == message_to_json_spec(msgs[i]),
    decreases msgs.len(),
{
    if msgs.len() > 0 {
        lemma_messages_to_seq_spec(msgs.skip(1));
        let head = seq![message_to_json_spec(msgs[0])];
        assert(messages_to_seq_spec(msgs) == head + messages_to_seq_spec(msgs.skip(1)));
        assert(head.len() == 1);
        assert(msgs.skip(1).len() == msgs.len() - 1);
        assert forall|i: int| 0 <= i < msgs.len() implies messages_to_seq_spec(msgs)[i]
            == message_to_json_spec(msgs[i]) by {
            if i > 0 {
                assert((head + messages_to_seq_spec(msgs.skip(1)))[i] == messages_to_seq_spec(
                    msgs.skip(1),
                )[i - 1]);
                assert(msgs.skip(1)[i - 1] == msgs[i]);
            }
        }
    } else {
        assert(messages_to_seq_spec(msgs).len() == 0);
    }
}

/// The JSON tree of the issues aggregate.
pub fn issues_to_json(i: &Issues) -> (j: Json)
    ensures
        j.deep_view() == issues_to_json_spec(i.deep_view()),
{
    let mut members: Vec<(String, Json)> = Vec::new();
    proof {
        lemma_member_view(members@);
        assert(member_view(members@) =~= Seq::<(Seq<char>, JsonSpec)>::empty());
    }
    push_member(&mut members, "numErrors", Json::UInt(i.num_errors as u64));
    push_member(&mut members, "numWarnings", Json::UInt(i.num_warnings as u64));
    push_member(&mut members, "numInfos", Json::UInt(i.num_infos as u64));
    push_member(&mut members, "numHints", Json::UInt(i.num_hints as u64));
    push_member(&mut members, "messages", Json::Arr(messages_to_seq(&i.messages)));
    push_member(&mut members, "truncated", Json::Bool(i.truncated));
    proof {
        assert(member_view(members@) =~= seq![
            ("numErrors"@, JsonSpec::UInt(i.num_errors as u64)),
            ("numWarnings"@, JsonSpec::UInt(i.num_warnings as u64)),
            ("numInfos"@, JsonSpec::UInt(i.num_infos as u64)),
            ("numHints"@, JsonSpec::UInt(i.num_hints as u64)),
            ("messages"@, JsonSpec::Arr(messages_to_seq_spec(i.messages.deep_view()))),
            ("truncated"@, JsonSpec::Bool(i.truncated)),
        ]);
    }
    Json::Obj(members)
}

/// The JSON tree of an image.
pub fn image_to_json(img: &Image) -> (j: Json)
    ensures
        j.deep_view() == image_to_json_spec(img.deep_view()),
{
    let mut members: Vec<(String, Json)> = Vec::new();
    proof {
        lemma_member_view(members@);
        assert(member_view(members@) =~= Seq::<(Seq<char>, JsonSpec)>::empty());
    }
    push_member(&mut members, "width", Json::UInt(img.width as u64));
    push_member(&mut members, "height", Json::UInt(img.height as u64));
    let format_member = match &img.format {
        Some(f) => Some(Json::Str(format_token(f))),
        None => None,
    };
    push_opt(&mut members, "format", format_member);
    let primaries_member = match &img.primaries {
        Some(p) => Some(Json::Str(primaries_token(p))),
        None => None,
    };
    push_opt(&mut members, "primaries", primaries_member);
    let transfer_member = match &img.transfer {
        Some(t) => Some(Json::Str(transfer_token(t))),
        None => None,
    };
    push_opt(&mut members, "transfer", transfer_member);
    push_opt_u32(&mut members, "bits", &img.bits);
    proof {
        assert(member_view(members@) =~= seq![
            ("width"@, JsonSpec::UInt(img.width as u64)),
            ("height"@, JsonSpec::UInt(img.height as u64)),
        ] + opt_member(
            "format"@,
            match img.format {
                Some(f) => Some(JsonSpec::Str(format_token_spec(f))),
                None => None,
            },
        ) + opt_member(
            "primaries"@,
            match img.primaries {
                Some(p) => Some(JsonSpec::Str(primaries_token_spec(p))),
                None => None,
            },
        ) + opt_member(
            "transfer"@,
            match img.transfer {
                Some(t) => Some(JsonSpec::Str(transfer_token_spec(t))),
                None => None,
            },
        ) + opt_u32_member("bits"@, img.bits));
    }
    Json::Obj(members)
}

/// The JSON tree of one resource.
pub fn resource_to_json(r: &Resource) -> (j: Json)
    ensures
        j.deep_view() == resource_to_json_spec(r.deep_view()),
{
    let mut members: Vec<(String, Json)> = Vec::new();
    proof {
        lemma_member_view(members@);
        assert(member_view(members@) =~= Seq::<(Seq<char>, JsonSpec)>::empty());
    }
    push_member(&mut members, "pointer", Json::Str(r.pointer.clone()));
    push_member(&mut members, "storage", Json::Str(storage_token(&r.storage)));
    push_opt_str(&mut members, "mimeType", &r.mime_type);
    push_opt_u32(&mut members, "byteLength", &r.byte_length);
    push_opt_str(&mut members, "uri", &r.uri);
    let image_member = match &r.image {
        Some(img) => Some(image_to_json(img)),
        None => None,
    };
    push_opt(&mut members, "image", image_member);
    proof {
        assert(member_view(members@) =~= seq![
            ("pointer"@, JsonSpec::Str(r.pointer@)),
            ("storage"@, JsonSpec::Str(storage_token_spec(r.storage))),
        ] + opt_str_member("mimeType"@, r.mime_type.deep_view()) + opt_u32_member(
            "byteLength"@,
            r.byte_length,
        ) + opt_str_member("uri"@, r.uri.deep_view()) + opt_member(
            "image"@,
            match r.image.deep_view() {
                Some(img) => Some(image_to_json_spec(img)),
                None => None,
            },
        ));
    }
    Json::Obj(members)
}

/// `resources_to_seq_spec` maps the list element by element.
pub proof fn lemma_resources_to_seq_spec(rs: Seq<ResourceSpec>)
    ensures
        resources_to_seq_spec(rs).len() == rs.len(),
        forall|i: int| 0 <= i < rs.len() ==> resources_to_seq_spec(rs)[i]
            == resource_to_json_spec(rs[i]),
    decreases rs.len(),
{
    if rs.len() > 0 {
        lemma_resources_to_seq_spec(rs.skip(1));
        let head = seq![resource_to_json_spec(rs[0])];
        assert(resources_to_seq_spec(rs) == head + resources_to_seq_spec(rs.skip(1)));
        assert(head.len() == 1);
        assert(rs.skip(1).len() == rs.len() - 1);
        assert forall|i: int| 0 <= i < rs.len() implies resources_to_seq_spec(rs)[i]
            == resource_to_json_spec(rs[i]) by {
            if i > 0 {
                assert((head + resources_to_seq_spec(rs.skip(1)))[i] == resources_to_seq_spec(
                    rs.skip(1),
                )[i - 1]);
                assert(rs.skip(1)[i - 1] == rs[i]);
            }
        }
    } else {
        assert(resources_to_seq_spec(rs).len() == 0);
    }
}

/// `strs_to_seq_spec` maps the list element by element.
pub proof fn lemma_strs_to_seq_spec(ss: Seq<Seq<char>>)
    ensures
        strs_to_seq_spec(ss).len() == ss.len(),
        forall|i: int| 0 <= i < ss.len() ==> strs_to_seq_spec(ss)[i] == JsonSpec::Str(ss[i]),
    decreases ss.len(),
{
    if ss.len() > 0 {
        lemma_strs_to_seq_spec(ss.skip(1));
        let head = seq![JsonSpec::Str(ss[0])];
        assert(strs_to_seq_spec(ss) == head + strs_to_seq_spec(ss.skip(1)));
        assert(head.len() == 1);
        assert(ss.skip(1).len() == ss.len() - 1);
        assert forall|i: int| 0 <= i < ss.len() implies strs_to_seq_spec(ss)[i] == JsonSpec::Str(
            ss[i],
        ) by {
            if i > 0 {
                assert((head + strs_to_seq_spec(ss.skip(1)))[i] == strs_to_seq_spec(ss.skip(1))[i
                    - 1]);
                assert(ss.skip(1)[i - 1] == ss[i]);
            }
        }
    } else {
        assert(strs_to_seq_spec(ss).len() == 0);
    }
}

/// The JSON trees of a list of resources, in order.
fn resources_to_seq(rs: &Vec<Resource>) -> (r: Vec<Json>)
    ensures
        json_seq_view(r@) == resources_to_seq_spec(rs.deep_view()),
{
    let mut out: Vec<Json> = Vec::new();
    for i in 0..rs.len()
        invariant
            out@.len() == i,
            forall|k: int| 0 <= k < i ==> out@[k].deep_view() == resource_to_json_spec(
                rs@[k].deep_view(),
            ),
    {
        let j = resource_to_json(&rs[i]);
        out.push(j);
    }
    proof {
        crate::json::lemma_json_seq_view(out@);
        lemma_resources_to_seq_spec(rs.deep_view());
        assert(json_seq_view(out@) =~= resources_to_seq_spec(rs.deep_view()));
    }
    out
}

/// The JSON strings of a list of strings, in order.
fn strs_to_seq(ss: &Vec<String>) -> (r: Vec<Json>)
    ensures
        json_seq_view(r@) == strs_to_seq_spec(ss.deep_view()),
{
    let mut out: Vec<Json> = Vec::new();
    for i in 0..ss.len()
        invariant
            out@.len() == i,
            forall|k: int| 0 <= k < i ==> out@[k].deep_view() == JsonSpec::Str(ss@[k]@),
    {
        out.push(Json::Str(ss[i].clone()));
    }
    proof {
        crate::json::lemma_json_seq_view(out@);
        lemma_strs_to_seq_spec(ss.deep_view());
        assert(json_seq_view(out@) =~= strs_to_seq_spec(ss.deep_view()));
    }
    out
}

/// The JSON tree of the asset information.
pub fn info_to_json(info: &Info) -> (j: Json)
    ensures
        j.deep_view() == info_to_json_spec(info.deep_view()),
{
    let mut members: Vec<(String, Json)> = Vec::new();
    proof {
        lemma_member_view(members@);
        assert(member_view(members@) =~= Seq::<(Seq<char>, JsonSpec)>::empty());
    }
    push_member(&mut members, "version", Json::Str(info.version.clone()));
    push_opt_str(&mut members, "minVersion", &info.min_version);
    push_opt_str(&mut members, "generator", &info.generator);
    let used_member = match &info.extensions_used {
        Some(ss) => Some(Json::Arr(strs_to_seq(ss))),
        None => None,
    };
    push_opt(&mut members, "extensionsUsed", used_member);
    let required_member = match &info.extensions_required {
        Some(ss) => Some(Json::Arr(strs_to_seq(ss))),
        None => None,
    };
    push_opt(&mut members, "extensionsRequired", required_member);
    let resources_member = match &info.resources {
        Some(rs) => Some(Json::Arr(resources_to_seq(rs))),
        None => None,
    };
    push_opt(&mut members, "resources", resources_member);
    proof {
        assert(member_view(members@) =~= seq![("version"@, JsonSpec::Str(info.version@))]
            + opt_str_member("minVersion"@, info.min_version.deep_view()) + opt_str_member(
            "generator"@,
            info.generator.deep_view(),
        ) + opt_member(
            "extensionsUsed"@,
            match info.extensions_used.deep_view() {
                Some(ss) => Some(JsonSpec::Arr(strs_to_seq_spec(ss))),
                None => None,
            },
        ) + opt_member(
            "extensionsRequired"@,
            match info.extensions_required.deep_view() {
                Some(ss) => Some(JsonSpec::Arr(strs_to_seq_spec(ss))),
                None => None,
            },
        ) + opt_member(
            "resources"@,
            match info.resources.deep_view() {
                Some(rs) => Some(JsonSpec::Arr(resources_to_seq_spec(rs))),
                None => None,
            },
        ));
    }
    Json::Obj(members)
}

/// The JSON tree of a whole report: every present field under its wire
/// name, absent fields omitted.
pub fn report_to_json(r: &ValidationReport) -> (j: Json)
    ensures
        j.deep_view() == report_to_json_spec(r.deep_view()),
{
    let mut members: Vec<(String, Json)> = Vec::new();
    proof {
        lemma_member_view(members@);
        assert(member_view(members@) =~= Seq::<(Seq<char>, JsonSpec)>::empty());
    }
    push_opt_str(&mut members, "uri", &r.uri);
    let mime_member = match &r.mime_type {
        Some(m) => Some(Json::Str(mime_token(m))),
        None => None,
    };
    push_opt(&mut members, "mimeType", mime_member);
    push_member(&mut members, "validatorVersion", Json::Str(r.validator_version.clone()));
    push_opt_str(&mut members, "validatedAt", &r.validated_at);
    push_member(&mut members, "issues", issues_to_json(&r.issues));
    let info_member = match &r.info {
        Some(i) => Some(info_to_json(i)),
        None => None,
    };
    push_opt(&mut members, "info", info_member);
    proof {
        assert(member_view(members@) =~= opt_str_member("uri"@, r.uri.deep_view()) + opt_member(
            "mimeType"@,
            match r.mime_type {
                Some(m) => Some(JsonSpec::Str(mime_token_spec(m))),
                None => None,
            },
        ) + seq![("validatorVersion"@, JsonSpec::Str(r.validator_version@))] + opt_str_member(
            "validatedAt"@,
            r.validated_at.deep_view(),
        ) + seq![("issues"@, issues_to_json_spec(r.issues.deep_view()))] + opt_member(
            "info"@,
            match r.info.deep_view() {
                Some(i) => Some(info_to_json_spec(i)),
                None => None,
            },
        ));
    }
    Json::Obj(members)
}

/// Print a report as JSON text: always some text, and always the same text
/// for the same report.
pub fn report_to_string(r: &ValidationReport) -> (t: Option<String>)
    ensures
        t matches Some(s) && s@ == json_text(report_to_json_spec(r.deep_view())),
{
    let j = report_to_json(r);
    json_to_text(&j)
}

} // verus!
