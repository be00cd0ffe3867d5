//! Laws of the codec.
//!
//! The headline result is the round-trip law: decoding an encoded report
//! yields the report back, field for field, for every report value — see
//! `lemma_report_round_trip`.  Beside it stand the closure of the severity
//! code table and the round trips of each wire enumeration.

use vstd::prelude::*;

use crate::decode::{
    image_from_obj_spec, info_from_obj_spec, issues_from_obj_spec, message_from_spec,
    messages_from_seq_spec, report_from_json_spec, resource_from_spec, resources_from_seq_spec,
    strs_from_seq_spec,
};
use crate::encode::{
    image_to_json_spec, info_to_json_spec, issues_to_json_spec, message_to_json_spec,
    messages_to_seq_spec, one_member, opt_member, opt_str_member, opt_u32_member,
    report_to_json_spec, resource_to_json_spec, resources_to_seq_spec, strs_to_seq_spec,
};
use crate::json::{lemma_obj_get_concat, lemma_obj_get_single, obj_get_spec, JsonSpec};
use crate::report::{
    format_of_token, format_token_spec, mime_of_token, mime_token_spec, primaries_of_token,
    primaries_token_spec, severity_code_spec, severity_of_code, storage_of_token,
    storage_token_spec, transfer_of_token, transfer_token_spec, DecodeErrorSpec, Format,
    ImageSpec, InfoSpec, IssuesSpec, MessageSpec, MimeType, Primaries, ResourceSpec, Severity,
    Storage, Transfer, ValidationReportSpec,
};

verus! {

/// Lookup distributes over concatenation.
pub broadcast proof fn lemma_obj_get_concat_auto(
    a: Seq<(Seq<char>, JsonSpec)>,
    b: Seq<(Seq<char>, JsonSpec)>,
    key: Seq<char>,
)
    ensures
        #[trigger] obj_get_spec(a + b, key) == if obj_get_spec(a, key) is Some {
            obj_get_spec(a, key)
        } else {
            obj_get_spec(b, key)
        },
{
    lemma_obj_get_concat(a, b, key);
}

/// Lookup in a single member.
pub broadcast proof fn lemma_one_member_get(name: Seq<char>, v: JsonSpec, key: Seq<char>)
    ensures
        #[trigger] obj_get_spec(one_member(name, v), key) == if key == name {
            Some(v)
        } else {
            None::<JsonSpec>
        },
{
    lemma_obj_get_single(name, v, key);
}

/// Lookup in an optional member.
pub broadcast proof fn lemma_opt_member_get(name: Seq<char>, o: Option<JsonSpec>, key: Seq<char>)
    ensures
        #[trigger] obj_get_spec(opt_member(name, o), key) == if key == name {
            o
        } else {
            None::<JsonSpec>
        },
{
    match o {
        Some(v) => lemma_obj_get_single(name, v, key),
        None => (),
    }
}

/// Lookup in an optional string member.
pub broadcast proof fn lemma_opt_str_member_get(
    name: Seq<char>,
    o: Option<Seq<char>>,
    key: Seq<char>,
)
    ensures
        #[trigger] obj_get_spec(opt_str_member(name, o), key) == if key == name {
            match o {
                Some(s) => Some(JsonSpec::Str(s)),
                None => None::<JsonSpec>,
            }
        } else {
            None::<JsonSpec>
        },
{
    match o {
        Some(s) => lemma_obj_get_single(name, JsonSpec::Str(s), key),
        None => (),
    }
}

/// Lookup in an optional integer member.
pub broadcast proof fn lemma_opt_u32_member_get(name: Seq<char>, o: Option<u32>, key: Seq<char>)
    ensures
        #[trigger] obj_get_spec(opt_u32_member(name, o), key) == if key == name {
            match o {
                Some(n) => Some(JsonSpec::UInt(n as u64)),
                None => None::<JsonSpec>,
            }
        } else {
            None::<JsonSpec>
        },
{
    match o {
        Some(n) => lemma_obj_get_single(name, JsonSpec::UInt(n as u64), key),
        None => (),
    }
}

/// The severity code table is ordered 0 to 3 and closed: no other integer
/// decodes, and every severity comes back from its own code.
pub proof fn lemma_severity_codes()
    ensures
        severity_of_code(0) == Some(Severity::Error),
        severity_of_code(1) == Some(Severity::Warning),
        severity_of_code(2) == Some(Severity::Information),
        severity_of_code(3) == Some(Severity::Hint),
        forall|n: u64| n > 3 ==> severity_of_code(n) is None,
        forall|s: Severity| severity_of_code(severity_code_spec(s)) == Some(s),
{
}

/// Every MIME type comes back from its own wire token.
pub proof fn lemma_mime_token_round(m: MimeType)
    ensures
        mime_of_token(mime_token_spec(m)) == Some(m),
{
    reveal_strlit("model/gltf+json");
    reveal_strlit("model/gltf-binary");
    assert("model/gltf+json"@.len() == 15);
    assert("model/gltf-binary"@.len() == 17);
    assert("model/gltf-binary"@ != "model/gltf+json"@);
    match m {
        MimeType::ModelGltfJson => assert(mime_of_token(mime_token_spec(m)) == Some(m)),
        MimeType::ModelGltfBinary => assert(mime_of_token(mime_token_spec(m)) == Some(m)),
    }
}

/// Every storage kind comes back from its own wire token.
pub proof fn lemma_storage_token_round(s: Storage)
    ensures
        storage_of_token(storage_token_spec(s)) == Some(s),
{
    reveal_strlit("data-uri");
    reveal_strlit("buffer-view");
    reveal_strlit("glb");
    reveal_strlit("external");
    assert("data-uri"@.len() == 8);
    assert("buffer-view"@.len() == 11);
    assert("glb"@.len() == 3);
    assert("external"@.len() == 8);
    assert("data-uri"@[0] == 'd');
    assert("external"@[0] == 'e');
    assert("buffer-view"@ != "data-uri"@);
    assert("glb"@ != "data-uri"@);
    assert("glb"@ != "buffer-view"@);
    assert("external"@ != "data-uri"@);
    assert("external"@ != "buffer-view"@);
    assert("external"@ != "glb"@);
    match s {
        Storage::DataUri => assert(storage_of_token(storage_token_spec(s)) == Some(s)),
        Storage::BufferView => assert(storage_of_token(storage_token_spec(s)) == Some(s)),
        Storage::Glb => assert(storage_of_token(storage_token_spec(s)) == Some(s)),
        Storage::External => assert(storage_of_token(storage_token_spec(s)) == Some(s)),
    }
}

/// Every image format comes back from its own wire token.
pub proof fn lemma_format_token_round(f: Format)
    ensures
        format_of_token(format_token_spec(f)) == Some(f),
{
    reveal_strlit("rgb");
    reveal_strlit("rgba");
    reveal_strlit("luminance");
    reveal_strlit("luminanceAlpha");
    assert("rgb"@.len() == 3);
    assert("rgba"@.len() == 4);
    assert("luminance"@.len() == 9);
    assert("luminanceAlpha"@.len() == 14);
    assert("rgba"@ != "rgb"@);
    assert("luminance"@ != "rgb"@);
    assert("luminance"@ != "rgba"@);
    assert("luminanceAlpha"@ != "rgb"@);
    assert("luminanceAlpha"@ != "rgba"@);
    assert("luminanceAlpha"@ != "luminance"@);
    match f {
        Format::Rgb => assert(format_of_token(format_token_spec(f)) == Some(f)),
        Format::Rgba => assert(format_of_token(format_token_spec(f)) == Some(f)),
        Format::Luminance => assert(format_of_token(format_token_spec(f)) == Some(f)),
        Format::LuminanceAlpha => assert(format_of_token(format_token_spec(f)) == Some(f)),
    }
}

/// Every primaries kind comes back from its own wire token.
pub proof fn lemma_primaries_token_round(p: Primaries)
    ensures
        primaries_of_token(primaries_token_spec(p)) == Some(p),
{
    reveal_strlit("srgb");
    reveal_strlit("custom");
    assert("srgb"@.len() == 4);
    assert("custom"@.len() == 6);
    assert("custom"@ != "srgb"@);
    match p {
        Primaries::Srgb => assert(primaries_of_token(primaries_token_spec(p)) == Some(p)),
        Primaries::Custom => assert(primaries_of_token(primaries_token_spec(p)) == Some(p)),
    }
}

/// Every transfer function comes back from its own wire token.
pub proof fn lemma_transfer_token_round(t: Transfer)
    ensures
        transfer_of_token(transfer_token_spec(t)) == Some(t),
{
    reveal_strlit("linear");
    reveal_strlit("srgb");
    reveal_strlit("custom");
    assert("linear"@.len() == 6);
    assert("srgb"@.len() == 4);
    assert("custom"@.len() == 6);
    assert("linear"@[0] == 'l');
    assert("custom"@[0] == 'c');
    assert("srgb"@ != "linear"@);
    assert("custom"@ != "linear"@);
    assert("custom"@ != "srgb"@);
    match t {
        Transfer::Linear => assert(transfer_of_token(transfer_token_spec(t)) == Some(t)),
        Transfer::Srgb => assert(transfer_of_token(transfer_token_spec(t)) == Some(t)),
        Transfer::Custom => assert(transfer_of_token(transfer_token_spec(t)) == Some(t)),
    }
}

/// Decoding an encoded message yields the message back.
pub proof fn lemma_message_round_trip(m: MessageSpec)
    ensures
        message_from_spec(message_to_json_spec(m)) == Ok::<MessageSpec, DecodeErrorSpec>(m),
{
    broadcast use lemma_obj_get_concat_auto, lemma_one_member_get, lemma_opt_str_member_get,
        lemma_opt_u32_member_get;

    reveal_strlit("code");
    reveal_strlit("severity");
    reveal_strlit("pointer");
    reveal_strlit("offset");
    reveal_strlit("message");
    assert("code"@.len() == 4);
    assert("severity"@.len() == 8);
    assert("pointer"@.len() == 7);
    assert("offset"@.len() == 6);
    assert("message"@.len() == 7);
    assert("pointer"@[0] == 'p');
    assert("message"@[0] == 'm');
    assert("severity"@ != "code"@);
    assert("pointer"@ != "code"@);
    assert("pointer"@ != "severity"@);
    assert("offset"@ != "code"@);
    assert("offset"@ != "severity"@);
    assert("offset"@ != "pointer"@);
    assert("message"@ != "code"@);
    assert("message"@ != "severity"@);
    assert("message"@ != "pointer"@);
    assert("message"@ != "offset"@);
}

/// Decoding an encoded message list yields the list back.
pub proof fn lemma_messages_round_trip(msgs: Seq<MessageSpec>)
    ensures
        messages_from_seq_spec(messages_to_seq_spec(msgs)) == Ok::<
            Seq<MessageSpec>,
            DecodeErrorSpec,
        >(msgs),
    decreases msgs.len(),
{
    let js = messages_to_seq_spec(msgs);
    if msgs.len() == 0 {
        assert(js.len() == 0);
        assert(msgs =~= Seq::<MessageSpec>::empty());
    } else {
        lemma_message_round_trip(msgs[0]);
        lemma_messages_round_trip(msgs.skip(1));
        let head = seq![message_to_json_spec(msgs[0])];
        let rest = messages_to_seq_spec(msgs.skip(1));
        assert(js == head + rest);
        assert(js.len() == 1 + rest.len());
        assert(js[0] == message_to_json_spec(msgs[0]));
        assert(js.skip(1) =~= rest);
        assert(seq![msgs[0]] + msgs.skip(1) =~= msgs);
    }
}

/// Decoding an encoded string list yields the list back.
pub proof fn lemma_strs_round_trip(ss: Seq<Seq<char>>)
    ensures
        strs_from_seq_spec(strs_to_seq_spec(ss)) == Some(ss),
    decreases ss.len(),
{
    let js = strs_to_seq_spec(ss);
    if ss.len() == 0 {
        assert(js.len() == 0);
        assert(ss =~= Seq::<Seq<char>>::empty());
    } else {
        lemma_strs_round_trip(ss.skip(1));
        let head = seq![JsonSpec::Str(ss[0])];
        let rest = strs_to_seq_spec(ss.skip(1));
        assert(js == head + rest);
        assert(js.len() == 1 + rest.len());
        assert(js[0] == JsonSpec::Str(ss[0]));
        assert(js.skip(1) =~= rest);
        assert(seq![ss[0]] + ss.skip(1) =~= ss);
    }
}

/// Decoding an encoded image yields the image back.
pub proof fn lemma_image_round_trip(img: ImageSpec)
    ensures
        image_to_json_spec(img) matches JsonSpec::Obj(ms) && image_from_obj_spec(ms) == Ok::<
            ImageSpec,
            DecodeErrorSpec,
        >(img),
{
    broadcast use lemma_obj_get_concat_auto, lemma_one_member_get, lemma_opt_member_get,
        lemma_opt_u32_member_get;

    reveal_strlit("width");
    reveal_strlit("height");
    reveal_strlit("format");
    reveal_strlit("primaries");
    reveal_strlit("transfer");
    reveal_strlit("bits");
    assert("width"@.len() == 5);
    assert("height"@.len() == 6);
    assert("format"@.len() == 6);
    assert("primaries"@.len() == 9);
    assert("transfer"@.len() == 8);
    assert("bits"@.len() == 4);
    assert("height"@[0] == 'h');
    assert("format"@[0] == 'f');
    assert("height"@ != "width"@);
    assert("format"@ != "width"@);
    assert("format"@ != "height"@);
    assert("primaries"@ != "width"@);
    assert("primaries"@ != "height"@);
    assert("primaries"@ != "format"@);
    assert("transfer"@ != "width"@);
    assert("transfer"@ != "height"@);
    assert("transfer"@ != "format"@);
    assert("transfer"@ != "primaries"@);
    assert("bits"@ != "width"@);
    assert("bits"@ != "height"@);
    assert("bits"@ != "format"@);
    assert("bits"@ != "primaries"@);
    assert("bits"@ != "transfer"@);
    if img.format is Some {
        lemma_format_token_round(img.format->0);
    }
    if img.primaries is Some {
        lemma_primaries_token_round(img.primaries->0);
    }
    if img.transfer is Some {
        lemma_transfer_token_round(img.transfer->0);
    }
}

/// Decoding an encoded resource yields the resource back.
pub proof fn lemma_resource_round_trip(r: ResourceSpec)
    ensures
        resource_from_spec(resource_to_json_spec(r)) == Ok::<ResourceSpec, DecodeErrorSpec>(r),
{
    broadcast use lemma_obj_get_concat_auto, lemma_one_member_get, lemma_opt_member_get,
        lemma_opt_str_member_get, lemma_opt_u32_member_get;

    reveal_strlit("pointer");
    reveal_strlit("storage");
    reveal_strlit("mimeType");
    reveal_strlit("byteLength");
    reveal_strlit("uri");
    reveal_strlit("image");
    assert("pointer"@.len() == 7);
    assert("storage"@.len() == 7);
    assert("mimeType"@.len() == 8);
    assert("byteLength"@.len() == 10);
    assert("uri"@.len() == 3);
    assert("image"@.len() == 5);
    assert("pointer"@[0] == 'p');
    assert("storage"@[0] == 's');
    assert("storage"@ != "pointer"@);
    assert("mimeType"@ != "pointer"@);
    assert("mimeType"@ != "storage"@);
    assert("byteLength"@ != "pointer"@);
    assert("byteLength"@ != "storage"@);
    assert("byteLength"@ != "mimeType"@);
    assert("uri"@ != "pointer"@);
    assert("uri"@ != "storage"@);
    assert("uri"@ != "mimeType"@);
    assert("uri"@ != "byteLength"@);
    assert("image"@ != "pointer"@);
    assert("image"@ != "storage"@);
    assert("image"@ != "mimeType"@);
    assert("image"@ != "byteLength"@);
    assert("image"@ != "uri"@);
    lemma_storage_token_round(r.storage);
    if r.image is Some {
        lemma_image_round_trip(r.image->0);
    }
}

/// Decoding an encoded resource list yields the list back.
pub proof fn lemma_resources_round_trip(rs: Seq<ResourceSpec>)
    ensures
        resources_from_seq_spec(resources_to_seq_spec(rs)) == Ok::<
            Seq<ResourceSpec>,
            DecodeErrorSpec,
        >(rs),
    decreases rs.len(),
{
    let js = resources_to_seq_spec(rs);
    if rs.len() == 0 {
        assert(js.len() == 0);
        assert(rs =~= Seq::<ResourceSpec>::empty());
    } else {
        lemma_resource_round_trip(rs[0]);
        lemma_resources_round_trip(rs.skip(1));
        let head = seq![resource_to_json_spec(rs[0])];
        let rest = resources_to_seq_spec(rs.skip(1));
        assert(js == head + rest);
        assert(js.len() == 1 + rest.len());
        assert(js[0] == resource_to_json_spec(rs[0]));
        assert(js.skip(1) =~= rest);
        assert(seq![rs[0]] + rs.skip(1) =~= rs);
    }
}

/// Decoding an encoded issues aggregate yields it back.
pub proof fn lemma_issues_round_trip(i: IssuesSpec)
    ensures
        issues_to_json_spec(i) matches JsonSpec::Obj(ms) && issues_from_obj_spec(ms) == Ok::<
            IssuesSpec,
            DecodeErrorSpec,
        >(i),
{
    broadcast use lemma_obj_get_concat_auto, lemma_one_member_get;

    reveal_strlit("numErrors");
    reveal_strlit("numWarnings");
    reveal_strlit("numInfos");
    reveal_strlit("numHints");
    reveal_strlit("messages");
    reveal_strlit("truncated");
    assert("numErrors"@.len() == 9);
    assert("numWarnings"@.len() == 11);
    assert("numInfos"@.len() == 8);
    assert("numHints"@.len() == 8);
    assert("messages"@.len() == 8);
    assert("truncated"@.len() == 9);
    assert("numInfos"@[3] == 'I');
    assert("numHints"@[3] == 'H');
    assert("messages"@[0] == 'm');
    assert("numInfos"@[0] == 'n');
    assert("numHints"@[0] == 'n');
    assert("truncated"@[0] == 't');
    assert("numErrors"@[0] == 'n');
    assert("numWarnings"@ != "numErrors"@);
    assert("numInfos"@ != "numErrors"@);
    assert("numInfos"@ != "numWarnings"@);
    assert("numHints"@ != "numErrors"@);
    assert("numHints"@ != "numWarnings"@);
    assert("numHints"@ != "numInfos"@);
    assert("messages"@ != "numErrors"@);
    assert("messages"@ != "numWarnings"@);
    assert("messages"@ != "numInfos"@);
    assert("messages"@ != "numHints"@);
    assert("truncated"@ != "numErrors"@);
    assert("truncated"@ != "numWarnings"@);
    assert("truncated"@ != "numInfos"@);
    assert("truncated"@ != "numHints"@);
    assert("truncated"@ != "messages"@);
    lemma_messages_round_trip(i.messages);
}

/// Decoding an encoded info aggregate yields it back.
pub proof fn lemma_info_round_trip(info: InfoSpec)
    ensures
        info_to_json_spec(info) matches JsonSpec::Obj(ms) && info_from_obj_spec(ms) == Ok::<
            InfoSpec,
            DecodeErrorSpec,
        >(info),
{
    broadcast use lemma_obj_get_concat_auto, lemma_one_member_get, lemma_opt_member_get,
        lemma_opt_str_member_get;

    reveal_strlit("version");
    reveal_strlit("minVersion");
    reveal_strlit("generator");
    reveal_strlit("extensionsUsed");
    reveal_strlit("extensionsRequired");
    reveal_strlit("resources");
    assert("version"@.len() == 7);
    assert("minVersion"@.len() == 10);
    assert("generator"@.len() == 9);
    assert("extensionsUsed"@.len() == 14);
    assert("extensionsRequired"@.len() == 18);
    assert("resources"@.len() == 9);
    assert("generator"@[0] == 'g');
    assert("resources"@[0] == 'r');
    assert("minVersion"@ != "version"@);
    assert("generator"@ != "version"@);
    assert("generator"@ != "minVersion"@);
    assert("extensionsUsed"@ != "version"@);
    assert("extensionsUsed"@ != "minVersion"@);
    assert("extensionsUsed"@ != "generator"@);
    assert("extensionsRequired"@ != "version"@);
    assert("extensionsRequired"@ != "minVersion"@);
    assert("extensionsRequired"@ != "generator"@);
    assert("extensionsRequired"@ != "extensionsUsed"@);
    assert("resources"@ != "version"@);
    assert("resources"@ != "minVersion"@);
    assert("resources"@ != "generator"@);
    assert("resources"@ != "extensionsUsed"@);
    assert("resources"@ != "extensionsRequired"@);
    if info.extensions_used is Some {
        lemma_strs_round_trip(info.extensions_used->0);
    }
    if info.extensions_required is Some {
        lemma_strs_round_trip(info.extensions_required->0);
    }
    if info.resources is Some {
        lemma_resources_round_trip(info.resources->0);
    }
}

/// Round-trip law: for every report value, encoding to a JSON tree and
/// decoding that tree yields the report back, field for field, enumeration
/// values and the presence or absence of every optional field included.
pub proof fn lemma_report_round_trip(r: ValidationReportSpec)
    ensures
        report_from_json_spec(report_to_json_spec(r)) == Ok::<
            ValidationReportSpec,
            DecodeErrorSpec,
        >(r),
{
    broadcast use lemma_obj_get_concat_auto, lemma_one_member_get, lemma_opt_member_get,
        lemma_opt_str_member_get;

    reveal_strlit("uri");
    reveal_strlit("mimeType");
    reveal_strlit("validatorVersion");
    reveal_strlit("validatedAt");
    reveal_strlit("issues");
    reveal_strlit("info");
    assert("uri"@.len() == 3);
    assert("mimeType"@.len() == 8);
    assert("validatorVersion"@.len() == 16);
    assert("validatedAt"@.len() == 11);
    assert("issues"@.len() == 6);
    assert("info"@.len() == 4);
    assert("mimeType"@ != "uri"@);
    assert("validatorVersion"@ != "uri"@);
    assert("validatorVersion"@ != "mimeType"@);
    assert("validatedAt"@ != "uri"@);
    assert("validatedAt"@ != "mimeType"@);
    assert("validatedAt"@ != "validatorVersion"@);
    assert("issues"@ != "uri"@);
    assert("issues"@ != "mimeType"@);
    assert("issues"@ != "validatorVersion"@);
    assert("issues"@ != "validatedAt"@);
    assert("info"@ != "uri"@);
    assert("info"@ != "mimeType"@);
    assert("info"@ != "validatorVersion"@);
    assert("info"@ != "validatedAt"@);
    assert("info"@ != "issues"@);
    if r.mime_type is Some {
        lemma_mime_token_round(r.mime_type->0);
    }
    lemma_issues_round_trip(r.issues);
    if r.info is Some {
        lemma_info_round_trip(r.info->0);
    }
}

} // verus!
