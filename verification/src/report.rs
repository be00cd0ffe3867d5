//! The validation report schema.
//!
//! These types mirror the report that an external glTF validator emits as
//! JSON.  Every value is an immutable tree owned by the caller.  Each type has
//! a mathematical counterpart (`...Spec`), reached through `deep_view`, over
//! which the codec's contracts are stated.  The wire tables — the token of
//! each string enumeration and the numeric code of `Severity` — are spec
//! functions here, with verified runtime counterparts.

use vstd::prelude::*;

use crate::json::{Json, JsonSpec};

verus! {

/// Top-level result of a validation run.
#[derive(Debug, Clone, PartialEq)]
pub struct ValidationReport {
    /// URI of the validated asset.
    pub uri: Option<String>,
    /// MIME type of the validated asset.
    pub mime_type: Option<MimeType>,
    /// Version string of the validator tool; always present.
    pub validator_version: String,
    /// Timestamp of validation time; kept as an uninterpreted string.
    pub validated_at: Option<String>,
    /// Validation issues; always present.
    pub issues: Issues,
    /// Information about the validated asset.
    pub info: Option<Info>,
}

/// Mathematical model of `ValidationReport`.
pub struct ValidationReportSpec {
    pub uri: Option<Seq<char>>,
    pub mime_type: Option<MimeType>,
    pub validator_version: Seq<char>,
    pub validated_at: Option<Seq<char>>,
    pub issues: IssuesSpec,
    pub info: Option<InfoSpec>,
}

/// The two MIME types a glTF asset can have.
#[derive(Debug, Clone, Copy, PartialEq, Eq)]
pub enum MimeType {
    /// A glTF asset in plain text form: `model/gltf+json`.
    ModelGltfJson,
    /// A glTF asset in a GLB container: `model/gltf-binary`.
    ModelGltfBinary,
}

/// Aggregated validation issues.
#[derive(Debug, Clone, PartialEq)]
pub struct Issues {
    /// Number of errors.
    pub num_errors: u32,
    /// Number of warnings.
    pub num_warnings: u32,
    /// Number of informational messages.
    pub num_infos: u32,
    /// Number of hints.
    pub num_hints: u32,
    /// Messages in order of emission.
    pub messages: Vec<Message>,
    /// Whether the message list was capped, so the counters may exceed it.
    pub truncated: bool,
}

/// Mathematical model of `Issues`.
pub struct IssuesSpec {
    pub num_errors: u32,
    pub num_warnings: u32,
    pub num_infos: u32,
    pub num_hints: u32,
    pub messages: Seq<MessageSpec>,
    pub truncated: bool,
}

/// One diagnostic message.
#[derive(Debug, Clone, PartialEq)]
pub struct Message {
    /// Stable message code, such as `ACCESSOR_MIN_MISMATCH`.
    pub code: String,
    /// Severity of the message.
    pub severity: Severity,
    /// JSON Pointer to the offending element; absent for file-level issues.
    pub pointer: Option<String>,
    /// Byte offset into a GLB binary chunk.
    pub offset: Option<u32>,
    /// Human-readable message text.
    pub message: String,
}

/// Mathematical model of `Message`.
pub struct MessageSpec {
    pub code: Seq<char>,
    pub severity: Severity,
    pub pointer: Option<Seq<char>>,
    pub offset: Option<u32>,
    pub message: Seq<char>,
}

/// Severity of a message; on the wire an unsigned integer, a lower code
/// being more severe.
#[derive(Debug, Clone, Copy, PartialEq, Eq, PartialOrd, Ord, Hash)]
pub enum Severity {
    /// Severity code 0, the most severe.
    Error,
    /// Severity code 1.
    Warning,
    /// Severity code 2.
    Information,
    /// Severity code 3, the least severe.
    Hint,
}

/// Descriptive metadata about the validated asset.
#[derive(Debug, Clone, PartialEq)]
pub struct Info {
    /// The glTF version the asset targets.
    pub version: String,
    /// The minimum glTF version the asset targets.
    pub min_version: Option<String>,
    /// Tool that generated the asset.
    pub generator: Option<String>,
    /// Names of extensions used in the asset, in order.
    pub extensions_used: Option<Vec<String>>,
    /// Names of extensions required to load the asset, in order.
    pub extensions_required: Option<Vec<String>>,
    /// Resources referenced by the asset, in order.
    pub resources: Option<Vec<Resource>>,
}

/// Mathematical model of `Info`.
pub struct InfoSpec {
    pub version: Seq<char>,
    pub min_version: Option<Seq<char>>,
    pub generator: Option<Seq<char>>,
    pub extensions_used: Option<Seq<Seq<char>>>,
    pub extensions_required: Option<Seq<Seq<char>>>,
    pub resources: Option<Seq<ResourceSpec>>,
}

/// One referenced sub-resource of the asset.
#[derive(Debug, Clone, PartialEq)]
pub struct Resource {
    /// JSON Pointer to the resource.
    pub pointer: String,
    /// How the resource is stored.
    pub storage: Storage,
    /// MIME type of the resource.
    pub mime_type: Option<String>,
    /// Byte length of the resource.
    pub byte_length: Option<u32>,
    /// URI of the resource.
    pub uri: Option<String>,
    /// Image metadata, present only for image resources.
    pub image: Option<Image>,
}

/// Mathematical model of `Resource`.
pub struct ResourceSpec {
    pub pointer: Seq<char>,
    pub storage: Storage,
    pub mime_type: Option<Seq<char>>,
    pub byte_length: Option<u32>,
    pub uri: Option<Seq<char>>,
    pub image: Option<ImageSpec>,
}

/// The four ways a resource can be stored.
#[derive(Debug, Clone, Copy, PartialEq, Eq)]
pub enum Storage {
    /// Stored as a data URI: token `data-uri`.
    DataUri,
    /// Stored in a glTF buffer, reached via a buffer view: token `buffer-view`.
    BufferView,
    /// Stored in the binary chunk of a GLB container: token `glb`.
    Glb,
    /// Stored externally: token `external`.
    External,
}

/// Image metadata of an image resource.
#[derive(Debug, Clone, Copy, PartialEq)]
pub struct Image {
    /// Width in pixels.
    pub width: u32,
    /// Height in pixels.
    pub height: u32,
    /// Pixel format.
    pub format: Option<Format>,
    /// Primary colors.
    pub primaries: Option<Primaries>,
    /// Transfer function.
    pub transfer: Option<Transfer>,
    /// Bit depth.
    pub bits: Option<u32>,
}

/// Mathematical model of `Image`.
pub struct ImageSpec {
    pub width: u32,
    pub height: u32,
    pub format: Option<Format>,
    pub primaries: Option<Primaries>,
    pub transfer: Option<Transfer>,
    pub bits: Option<u32>,
}

/// Pixel formats of an image.
#[derive(Debug, Clone, Copy, PartialEq, Eq)]
pub enum Format {
    /// Token `rgb`.
    Rgb,
    /// Token `rgba`.
    Rgba,
    /// Token `luminance`.
    Luminance,
    /// Token `luminanceAlpha`.
    LuminanceAlpha,
}

/// Primary colors of an image.
#[derive(Debug, Clone, Copy, PartialEq, Eq)]
pub enum Primaries {
    /// Token `srgb`.
    Srgb,
    /// Token `custom`.
    Custom,
}

/// Transfer functions of an image.
#[derive(Debug, Clone, Copy, PartialEq, Eq)]
pub enum Transfer {
    /// Token `linear`.
    Linear,
    /// Token `srgb`.
    Srgb,
    /// Token `custom`.
    Custom,
}

/// Why a payload failed to decode.
#[derive(Debug, PartialEq)]
pub enum DecodeError {
    /// The payload is not valid JSON, or a required field is missing or
    /// mistyped.  `path` holds the field names from the document root down
    /// to the offending field; it is empty where the document itself is at
    /// fault.  `expected` names the shape the schema wanted there; an
    /// absent and a mistyped field read alike.  `cause` is the underlying
    /// parser message where the payload failed to parse at all, and empty
    /// for a schema-level failure.
    Malformed {
        /// Field names from the root down to the offending field.
        path: Vec<String>,
        /// The shape the schema expected at `path`.
        expected: String,
        /// The underlying parse error, where there was one.
        cause: String,
    },
    /// A closed enumeration field holds a value outside its set.
    UnknownEnumValue {
        /// Wire name of the field.
        field: String,
        /// The raw value found there.
        value: Json,
    },
    /// The payload bytes could not be read as text at all; kept for
    /// completeness, not produced by the lossy reading this library uses.
    Encoding,
}

/// Mathematical model of `DecodeError`.
pub enum DecodeErrorSpec {
    Malformed { path: Seq<Seq<char>>, expected: Seq<char>, cause: Seq<char> },
    UnknownEnumValue { field: Seq<char>, value: JsonSpec },
    Encoding,
}

impl DeepView for MimeType {
    type V = MimeType;

    open spec fn deep_view(&self) -> MimeType {
        *self
    }
}

impl DeepView for Severity {
    type V = Severity;

    open spec fn deep_view(&self) -> Severity {
        *self
    }
}

impl DeepView for Storage {
    type V = Storage;

    open spec fn deep_view(&self) -> Storage {
        *self
    }
}

impl DeepView for Format {
    type V = Format;

    open spec fn deep_view(&self) -> Format {
        *self
    }
}

impl DeepView for Primaries {
    type V = Primaries;

    open spec fn deep_view(&self) -> Primaries {
        *self
    }
}

impl DeepView for Transfer {
    type V = Transfer;

    open spec fn deep_view(&self) -> Transfer {
        *self
    }
}

impl DeepView for ValidationReport {
    type V = ValidationReportSpec;

    open spec fn deep_view(&self) -> ValidationReportSpec {
        ValidationReportSpec {
            uri: self.uri.deep_view(),
            mime_type: self.mime_type,
            validator_version: self.validator_version@,
            validated_at: self.validated_at.deep_view(),
            issues: self.issues.deep_view(),
            info: self.info.deep_view(),
        }
    }
}

impl DeepView for Issues {
    type V = IssuesSpec;

    open spec fn deep_view(&self) -> IssuesSpec {
        IssuesSpec {
            num_errors: self.num_errors,
            num_warnings: self.num_warnings,
            num_infos: self.num_infos,
            num_hints: self.num_hints,
            messages: self.messages.deep_view(),
            truncated: self.truncated,
        }
    }
}

impl DeepView for Message {
    type V = MessageSpec;

    open spec fn deep_view(&self) -> MessageSpec {
        MessageSpec {
            code: self.code@,
            severity: self.severity,
            pointer: self.pointer.deep_view(),
            offset: self.offset,
            message: self.message@,
        }
    }
}

impl DeepView for Info {
    type V = InfoSpec;

    open spec fn deep_view(&self) -> InfoSpec {
        InfoSpec {
            version: self.version@,
            min_version: self.min_version.deep_view(),
            generator: self.generator.deep_view(),
            extensions_used: self.extensions_used.deep_view(),
            extensions_required: self.extensions_required.deep_view(),
            resources: self.resources.deep_view(),
        }
    }
}

impl DeepView for Resource {
    type V = ResourceSpec;

    open spec fn deep_view(&self) -> ResourceSpec {
        ResourceSpec {
            pointer: self.pointer@,
            storage: self.storage,
            mime_type: self.mime_type.deep_view(),
            byte_length: self.byte_length,
            uri: self.uri.deep_view(),
            image: self.image.deep_view(),
        }
    }
}

impl DeepView for Image {
    type V = ImageSpec;

    open spec fn deep_view(&self) -> ImageSpec {
        ImageSpec {
            width: self.width,
            height: self.height,
            format: self.format,
            primaries: self.primaries,
            transfer: self.transfer,
            bits: self.bits,
        }
    }
}

impl DeepView for DecodeError {
    type V = DecodeErrorSpec;

    open spec fn deep_view(&self) -> DecodeErrorSpec {
        match self {
            DecodeError::Malformed { path, expected, cause } => DecodeErrorSpec::Malformed {
                path: path.deep_view(),
                expected: expected@,
                cause: cause@,
            },
            DecodeError::UnknownEnumValue { field, value } => DecodeErrorSpec::UnknownEnumValue {
                field: field@,
                value: value.deep_view(),
            },
            DecodeError::Encoding => DecodeErrorSpec::Encoding,
        }
    }
}

/// The numeric wire code of a severity: 0 is most severe.
pub open spec fn severity_code_spec(s: Severity) -> u64 {
    match s {
        Severity::Error => 0,
        Severity::Warning => 1,
        Severity::Information => 2,
        Severity::Hint => 3,
    }
}

/// The severity a numeric wire code decodes to; codes above 3 decode to
/// nothing.
pub open spec fn severity_of_code(n: u64) -> Option<Severity> {
    if n == 0 {
        Some(Severity::Error)
    } else if n == 1 {
        Some(Severity::Warning)
    } else if n == 2 {
        Some(Severity::Information)
    } else if n == 3 {
        Some(Severity::Hint)
    } else {
        None
    }
}

/// The wire token of a MIME type.
pub open spec fn mime_token_spec(m: MimeType) -> Seq<char> {
    match m {
        MimeType::ModelGltfJson => "model/gltf+json"@,
        MimeType::ModelGltfBinary => "model/gltf-binary"@,
    }
}

/// The MIME type a wire token decodes to.
pub open spec fn mime_of_token(s: Seq<char>) -> Option<MimeType> {
    if s == "model/gltf+json"@ {
        Some(MimeType::ModelGltfJson)
    } else if s == "model/gltf-binary"@ {
        Some(MimeType::ModelGltfBinary)
    } else {
        None
    }
}

/// The wire token of a storage kind.
pub open spec fn storage_token_spec(s: Storage) -> Seq<char> {
    match s {
        Storage::DataUri => "data-uri"@,
        Storage::BufferView => "buffer-view"@,
        Storage::Glb => "glb"@,
        Storage::External => "external"@,
    }
}

/// The storage kind a wire token decodes to.
pub open spec fn storage_of_token(s: Seq<char>) -> Option<Storage> {
    if s == "data-uri"@ {
        Some(Storage::DataUri)
    } else if s == "buffer-view"@ {
        Some(Storage::BufferView)
    } else if s == "glb"@ {
        Some(Storage::Glb)
    } else if s == "external"@ {
        Some(Storage::External)
    } else {
        None
    }
}

/// The wire token of an image format.
pub open spec fn format_token_spec(f: Format) -> Seq<char> {
    match f {
        Format::Rgb => "rgb"@,
        Format::Rgba => "rgba"@,
        Format::Luminance => "luminance"@,
        Format::LuminanceAlpha => "luminanceAlpha"@,
    }
}

/// The image format a wire token decodes to.
pub open spec fn format_of_token(s: Seq<char>) -> Option<Format> {
    if s == "rgb"@ {
        Some(Format::Rgb)
    } else if s == "rgba"@ {
        Some(Format::Rgba)
    } else if s == "luminance"@ {
        Some(Format::Luminance)
    } else if s == "luminanceAlpha"@ {
        Some(Format::LuminanceAlpha)
    } else {
        None
    }
}

/// The wire token of a primaries kind.
pub open spec fn primaries_token_spec(p: Primaries) -> Seq<char> {
    match p {
        Primaries::Srgb => "srgb"@,
        Primaries::Custom => "custom"@,
    }
}

/// The primaries kind a wire token decodes to.
pub open spec fn primaries_of_token(s: Seq<char>) -> Option<Primaries> {
    if s == "srgb"@ {
        Some(Primaries::Srgb)
    } else if s == "custom"@ {
        Some(Primaries::Custom)
    } else {
        None
    }
}

/// The wire token of a transfer function.
pub open spec fn transfer_token_spec(t: Transfer) -> Seq<char> {
    match t {
        Transfer::Linear => "linear"@,
        Transfer::Srgb => "srgb"@,
        Transfer::Custom => "custom"@,
    }
}

/// The transfer function a wire token decodes to.
pub open spec fn transfer_of_token(s: Seq<char>) -> Option<Transfer> {
    if s == "linear"@ {
        Some(Transfer::Linear)
    } else if s == "srgb"@ {
        Some(Transfer::Srgb)
    } else if s == "custom"@ {
        Some(Transfer::Custom)
    } else {
        None
    }
}

impl Severity {
    /// The numeric wire code of this severity.
    pub fn code(&self) -> (n: u64)
        ensures
            n == severity_code_spec(*self),
    {
        match self {
            Severity::Error => 0,
            Severity::Warning => 1,
            Severity::Information => 2,
            Severity::Hint => 3,
        }
    }

    /// The severity with the given numeric wire code, if any.
    pub fn from_code(n: u64) -> (r: Option<Severity>)
        ensures
            r == severity_of_code(n),
    {
        if n == 0 {
            Some(Severity::Error)
        } else if n == 1 {
            Some(Severity::Warning)
        } else if n == 2 {
            Some(Severity::Information)
        } else if n == 3 {
            Some(Severity::Hint)
        } else {
            None
        }
    }
}

} // verus!
