//! Typed model of a glTF validation report and its JSON wire format.
//!
//! The library defines the report schema (`ValidationReport` and the types it
//! owns), an explicit JSON tree (`Json`), and a hand-written codec between the
//! two.  Every field name and enumeration token of the wire format is stated
//! as an explicit table, and the decoder and encoder are verified against a
//! mathematical specification of that table, including a proof that decoding
//! an encoded report gives the report back.
//!
//! Parsing JSON text into the tree, and printing the tree back to text, is
//! delegated to `serde_json` behind a small trusted boundary in `json`.

pub mod decode;
pub mod encode;
pub mod json;
pub mod laws;
pub mod report;
pub mod validator;

pub use decode::{decode_report, decode_report_str, report_from_json};
pub use encode::{report_to_json, report_to_string};
pub use json::Json;
pub use report::{
    DecodeError, Format, Image, Info, Issues, Message, MimeType, Primaries, Resource, Severity,
    Storage, Transfer, ValidationReport,
};
pub use validator::GltfValidator;
