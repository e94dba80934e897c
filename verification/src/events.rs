//! One record of the compiler's structured output stream.
//!
//! The compiler is invoked with machine-readable diagnostics: its standard
//! output is a stream of newline-delimited self-describing records. The only
//! record kind of interest is the one announcing a produced compiler artifact,
//! which may carry the path of a produced executable; every other kind is
//! ignored by the pipeline.

use vstd::prelude::*;

verus! {

/// One decoded record of the compiler's structured output, reduced to what
/// the pipeline reads: either an artifact announcement with its optional
/// executable path, or any other record kind.
pub enum BuildEvent {
    /// The compiler produced an artifact; `executable` is the path of the
    /// produced executable, when the artifact has one.
    CompilerArtifact { executable: Option<String> },
    /// Any other record kind; the pipeline ignores these.
    Other,
}

/// The mathematical value of a decoded record.
pub enum BuildEventModel {
    CompilerArtifact { executable: Option<Seq<char>> },
    Other,
}

impl View for BuildEvent {
    type V = BuildEventModel;

    open spec fn view(&self) -> BuildEventModel {
        match self {
            BuildEvent::CompilerArtifact { executable } => BuildEventModel::CompilerArtifact {
                executable: match executable {
                    Some(p) => Some(p@),
                    None => None,
                },
            },
            BuildEvent::Other => BuildEventModel::Other,
        }
    }
}

/// What one line of the compiler's structured output decodes to: `Some` of
/// the decoded record when the line is a well-formed record, `None` when it
/// is malformed. The decoding is a fixed grammar, so it depends on the bytes
/// of the line alone.
pub uninterp spec fn decoded_record(line: Seq<u8>) -> Option<BuildEventModel>;

/// Decodes one line of the compiler's structured output.
///
/// Relies on `serde_json::from_slice` deserializing a
/// `cargo_metadata::Message`: the record grammar is cargo's JSON message
/// format, one self-describing object per line, tagged by its `reason`
/// field. A line that does not decode as such a message is malformed.
#[verifier::external_body]
pub(crate) fn decode_record(line: &[u8]) -> (r: Option<BuildEvent>)
    ensures
        match r {
            Some(ev) => decoded_record(line@) == Some(ev@),
            None => decoded_record(line@) is None,
        },
{
    match serde_json::from_slice::<cargo_metadata::Message>(line) {
        Ok(cargo_metadata::Message::CompilerArtifact(a)) => Some(BuildEvent::CompilerArtifact {
            executable: match a.executable {
                Some(p) => Some(p.into_string()),
                None => None,
            },
        }),
        Ok(_) => Some(BuildEvent::Other),
        Err(_) => None,
    }
}

} // verus!
