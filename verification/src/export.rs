//! Core data model of the export pipeline: asset references, converted
//! assets, typed failures, and the generated output filenames.

use vstd::prelude::*;
use vstd::string::StringExecFns;
use crate::media::{convert, convert_model, ConvertAction, ConvertError, ConvertModel};

verus! {

/// Reference to one exportable asset: the remote file identifier, the
/// content-addressed unique identifier (used to name the output), and the
/// pack the asset belongs to, if any.
#[derive(Debug)]
pub struct AssetRef {
    pub file_id: String,
    pub unique_id: String,
    pub set_name: Option<String>,
}

/// Output format of one converted asset.
#[derive(Clone, Copy, Debug, PartialEq, Eq, Structural)]
pub enum OutKind {
    Png,
    Gif,
}

/// One successfully converted asset: the unique id it was derived from,
/// the output format, and the converted payload. Its output filename is
/// `<unique_id>.png` or `<unique_id>.gif`, see [`ExportedAsset::filename`].
#[derive(Debug)]
pub struct ExportedAsset {
    pub unique_id: String,
    pub kind: OutKind,
    pub payload: Vec<u8>,
}

/// Typed failure of one unit of export work.
#[derive(Debug)]
pub enum ExportError {
    /// The remote file descriptor could not be fetched.
    MetadataFetch,
    /// The asset bytes could not be downloaded from the remote store.
    Download,
    /// The asset bytes could not be read from a local path.
    LocalRead,
    /// The bytes are not a recognizable image container.
    Decode,
    /// Re-encoding the decoded image as PNG failed.
    Encode,
    /// The external transcoding tool failed; carries its diagnostic output.
    Transcode(String),
    /// The byte header matches no supported image or video signature;
    /// carries the detected MIME string, if any.
    Unsupported(Option<String>),
    /// The archive could not be written.
    Archive,
    /// The conversation state store could not be read or written.
    StateStore,
    /// The request carried no asset, or required a pack and got none.
    InvalidRequest,
}

/// Result of one single-asset export: the converted asset, or a typed
/// failure carrying the originating asset reference.
#[derive(Debug)]
pub enum ExportOutcome {
    Done(ExportedAsset),
    Failed(AssetRef, ExportError),
}

/// Extension (with the dot) of the output filename for a format.
pub open spec fn file_ext(kind: OutKind) -> Seq<char> {
    match kind {
        OutKind::Png => ".png"@,
        OutKind::Gif => ".gif"@,
    }
}

/// The output filename generated for a unique id and an output format.
pub open spec fn asset_filename_spec(unique_id: Seq<char>, kind: OutKind) -> Seq<char> {
    unique_id + file_ext(kind)
}

impl ExportedAsset {
    /// The generated output filename, `<unique_id>.png` or `<unique_id>.gif`.
    pub fn filename(&self) -> (name: String)
        ensures
            name@ == asset_filename_spec(self.unique_id@, self.kind),
    {
        let mut name = self.unique_id.clone();
        match self.kind {
            OutKind::Png => name.append(".png"),
            OutKind::Gif => name.append(".gif"),
        }
        name
    }
}

/// Distinct unique ids generate distinct filenames, whatever the two
/// output formats are: the filenames agree in length only if the ids agree
/// in length, and then the id is the filename with its last four
/// characters cut off.
pub proof fn lemma_asset_filename_injective(
    id1: Seq<char>,
    k1: OutKind,
    id2: Seq<char>,
    k2: OutKind,
)
    requires
        id1 != id2,
    ensures
        asset_filename_spec(id1, k1) != asset_filename_spec(id2, k2),
{
    reveal_strlit(".png");
    reveal_strlit(".gif");
    let n1 = asset_filename_spec(id1, k1);
    let n2 = asset_filename_spec(id2, k2);
    assert(file_ext(k1).len() == 4);
    assert(file_ext(k2).len() == 4);
    if n1 == n2 {
        assert(n1.len() == id1.len() + 4);
        assert(n2.len() == id2.len() + 4);
        assert(id1.len() == id2.len());
        assert(id1 =~= id2) by {
            assert forall|i: int| 0 <= i < id1.len() implies id1[i] == id2[i] by {
                assert(n1[i] == id1[i]);
                assert(n2[i] == id2[i]);
            }
        }
        assert(false);
    }
}

/// The user-facing message for a typed failure. Mirrors the wording used
/// by the reply surface: one line per error, the transcoder's diagnostic
/// appended to its own.
pub fn error_message(e: &ExportError) -> (msg: String)
    ensures
        msg@ == error_message_spec(*e),
{
    match e {
        ExportError::MetadataFetch => "Failed to get file info".to_owned(),
        ExportError::Download => "Failed to download file".to_owned(),
        ExportError::LocalRead => "Failed to read file".to_owned(),
        ExportError::Decode => "Failed to convert image: decode failed".to_owned(),
        ExportError::Encode => "Failed to convert image: PNG encoding failed".to_owned(),
        ExportError::Transcode(detail) => {
            let mut msg = "Failed to convert video to GIF: ".to_owned();
            msg.append(detail.as_str());
            msg
        },
        ExportError::Unsupported(_) => "Unsupported file type".to_owned(),
        ExportError::Archive => "Failed to build zip archive".to_owned(),
        ExportError::StateStore => "Failed to get state, state manager error".to_owned(),
        ExportError::InvalidRequest => "Invalid sticker pack".to_owned(),
    }
}

/// How the raw bytes of an asset are to be obtained: a path that names a
/// local file is read directly (a deployment colocated with the remote
/// store's file storage), any other path is downloaded.
#[derive(Clone, Copy, Debug, PartialEq, Eq, Structural)]
pub enum FetchPlan {
    LocalRead,
    Download,
}

/// Decide how the bytes behind a remote file descriptor's path are
/// fetched: a path beginning with `/` is local.
pub fn fetch_plan(path: &String) -> (p: FetchPlan)
    ensures
        (p is LocalRead) <==> (path@.len() > 0 && path@[0] == '/'),
{
    let s = path.as_str();
    if s.unicode_len() > 0 && s.get_char(0) == '/' {
        FetchPlan::LocalRead
    } else {
        FetchPlan::Download
    }
}

/// A video waiting for the external transcoding tool: the bytes to feed
/// it and the unique id that will name its output.
#[derive(Debug)]
pub struct TranscodeJob {
    pub unique_id: String,
    pub input: Vec<u8>,
}

/// What one single-asset export decides once the bytes are in hand.
#[derive(Debug)]
pub enum ExportStep {
    /// Conversion finished: the exported asset.
    Done(ExportedAsset),
    /// A video: the transcoding tool must run, then
    /// [`finish_transcode`] completes the export.
    Transcode(TranscodeJob),
    /// The export failed.
    Failed(ExportError),
}

/// Export one asset whose bytes were fetched: classify and convert them.
/// An image yields the exported PNG at once; a video yields a transcode
/// job; anything else is a typed failure.
pub fn export_single_sticker(unique_id: String, data: Vec<u8>) -> (r: ExportStep)
    ensures
        convert_model(data@) matches ConvertModel::Png(p) ==> r matches ExportStep::Done(a)
            && a.unique_id == unique_id && a.kind == OutKind::Png && a.payload@ == p,
        convert_model(data@) matches ConvertModel::Video(v) ==> r matches ExportStep::Transcode(job)
            && job.unique_id == unique_id && job.input@ == v,
        convert_model(data@) is FailedDecode ==> (r matches ExportStep::Failed(e) && e is Decode),
        convert_model(data@) is FailedEncode ==> (r matches ExportStep::Failed(e) && e is Encode),
        convert_model(data@) matches ConvertModel::FailedUnsupported(m) ==> r
            matches ExportStep::Failed(e) && e matches ExportError::Unsupported(mm)
            && mm.deep_view() == m,
{
    match convert(data) {
        ConvertAction::Png(png) => ExportStep::Done(
            ExportedAsset { unique_id, kind: OutKind::Png, payload: png },
        ),
        ConvertAction::Transcode(input) => ExportStep::Transcode(TranscodeJob { unique_id, input }),
        ConvertAction::Failed(ConvertError::Decode) => ExportStep::Failed(ExportError::Decode),
        ConvertAction::Failed(ConvertError::Encode) => ExportStep::Failed(ExportError::Encode),
        ConvertAction::Failed(ConvertError::Unsupported(m)) => ExportStep::Failed(
            ExportError::Unsupported(m),
        ),
    }
}

/// Complete a video export with what the external transcoding tool
/// produced: its GIF output, or its diagnostic text on failure.
pub fn finish_transcode(unique_id: String, result: Result<Vec<u8>, String>) -> (r: Result<
    ExportedAsset,
    ExportError,
>)
    ensures
        result matches Ok(gif) ==> r matches Ok(a) && a.unique_id == unique_id && a.kind
            == OutKind::Gif && a.payload == gif,
        result matches Err(d) ==> r matches Err(e) && e matches ExportError::Transcode(dd) && dd
            == d,
{
    match result {
        Ok(gif) => Ok(ExportedAsset { unique_id, kind: OutKind::Gif, payload: gif }),
        Err(diag) => Err(ExportError::Transcode(diag)),
    }
}

/// The exact text of [`error_message`], per error.
pub open spec fn error_message_spec(e: ExportError) -> Seq<char> {
    match e {
        ExportError::MetadataFetch => "Failed to get file info"@,
        ExportError::Download => "Failed to download file"@,
        ExportError::LocalRead => "Failed to read file"@,
        ExportError::Decode => "Failed to convert image: decode failed"@,
        ExportError::Encode => "Failed to convert image: PNG encoding failed"@,
        ExportError::Transcode(detail) => "Failed to convert video to GIF: "@ + detail@,
        ExportError::Unsupported(_) => "Unsupported file type"@,
        ExportError::Archive => "Failed to build zip archive"@,
        ExportError::StateStore => "Failed to get state, state manager error"@,
        ExportError::InvalidRequest => "Invalid sticker pack"@,
    }
}

} // verus!
