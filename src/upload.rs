use crate::codec::{decode_error_text, decode_standard, standard_base64_decoded};
use vstd::prelude::*;
use vstd::string::*;

verus! {

/// The file contents of a directory, from file name to bytes.
pub type Files = Map<Seq<char>, Seq<u8>>;

/// The prefix that every uploaded file's name starts with.
pub open spec fn upload_prefix() -> Seq<char> {
    "uploaded_"@
}

/// The path that an upload of `file_name` is written to, relative to the
/// working directory.
pub open spec fn upload_path_text(file_name: Seq<char>) -> Seq<char> {
    upload_prefix() + file_name
}

/// The confirmation returned once the file at `path` has been written.
pub open spec fn success_text(path: Seq<char>) -> Seq<char> {
    "\u{2705} File uploaded successfully: "@ + path
}

/// The files after uploading `data` under `file_name`: the decoded bytes
/// replace whatever the target held, and invalid data changes nothing.
pub open spec fn files_after_upload(files: Files, file_name: Seq<char>, data: Seq<char>) -> Files {
    match standard_base64_decoded(data) {
        Some(bytes) => files.insert(upload_path_text(file_name), bytes),
        None => files,
    }
}

/// Why an upload failed.
#[derive(Debug, PartialEq, Eq)]
pub enum UploadError {
    /// The data was not valid base64; holds the decoder's description.
    Decode(String),
    /// The file could not be written; holds the file system's description.
    Write(String),
}

impl UploadError {
    /// The message reported to the caller for this error.
    pub open spec fn message_text(&self) -> Seq<char> {
        match self {
            UploadError::Decode(detail) => "Decode error: "@ + detail@,
            UploadError::Write(detail) => "Write error: "@ + detail@,
        }
    }

    /// The message reported to the caller for this error.
    pub fn message(&self) -> (r: String)
        ensures
            r@ == self.message_text(),
    {
        match self {
            UploadError::Decode(detail) => String::from_str("Decode error: ").concat(detail.as_str()),
            UploadError::Write(detail) => String::from_str("Write error: ").concat(detail.as_str()),
        }
    }
}

/// A decoded upload that is ready to be written: the bytes go to `path`.
#[derive(Debug, PartialEq, Eq)]
pub struct UploadPlan {
    pub path: String,
    pub contents: Vec<u8>,
}

impl UploadPlan {
    /// The files after this plan has been written into `files`.
    pub open spec fn applied_to(&self, files: Files) -> Files {
        files.insert(self.path@, self.contents@)
    }
}

/// The path that an upload of `file_name` is written to: the name with the
/// upload prefix in front, used as it stands.
pub fn upload_path(file_name: &str) -> (r: String)
    ensures
        r@ == upload_path_text(file_name@),
{
    String::from_str("uploaded_").concat(file_name)
}

/// Decodes `file_data` as standard base64 and says where the bytes go.
/// Fails with `UploadError::Decode` exactly when the data is not valid base64.
pub fn plan_upload(file_name: &str, file_data: &str) -> (r: Result<UploadPlan, UploadError>)
    ensures
        match standard_base64_decoded(file_data@) {
            Some(bytes) => r matches Ok(plan) && plan.path@ == upload_path_text(file_name@)
                && plan.contents@ == bytes,
            None => r matches Err(UploadError::Decode(_)),
        },
        r matches Ok(plan) ==> forall|files: Files|
            #[trigger] plan.applied_to(files) == files_after_upload(files, file_name@, file_data@),
{
    match decode_standard(file_data) {
        Ok(contents) => Ok(UploadPlan { path: upload_path(file_name), contents }),
        Err(e) => Err(UploadError::Decode(decode_error_text(&e))),
    }
}

/// The confirmation for a file written at `path`.
pub fn success_message(path: &str) -> (r: String)
    ensures
        r@ == success_text(path@),
{
    String::from_str("\u{2705} File uploaded successfully: ").concat(path)
}

/// The result of an upload once the write of `plan` has been attempted:
/// the confirmation if the write succeeded, else a `Write` error with the
/// file system's description.
pub fn finish_upload(plan: &UploadPlan, written: Result<(), String>) -> (r: Result<String, UploadError>)
    ensures
        match written {
            Ok(()) => r matches Ok(text) && text@ == success_text(plan.path@),
            Err(detail) => r matches Err(UploadError::Write(d)) && d@ == detail@,
        },
{
    match written {
        Ok(()) => Ok(success_message(plan.path.as_str())),
        Err(detail) => Err(UploadError::Write(detail)),
    }
}

/// When `data` decodes to `bytes`, the upload leaves the target file holding
/// exactly those bytes, whatever the files held before.
pub proof fn lemma_upload_round_trip(files: Files, file_name: Seq<char>, data: Seq<char>, bytes: Seq<u8>)
    requires
        standard_base64_decoded(data) == Some(bytes),
    ensures
        files_after_upload(files, file_name, data).contains_key(upload_path_text(file_name)),
        files_after_upload(files, file_name, data)[upload_path_text(file_name)] == bytes,
{
}

/// Data that is not valid base64 leaves every file as it was.
pub proof fn lemma_invalid_upload_changes_nothing(files: Files, file_name: Seq<char>, data: Seq<char>)
    requires
        standard_base64_decoded(data) is None,
    ensures
        files_after_upload(files, file_name, data) == files,
{
}

/// Uploading the same name and data a second time leaves the files as the
/// first upload left them.
pub proof fn lemma_upload_idempotent(files: Files, file_name: Seq<char>, data: Seq<char>)
    ensures
        files_after_upload(files_after_upload(files, file_name, data), file_name, data)
            == files_after_upload(files, file_name, data),
{
    let once = files_after_upload(files, file_name, data);
    assert(files_after_upload(once, file_name, data) =~= once);
}

/// An upload changes no file but its own target.
pub proof fn lemma_upload_touches_only_target(files: Files, file_name: Seq<char>, data: Seq<char>, other: Seq<char>)
    requires
        other != upload_path_text(file_name),
    ensures
        files_after_upload(files, file_name, data).contains_key(other) == files.contains_key(other),
        files.contains_key(other) ==> files_after_upload(files, file_name, data)[other] == files[other],
{
}

} // verus!
