//! Native command logic of a small desktop shell: a greeting and a
//! base64 file upload, with the file system left to the host program.

pub mod codec;
pub mod greeting;
pub mod upload;

pub use greeting::greet;
pub use upload::{finish_upload, plan_upload, success_message, upload_path, UploadError, UploadPlan};
