//! A log-shipping agent's core: change events from a watched directory are
//! filtered into upload jobs, each job's file is framed as a JSON document,
//! and the indexing service's answer is decoded into an identifier.

pub mod document;
pub mod driver;
pub mod event;
pub mod json;
pub mod path;
pub mod response;

pub use document::{
    analyzer_endpoint, analyzer_request, build_log_file, file_endpoint, produce_json_payload,
    upload_request, JobError, LogFile, NewAnalyzer, UploadRequest,
};
pub use driver::{driver_step, DriverAction, DriverInput, DriverState};
pub use event::{filter_event, ChangeEvent, UploadJob};
pub use json::quote_json;
pub use path::get_filename;
pub use response::{
    decode_analyzer_response, decode_upload_response, id_from_member, register_outcome,
    upload_outcome,
};
