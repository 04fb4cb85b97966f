//! file.io: a single-call provider under a fixed 2 GB ceiling.
pub mod structs;

use crate::client::{
    done_err, pairs_view, unexpected_reply, unexpected_reply_text, Exchange, Expect, FilePart,
    HttpRequest, Payload, PayloadView, Reply, RequestView, Step, StepView, Verb,
};
use crate::hosts::errors::{BadAPIResponseError, ErrorView, UploadError};
use crate::hosts::sizes::Size;
use crate::hosts::utils::check_file_size_limit;
use vstd::prelude::*;
use vstd::string::StringExecFns;

verus! {

/// The only exchange: the upload itself.
#[derive(Clone, Copy, Debug, PartialEq, Eq, Structural)]
pub enum FileioState {
    Upload,
}

impl View for FileioState {
    type V = FileioState;

    open spec fn view(&self) -> FileioState {
        *self
    }
}

/// Files above 2 GB fail before any exchange.
pub open spec fn start_model(file_size: usize) -> StepView<FileioState> {
    if file_size > (Size::GB2).bytes() {
        done_err(ErrorView::FileSizeLimit)
    } else {
        StepView::Next(FileioState::Upload)
    }
}

/// The answer's link when its success flag is set; otherwise a reported failure.
pub open spec fn resume_model(reply: Reply) -> StepView<FileioState> {
    match reply {
        Reply::Failed(e) => done_err(e@),
        Reply::FileioUpload(u) => if u.success {
            StepView::Done(Ok(u.link@))
        } else {
            done_err(ErrorView::BadApiResponse)
        },
        _ => done_err(ErrorView::Parse(unexpected_reply_text())),
    }
}

pub fn start(file_size: usize) -> (r: Step<FileioState>)
    ensures
        r@ == start_model(file_size),
{
    match check_file_size_limit(file_size, Size::GB2) {
        Err(e) => Step::Done(Err(UploadError::FileSizeLimit(e))),
        Ok(()) => Step::Next(FileioState::Upload),
    }
}

pub fn resume(state: FileioState, reply: Reply) -> (r: Step<FileioState>)
    ensures
        r@ == resume_model(reply),
{
    match reply {
        Reply::Failed(e) => Step::Done(Err(e)),
        Reply::FileioUpload(u) => {
            if u.success {
                Step::Done(Ok(u.link))
            } else {
                Step::Done(Err(UploadError::BadApiResponse(BadAPIResponseError)))
            }
        },
        _ => Step::Done(Err(unexpected_reply())),
    }
}

pub open spec fn request_model(file_path: Seq<char>) -> RequestView {
    RequestView {
        verb: Verb::Post,
        url: "https://file.io"@,
        headers: seq![],
        cookies: None,
        payload: PayloadView::File { field_name: "file"@, file_path, fields: seq![] },
    }
}

impl FileioState {
    /// The upload of the file at `file_path`, with no extra headers or cookies.
    pub fn exchange(&self, file_path: &str) -> (r: Exchange)
        ensures
            r.request@ == request_model(file_path@),
            r.expect == Expect::FileioUpload,
    {
        let headers: Vec<(String, String)> = Vec::new();
        let fields: Vec<(String, String)> = Vec::new();
        assert(pairs_view(headers@) =~= seq![]);
        assert(pairs_view(fields@) =~= seq![]);
        Exchange {
            request: HttpRequest {
                verb: Verb::Post,
                url: String::from_str("https://file.io"),
                headers,
                cookies: None,
                payload: Payload::File(
                    FilePart { field_name: String::from_str("file"), file_path: String::from_str(file_path), fields },
                ),
            },
            expect: Expect::FileioUpload,
        }
    }
}

} // verus!
