//! Anonymous image upload via the official Imgur API.
//!
//! Imgur's documented anonymous flow: POST the image to `/3/image` with an
//! `Authorization: Client-ID <id>` header. No user account or OAuth needed.
//! The request itself is sent by the application; this module holds what
//! goes into it and decides what its reply means.

use vstd::prelude::*;

use crate::text::{concat_str, opt_view, owned, push_str, take_chars};

verus! {

/// The upload endpoint.
pub const ENDPOINT: &'static str = "https://api.imgur.com/3/image";

/// The user agent the uploader announces.
pub const USER_AGENT: &'static str = "linkshot/0.1";

/// The file name under which the image is posted.
pub const UPLOAD_FILE_NAME: &'static str = "linkshot.png";

/// The MIME type of the posted image.
pub const UPLOAD_MIME: &'static str = "image/png";

/// How many characters of an unexpected reply are quoted in the error.
pub const EXCERPT_CHARS: usize = 300;

/// The `data` member of Imgur's reply.
pub struct ImgurData {
    /// The public link of the uploaded image.
    pub link: Option<String>,
    /// The anonymous delete token.
    pub deletehash: Option<String>,
    /// The `error` member, rendered as JSON text.
    pub error: Option<String>,
}

/// Imgur's reply to an upload.
pub struct ImgurResp {
    pub success: bool,
    pub status: u32,
    pub data: ImgurData,
}

/// Result of a successful upload.
pub struct Uploaded {
    pub link: String,
    /// Anonymous delete token — keep it if you want to be able to remove the image later.
    pub deletehash: Option<String>,
}

/// Why an upload failed.
pub enum UploadError {
    /// The request could not be built or sent; the text says why.
    Transport(String),
    /// The request to Imgur failed (network or Client-ID).
    RequestFailed,
    /// The reply was not Imgur's JSON: the HTTP status and the start of the body.
    Unexpected { http_status: String, excerpt: String },
    /// Imgur answered and refused the upload; the detail it gave.
    Rejected(String),
    /// Imgur accepted the upload but gave no link.
    MissingLink,
}

/// The value of the `Authorization` header for `client_id`.
pub open spec fn authorization_text(client_id: Seq<char>) -> Seq<char> {
    "Client-ID "@ + client_id
}

/// The value of the `Authorization` header for `client_id`.
pub fn authorization_header(client_id: &str) -> (r: String)
    ensures
        r@ == authorization_text(client_id@),
{
    concat_str("Client-ID ", client_id)
}

/// The detail quoted when Imgur refuses an upload: its `error` member, or
/// `unknown error` when there is none.
pub open spec fn rejection_detail(error: Option<Seq<char>>) -> Seq<char> {
    match error {
        Some(e) => e,
        None => "unknown error"@,
    }
}

/// Whether Imgur accepted the upload: `success` is set and the status is 200.
pub open spec fn accepted(resp: ImgurResp) -> bool {
    resp.success && resp.status == 200
}

/// What a reply means: a refusal unless it reports success with status 200;
/// then the link and delete token it carries, or a failure when it has no link.
pub fn interpret_response(resp: ImgurResp) -> (r: Result<Uploaded, UploadError>)
    ensures
        !accepted(resp) ==> (r matches Err(UploadError::Rejected(d)) && d@ == rejection_detail(
            opt_view(resp.data.error),
        )),
        accepted(resp) && resp.data.link is None ==> (r matches Err(UploadError::MissingLink)),
        accepted(resp) && resp.data.link is Some ==> (r matches Ok(u) && u.link@
            == resp.data.link->0@ && opt_view(u.deletehash) == opt_view(resp.data.deletehash)),
{
    if !resp.success || resp.status != 200 {
        let detail = match resp.data.error {
            Some(e) => e,
            None => owned("unknown error"),
        };
        return Err(UploadError::Rejected(detail));
    }
    match resp.data.link {
        Some(link) => Ok(Uploaded { link, deletehash: resp.data.deletehash }),
        None => Err(UploadError::MissingLink),
    }
}

/// The failure for a reply that is not Imgur's JSON: its HTTP status, as
/// displayed, and its first 300 characters.
pub fn unexpected_response(http_status: &str, body: &str) -> (r: UploadError)
    ensures
        r matches UploadError::Unexpected { http_status: s, excerpt: e } && s@ == http_status@
            && e@ == body@.take(if body@.len() < 300 { body@.len() as int } else { 300 }),
{
    UploadError::Unexpected { http_status: owned(http_status), excerpt: take_chars(body, 300) }
}

/// The message that describes an upload failure.
pub open spec fn upload_error_text(e: UploadError) -> Seq<char> {
    match e {
        UploadError::Transport(t) => t@,
        UploadError::RequestFailed => "request to Imgur failed (check network/Client-ID)"@,
        UploadError::Unexpected { http_status, excerpt } => "unexpected Imgur response (HTTP "@
            + http_status@ + "): "@ + excerpt@,
        UploadError::Rejected(d) => "Imgur rejected the upload: "@ + d@,
        UploadError::MissingLink => "Imgur response missing image link"@,
    }
}

/// A reply is taken as an upload only when it reports success with status
/// 200; a refusal quotes Imgur's error, or says `unknown error` when Imgur
/// gave none; and each failure is described with what it carries.
pub proof fn law_reply_meaning(resp: ImgurResp, e: String, s: String, x: String)
    ensures
        accepted(resp) <==> (resp.success && resp.status == 200),
        rejection_detail(None) == "unknown error"@,
        rejection_detail(Some(e@)) == e@,
        upload_error_text(UploadError::Transport(e)) == e@,
        upload_error_text(UploadError::RequestFailed)
            == "request to Imgur failed (check network/Client-ID)"@,
        upload_error_text(UploadError::Unexpected { http_status: s, excerpt: x })
            == "unexpected Imgur response (HTTP "@ + s@ + "): "@ + x@,
        upload_error_text(UploadError::Rejected(e)) == "Imgur rejected the upload: "@ + e@,
        upload_error_text(UploadError::MissingLink) == "Imgur response missing image link"@,
{
}

impl UploadError {
    /// The message that describes this failure.
    pub fn message(&self) -> (r: String)
        ensures
            r@ == upload_error_text(*self),
    {
        match self {
            UploadError::Transport(t) => t.clone(),
            UploadError::RequestFailed => owned("request to Imgur failed (check network/Client-ID)"),
            UploadError::Unexpected { http_status, excerpt } => {
                let mut r = concat_str("unexpected Imgur response (HTTP ", http_status.as_str());
                push_str(&mut r, "): ");
                push_str(&mut r, excerpt.as_str());
                r
            },
            UploadError::Rejected(d) => concat_str("Imgur rejected the upload: ", d.as_str()),
            UploadError::MissingLink => owned("Imgur response missing image link"),
        }
    }
}

} // verus!
