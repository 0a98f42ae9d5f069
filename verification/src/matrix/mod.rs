//! The Matrix side: media urls, the requests to a homeserver and what their
//! answers mean, and the sticker packs in their Matrix form.

pub mod sticker;
pub mod sticker_formats;
pub mod stickerpack;


use vstd::prelude::*;
use vstd::string::*;
use crate::error::{Error, MatrixUploadApiError};
use crate::text::copy_bytes;

verus! {

/// What a [`Mxc`] stands for: its url, and the bytes of the file if they are
/// at hand.
pub struct MxcView {
    pub url: Seq<char>,
    pub data: Option<Seq<u8>>,
}

/// Matrix file url.
///
/// Stores a Matrix file url and keeps the data of the file, if it is known, to
/// avoid fetching it again. Two of them are the same if their urls are.
#[derive(Debug)]
pub struct Mxc {
    url: String,
    /// file data of the url, if cached
    data: Option<Vec<u8>>,
}

impl View for Mxc {
    type V = MxcView;

    closed spec fn view(&self) -> MxcView {
        MxcView {
            url: self.url@,
            data: match self.data {
                Some(bytes) => Some(bytes@),
                None => None,
            },
        }
    }
}

impl Clone for Mxc {
    fn clone(&self) -> (copy: Mxc)
        ensures
            copy@ == self@,
    {
        let data = match &self.data {
            Some(bytes) => Some(copy_bytes(bytes)),
            None => None,
        };
        Mxc { url: self.url.clone(), data }
    }
}

impl Mxc {
    /// Create a new [`Mxc`] from a Matrix url and the file data that belongs
    /// to it, if it is known.
    pub fn new(url: String, data: Option<Vec<u8>>) -> (mxc: Mxc)
        ensures
            mxc@.url == url@,
            mxc@.data == match data {
                Some(bytes) => Some(bytes@),
                None => None::<Seq<u8>>,
            },
    {
        Mxc { url, data }
    }

    /// A [`Mxc`] of a url whose data is not at hand.
    pub fn from_url(url: String) -> (mxc: Mxc)
        ensures
            mxc@ == (MxcView { url: url@, data: None }),
    {
        Mxc { url, data: None }
    }

    /// The same url, with the data of the file attached.
    pub fn with_data(self, data: Vec<u8>) -> (mxc: Mxc)
        ensures
            mxc@ == (MxcView { url: self@.url, data: Some(data@) }),
    {
        Mxc { url: self.url, data: Some(data) }
    }

    pub fn url(&self) -> (url: &String)
        ensures
            url@ == self@.url,
    {
        &self.url
    }

    pub fn data(&self) -> (data: &Option<Vec<u8>>)
        ensures
            match *data {
                Some(bytes) => self@.data == Some(bytes@),
                None => self@.data is None,
            },
    {
        &self.data
    }

    /// Whether two urls are the same. The data plays no part.
    pub fn same_url(&self, other: &Mxc) -> (same: bool)
        ensures
            same == (self@.url == other@.url),
    {
        self.url == other.url
    }
}

/// How to reach a homeserver, and as whom.
#[derive(Debug)]
pub struct Config {
    pub homeserver_url: String,
    pub user: String,
    pub access_token: String,
}

/// The answer to the question who the access token belongs to.
#[derive(Debug)]
pub struct Whoami {
    pub user_id: String,
    pub device_id: String,
}

/// The answer to an upload: where the file is now.
#[derive(Debug)]
pub struct MatrixContentUri {
    pub content_uri: String,
}

impl Config {
    /// The address to which files are uploaded.
    pub fn upload_url(&self) -> (url: String)
        ensures
            url@ == self.homeserver_url@ + "/_matrix/media/r0/upload"@,
    {
        self.homeserver_url.clone().concat("/_matrix/media/r0/upload")
    }

    /// The address that tells whom the access token belongs to.
    pub fn whoami_url(&self) -> (url: String)
        ensures
            url@ == self.homeserver_url@ + "/_matrix/client/r0/account/whoami"@,
    {
        self.homeserver_url.clone().concat("/_matrix/client/r0/account/whoami")
    }

    /// The address under which the user's widgets are stored.
    pub fn widgets_url(&self) -> (url: String)
        ensures
            url@ == self.homeserver_url@ + "/_matrix/client/r0/user/"@ + self.user@
                + "/account_data/m.widgets"@,
    {
        self.homeserver_url.clone().concat("/_matrix/client/r0/user/").concat(
            self.user.as_str(),
        ).concat("/account_data/m.widgets")
    }
}

/// What the answer to an upload means. Any status but 200 is a refusal, which
/// keeps the status, the file name and the error body as it was read. With
/// status 200 the answer names the url of the file; if it cannot be read, the
/// request has failed.
pub fn upload_outcome(
    filename: &String,
    status: u16,
    error_body: Result<crate::error::MatrixError, String>,
    content: Result<MatrixContentUri, String>,
) -> (res: Result<Mxc, Error>)
    ensures
        status != 200 ==> res == Err::<Mxc, Error>(
            Error::MatrixUpload(
                MatrixUploadApiError {
                    status_code: status,
                    matrix_error: error_body,
                    filename: *filename,
                },
            ),
        ),
        status == 200 ==> match content {
            Ok(uri) => res matches Ok(mxc) && mxc@ == (MxcView { url: uri.content_uri@, data: None }),
            Err(reason) => res == Err::<Mxc, Error>(Error::Reqwest(reason)),
        },
{
    if status != 200 {
        return Err(
            Error::MatrixUpload(
                MatrixUploadApiError {
                    status_code: status,
                    matrix_error: error_body,
                    filename: filename.clone(),
                },
            ),
        );
    }
    match content {
        Ok(uri) => Ok(Mxc::from_url(uri.content_uri)),
        Err(reason) => Err(Error::Reqwest(reason)),
    }
}

/// The text that describes a request which the homeserver answered with a
/// status other than 200: the status, then the error code and message of the
/// error body, if it could be read.
pub open spec fn failure_text(
    status: Seq<char>,
    error_body: Option<crate::error::MatrixError>,
) -> Seq<char> {
    match error_body {
        Some(e) => status + " "@ + (": "@ + e.errcode@ + " "@ + e.error@),
        None => status + " "@,
    }
}

/// What the status of an answer means for a request that returns nothing but
/// success: status 200 is the success, any other status is a refusal, which
/// is described by its status and error body.
pub fn check_status(status: u16, status_text: &str, error_body: &Option<
    crate::error::MatrixError,
>) -> (res: Result<(), String>)
    ensures
        status == 200 ==> res is Ok,
        status != 200 ==> (res matches Err(text) && text@ == failure_text(
            status_text@,
            *error_body,
        )),
{
    if status == 200 {
        Ok(())
    } else {
        Err(describe_failure(status_text, error_body))
    }
}

/// Describe a request that the homeserver refused.
pub fn describe_failure(status: &str, error_body: &Option<crate::error::MatrixError>) -> (text:
    String)
    ensures
        text@ == failure_text(status@, *error_body),
{
    let head = String::from_str(status).concat(" ");
    match error_body {
        Some(e) => {
            let tail = String::from_str(": ").concat(e.errcode.as_str()).concat(" ").concat(
                e.error.as_str(),
            );
            head.concat(tail.as_str())
        },
        None => head,
    }
}

} // verus!
