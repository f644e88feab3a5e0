//! The replies of the service, as plain values: a status code and a body that
//! the program around the library writes out as JSON.

use vstd::prelude::*;
use vstd::string::*;

verus! {

/// Message and kind of a failure.
#[derive(Debug)]
pub struct ErrorDetail {
    pub message: String,
    pub error_type: String,
}

/// The body of every failed request: one error with its two fields.
#[derive(Debug)]
pub struct ErrorResponse {
    pub error: ErrorDetail,
}

/// One generated image, base64-encoded.
#[derive(Debug)]
pub struct ImageData {
    pub b64_json: String,
}

/// The body of a successful generation.
#[derive(Debug)]
pub struct ImageGenerationResponse {
    pub created: u64,
    pub data: Vec<ImageData>,
}

/// The body of the health report.
#[derive(Debug)]
pub struct HealthStatus {
    pub status: String,
    pub timestamp: u64,
}

/// What a reply carries.
#[derive(Debug)]
pub enum ReplyBody {
    Images(ImageGenerationResponse),
    Error(ErrorResponse),
    Health(HealthStatus),
}

/// A reply: the HTTP status code and the body.
#[derive(Debug)]
pub struct HttpReply {
    pub status: u16,
    pub body: ReplyBody,
}

/// The kind of a failure that the client caused.
pub open spec fn invalid_request_kind() -> Seq<char> {
    "invalid_request_error"@
}

/// The kind of a failure on the service's side.
pub open spec fn server_error_kind() -> Seq<char> {
    "server_error"@
}

/// The message of a reply to a request without a valid credential.
pub open spec fn unauthorized_message() -> Seq<char> {
    "Invalid or missing authorization token"@
}

/// The payloads of a sequence of images, in order.
pub open spec fn payloads(data: Seq<ImageData>) -> Seq<Seq<char>> {
    Seq::new(data.len(), |i: int| data[i].b64_json@)
}

impl HttpReply {
    /// The reply is an error with exactly this status, kind and message.
    pub open spec fn is_error(&self, status: u16, kind: Seq<char>, message: Seq<char>) -> bool {
        &&& self.status == status
        &&& match self.body {
            ReplyBody::Error(e) => e.error.message@ == message && e.error.error_type@ == kind,
            _ => false,
        }
    }

    /// The reply is a success (200) created at `created` with exactly these
    /// payloads.
    pub open spec fn is_images(&self, created: u64, images: Seq<Seq<char>>) -> bool {
        &&& self.status == 200
        &&& match self.body {
            ReplyBody::Images(r) => r.created == created && payloads(r.data@) == images,
            _ => false,
        }
    }

    /// The reply is the health report (200, status `ok`) of time `timestamp`.
    pub open spec fn is_health(&self, timestamp: u64) -> bool {
        &&& self.status == 200
        &&& match self.body {
            ReplyBody::Health(h) => h.status@ == "ok"@ && h.timestamp == timestamp,
            _ => false,
        }
    }

    /// The reply to a request without a valid credential.
    pub fn unauthorized() -> (r: HttpReply)
        ensures
            r.is_error(401, invalid_request_kind(), unauthorized_message()),
    {
        HttpReply {
            status: 401,
            body: ReplyBody::Error(
                ErrorResponse {
                    error: ErrorDetail {
                        message: String::from_str("Invalid or missing authorization token"),
                        error_type: String::from_str("invalid_request_error"),
                    },
                },
            ),
        }
    }

    /// The reply to a request that failed on the service's side, with its
    /// message.
    pub fn server_error(message: String) -> (r: HttpReply)
        ensures
            r.is_error(500, server_error_kind(), message@),
    {
        HttpReply {
            status: 500,
            body: ReplyBody::Error(
                ErrorResponse {
                    error: ErrorDetail { message, error_type: String::from_str("server_error") },
                },
            ),
        }
    }

    /// The reply to a generation that produced one image.
    pub fn image(created: u64, b64_json: String) -> (r: HttpReply)
        ensures
            r.is_images(created, seq![b64_json@]),
    {
        let mut data: Vec<ImageData> = Vec::new();
        data.push(ImageData { b64_json });
        assert(payloads(data@) =~= seq![b64_json@]);
        HttpReply { status: 200, body: ReplyBody::Images(ImageGenerationResponse { created, data }) }
    }

    /// The health report.
    pub fn health(timestamp: u64) -> (r: HttpReply)
        ensures
            r.is_health(timestamp),
    {
        HttpReply {
            status: 200,
            body: ReplyBody::Health(HealthStatus { status: String::from_str("ok"), timestamp }),
        }
    }
}

} // verus!
