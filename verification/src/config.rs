//! Server-wide configuration: the bodies and statuses of the fallback and
//! error responses, and explicit choices the dispatch core refuses to make
//! silently (trailing-slash equivalence, the status of a directory request
//! when listing is off).

use vstd::prelude::*;
use crate::names;
use crate::response::{buffered_model, ResponseModel};

verus! {

/// The explicit server context configuration; no ambient defaults.
pub struct ServerConfig {
    /// Status of a response to a failed handler (`500` unless configured).
    pub error_status: u16,
    /// Body of a response to a failed handler.
    pub error_body: Vec<u8>,
    /// Body of the configured "not found" response.
    pub not_found_body: Vec<u8>,
    /// Media type of the configured "not found" response.
    pub not_found_type: Vec<u8>,
    /// Whether `/user/alice/` and `/user/alice` see the same route.
    pub strip_trailing_slash: bool,
    /// Status of a directory request under a mount with listing off
    /// (`403` or `404`).
    pub dir_request_status: u16,
}

/// Mathematical model of a configuration.
pub struct ConfigModel {
    pub error_status: u16,
    pub error_body: Seq<u8>,
    pub not_found_body: Seq<u8>,
    pub not_found_type: Seq<u8>,
    pub strip_trailing_slash: bool,
    pub dir_request_status: u16,
}

impl View for ServerConfig {
    type V = ConfigModel;

    open spec fn view(&self) -> ConfigModel {
        ConfigModel {
            error_status: self.error_status,
            error_body: self.error_body@,
            not_found_body: self.not_found_body@,
            not_found_type: self.not_found_type@,
            strip_trailing_slash: self.strip_trailing_slash,
            dir_request_status: self.dir_request_status,
        }
    }
}

/// Model of the response to a failed handler: the configured status, the
/// configured body, default media type.
pub open spec fn error_model(cfg: ConfigModel) -> ResponseModel {
    buffered_model(cfg.error_status, None, cfg.error_body)
}

/// Model of the configured "not found" response: always status `404`.
pub open spec fn not_found_model(cfg: ConfigModel) -> ResponseModel {
    buffered_model(404, Some(cfg.not_found_type), cfg.not_found_body)
}

/// Model of the "method not allowed" response: status `405`, empty body.
pub open spec fn method_not_allowed_model() -> ResponseModel {
    buffered_model(405, None, Seq::empty())
}

/// Model of the response to an unexpected static-file failure: status `500`.
pub open spec fn static_failure_model(cfg: ConfigModel) -> ResponseModel {
    buffered_model(500, None, cfg.error_body)
}

impl ServerConfig {
    /// The default configuration: handler failures become `500` responses,
    /// the "not found" page is plain text, trailing slashes are significant,
    /// and a directory request under a mount with listing off is a `404`.
    pub fn new_default() -> (c: ServerConfig)
        ensures
            c@ == (ConfigModel {
                error_status: 500,
                error_body: names::error_text_spec(),
                not_found_body: names::not_found_text_spec(),
                not_found_type: names::text_plain_spec(),
                strip_trailing_slash: false,
                dir_request_status: 404,
            }),
    {
        ServerConfig {
            error_status: 500,
            error_body: names::error_text(),
            not_found_body: names::not_found_text(),
            not_found_type: names::text_plain(),
            strip_trailing_slash: false,
            dir_request_status: 404,
        }
    }
}

} // verus!
