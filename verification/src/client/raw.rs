//! The raw HTTP client: a static body, and only status, duration and byte
//! counts. Tokens are estimated at four bytes each.

use super::anthropic::{clean_key, usable_key};
use super::{failed_with, format_transport_error, transport_text, HttpFault, RequestMetrics};
use crate::config::{opt_view, RunConfig};
use crate::error::Error;
use crate::text::{decimal, decimal_text};
use vstd::prelude::*;

verus! {

#[derive(Debug)]
pub struct RawClient {
    pub target: String,
    /// The body; without one the request is sent empty.
    pub body: Option<Vec<u8>>,
    pub content_type: String,
    /// Sent as a bearer token.
    pub api_key: Option<String>,
}

/// The bytes of a body, empty where there is none.
pub open spec fn body_bytes(body: Option<Vec<u8>>) -> Seq<u8> {
    match body {
        Some(b) => b@,
        None => Seq::empty(),
    }
}

impl RawClient {
    /// `file` holds the bytes of the configured body file, or `None` where that
    /// file does not exist.
    pub fn new(cfg: &RunConfig, file: Option<Vec<u8>>) -> (r: Result<Self, Error>)
        ensures
            match r {
                Ok(c) => {
                    &&& cfg.raw_body_file is None || file is Some
                    &&& c.body == (if cfg.raw_body_file is Some {
                        file
                    } else {
                        None
                    })
                    &&& c.target@ == cfg.target@
                    &&& c.content_type@ == (match opt_view(cfg.raw_content_type) {
                        Some(t) => t,
                        None => "application/json"@,
                    })
                    &&& opt_view(c.api_key) == usable_key(opt_view(cfg.api_key))
                },
                Err(e) => {
                    &&& cfg.raw_body_file is Some
                    &&& file is None
                    &&& e matches Error::InvalidConfig(msg) && msg@
                        == "--raw-body-file not found: "@ + cfg.raw_body_file.unwrap()@
                },
            },
    {
        let body = match &cfg.raw_body_file {
            Some(path) => {
                if file.is_none() {
                    let mut msg = String::new();
                    msg.push_str("--raw-body-file not found: ");
                    msg.push_str(path.as_str());
                    proof {
                        assert(msg@ =~= "--raw-body-file not found: "@ + path@);
                    }
                    return Err(Error::InvalidConfig(msg));
                }
                file
            },
            None => None,
        };
        let content_type = match &cfg.raw_content_type {
            Some(t) => t.clone(),
            None => "application/json".to_owned(),
        };
        Ok(
            RawClient {
                target: cfg.target.clone(),
                body,
                content_type,
                api_key: clean_key(&cfg.api_key),
            },
        )
    }

    /// The length of the body in bytes.
    pub fn body_len(&self) -> (r: usize)
        ensures
            r == body_bytes(self.body).len(),
    {
        match &self.body {
            Some(b) => b.len(),
            None => 0,
        }
    }

    /// The metrics of a request that is about to be sent: the prompt tokens are
    /// estimated from the body, and are at least one.
    pub fn begin(&self) -> (r: RequestMetrics)
        ensures
            r.prompt_tokens == (if body_bytes(self.body).len() as u32 / 4 > 1 {
                body_bytes(self.body).len() as u32 / 4
            } else {
                1
            }),
            r.status == 0,
            r.error is None,
            r.ttft is None,
            r.itl_samples@.len() == 0,
            r.completion_tokens == 0,
            r.total_duration == 0,
            !r.estimated,
            r.response_text@.len() == 0,
            r.response_id is None,
            r.cache_creation_input_tokens == 0,
            r.cache_hit_input_tokens == 0,
            r.spec_decoded_tok == 0,
            r.spec_accepted_tok == 0,
            r.spec_iterations == 0,
            r.started_at@ == "1970-01-01T00:00:00Z"@,
            r.finished_at@ == "1970-01-01T00:00:00Z"@,
    {
        let mut m = RequestMetrics::default();
        let quarter = self.body_len() as u32 / 4;
        m.prompt_tokens = if quarter > 1 {
            quarter
        } else {
            1
        };
        m
    }

    /// Notes that there was no reply.
    pub fn unsent(&self, m: &mut RequestMetrics, e: &HttpFault, total: u128)
        ensures
            failed_with(*old(m), *final(m), old(m).status, transport_text(*e), total),
    {
        m.error = Some(format_transport_error(e));
        m.total_duration = total;
    }

    /// Takes the reply: its status, and the length of its body or why it could
    /// not be read.
    pub fn finish(
        &self,
        m: &mut RequestMetrics,
        status: u16,
        body: Result<usize, String>,
        total: u128,
    )
        requires
            old(m).error is None,
        ensures
            final(m).status == status,
            final(m).total_duration == total,
            match body {
                Ok(len) => final(m).completion_tokens == len as u32 / 4 && final(m).estimated,
                Err(_) => final(m).completion_tokens == old(m).completion_tokens && final(m).estimated == old(m).estimated,
            },
            opt_view(final(m).error) == (match body {
                Err(e) => Some("body read: "@ + e@),
                Ok(_) => if status < 200 || status >= 300 {
                    Some("HTTP "@ + decimal(status as nat))
                } else {
                    None
                },
            }),
            *final(m) == (RequestMetrics {
                status: final(m).status,
                total_duration: final(m).total_duration,
                completion_tokens: final(m).completion_tokens,
                estimated: final(m).estimated,
                error: final(m).error,
                ..*old(m)
            }),
    {
        m.status = status;
        match body {
            Ok(len) => {
                m.completion_tokens = len as u32 / 4;
                m.estimated = true;
                if status < 200 || status >= 300 {
                    let mut msg = String::new();
                    msg.push_str("HTTP ");
                    msg.push_str(decimal_text(status as u128).as_str());
                    proof {
                        assert(msg@ =~= "HTTP "@ + decimal(status as nat));
                    }
                    m.error = Some(msg);
                }
            },
            Err(e) => {
                let mut msg = String::new();
                msg.push_str("body read: ");
                msg.push_str(e.as_str());
                proof {
                    assert(msg@ =~= "body read: "@ + e@);
                }
                m.error = Some(msg);
            },
        }
        m.total_duration = total;
    }
}

} // verus!
