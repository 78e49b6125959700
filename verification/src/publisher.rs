//! Forwarding a statement over HTTPS: what is sent, and how the outcome of
//! sending it is judged. Sending itself is left to the caller.

use crate::text::text_of;
use vstd::prelude::*;

verus! {

/// Seconds after which a request is given up.
pub const PUBLISH_TIMEOUT_SECS: u64 = 30;

/// Where statements are forwarded, and with which credentials.
#[derive(Debug, Clone)]
pub struct HttpsPublisher {
    url: String,
    auth_token: Option<String>,
}

/// One POST request that forwards a statement.
#[derive(Debug, Clone, PartialEq, Eq)]
pub struct PublishRequest {
    pub url: String,
    pub body: String,
    /// Value of the `Authorization` header, where a token is configured.
    pub authorization: Option<String>,
    pub timeout_secs: u64,
}

/// What became of a request.
#[derive(Debug, Clone, PartialEq, Eq)]
pub enum Delivery {
    /// No response arrived.
    Failed { reason: String },
    /// The server answered. `status_text` is the status line as shown to
    /// people; `body` is the response body.
    Answered { status: u16, status_text: String, body: String },
}

/// Whether a response status means that the server took the statement:
/// 200 OK, 201 Created or 204 No Content.
pub open spec fn status_accepted(status: u16) -> bool {
    status == 200 || status == 201 || status == 204
}

/// The `Authorization` header for a token.
pub open spec fn bearer(token: Seq<char>) -> Seq<char> {
    "Bearer "@ + token
}

/// The error text for a request that got no response.
pub open spec fn failure_text(reason: Seq<char>) -> Seq<char> {
    "Request failed: "@ + reason
}

/// The error text for a response that refuses the statement.
pub open spec fn refusal_text(status_text: Seq<char>, body: Seq<char>) -> Seq<char> {
    "Server returned "@ + status_text + ": "@ + body
}

/// How an outcome is judged: success exactly where the server answered with
/// an accepted status, and otherwise the error text.
pub open spec fn judged(delivery: Delivery) -> Result<(), Seq<char>> {
    match delivery {
        Delivery::Failed { reason } => Err(failure_text(reason@)),
        Delivery::Answered { status, status_text, body } => if status_accepted(status) {
            Ok(())
        } else {
            Err(refusal_text(status_text@, body@))
        },
    }
}

impl HttpsPublisher {
    /// Whether `request` is the request by which this publisher forwards
    /// `payload`.
    pub open spec fn asks(&self, payload: Seq<char>, request: PublishRequest) -> bool {
        &&& request.url@ == self.url()
        &&& request.body@ == payload
        &&& text_of(request.authorization) == match self.auth_token() {
            Some(token) => Some(bearer(token)),
            None => None,
        }
        &&& request.timeout_secs == PUBLISH_TIMEOUT_SECS
    }

    /// The address that statements are posted to.
    pub closed spec fn url(&self) -> Seq<char> {
        self.url@
    }

    /// The bearer token, if any.
    pub closed spec fn auth_token(&self) -> Option<Seq<char>> {
        text_of(self.auth_token)
    }

    /// A publisher that posts to `url`, with `auth_token` as bearer token
    /// where there is one.
    pub fn new(url: String, auth_token: Option<String>) -> (publisher: HttpsPublisher)
        ensures
            publisher.url() == url@,
            publisher.auth_token() == text_of(auth_token),
    {
        HttpsPublisher { url, auth_token }
    }

    /// Whether a response status means success.
    pub fn accepted(status: u16) -> (ok: bool)
        ensures
            ok == status_accepted(status),
    {
        status == 200 || status == 201 || status == 204
    }

    /// The request that forwards a serialized statement: a POST of the
    /// statement to the configured address, with a bearer token where one is
    /// configured, given up after `PUBLISH_TIMEOUT_SECS` seconds.
    pub fn request(&self, json_payload: &str) -> (request: PublishRequest)
        ensures
            self.asks(json_payload@, request),
    {
        let authorization = match &self.auth_token {
            Some(token) => {
                let mut header = "Bearer ".to_owned();
                header.append(token.as_str());
                Some(header)
            },
            None => None,
        };
        PublishRequest {
            url: self.url.clone(),
            body: json_payload.to_owned(),
            authorization,
            timeout_secs: PUBLISH_TIMEOUT_SECS,
        }
    }

    /// Judges the outcome of forwarding a statement: success exactly where the
    /// server answered with an accepted status. A failure is reported and
    /// never retried here.
    pub fn publish(&self, delivery: &Delivery) -> (r: Result<(), String>)
        ensures
            match judged(*delivery) {
                Ok(_) => r is Ok,
                Err(text) => r matches Err(e) && e@ == text,
            },
    {
        match delivery {
            Delivery::Failed { reason } => {
                let mut text = "Request failed: ".to_owned();
                text.append(reason.as_str());
                Err(text)
            },
            Delivery::Answered { status, status_text, body } => {
                if HttpsPublisher::accepted(*status) {
                    Ok(())
                } else {
                    let mut text = "Server returned ".to_owned();
                    text.append(status_text.as_str());
                    text.append(": ");
                    text.append(body.as_str());
                    Err(text)
                }
            },
        }
    }
}

} // verus!
