//! What the HTTP layer decides about a request before it opens a stream, and
//! the settings of the server.

use crate::error::AppError;
use crate::request::{ChatCompletionsRequest, RequestView, StreamOptions};
use crate::text::{
    concat_str, decimal, from_chars, has_prefix, lower, lowercase, push_decimal, starts_with,
    to_chars,
};
use vstd::prelude::*;
use vstd::string::StringExecFns;

verus! {

/// The provider that serves a request.
#[derive(Clone, Copy, Debug, PartialEq, Eq, Structural)]
pub enum Provider {
    OpenAI,
    Bedrock,
}

/// A model of OpenAI: its name begins with `gpt-`, in capitals or not.
pub open spec fn is_openai_model(model: Seq<char>) -> bool {
    has_prefix(lower(model), "gpt-"@)
}

/// Whether the request is refused, and why.
pub open spec fn refusal(request: RequestView, openai_api_key: Option<Seq<char>>) -> Option<
    Seq<char>,
> {
    if request.stream == Some(false) {
        Some("Streaming is required but was disabled"@)
    } else if is_openai_model(request.model) {
        match openai_api_key {
            None => Some("OpenAI API key is not configured but OpenAI model was requested"@),
            Some(key) => if key.len() == 0 {
                Some("OpenAI API key is empty but OpenAI model was requested"@)
            } else {
                None
            },
        }
    } else {
        None
    }
}

/// Whether `model` is a model of OpenAI.
pub fn model_is_openai(model: &str) -> (r: bool)
    ensures
        r == is_openai_model(model@),
{
    starts_with(&lowercase(&to_chars(model)), &to_chars("gpt-"))
}

/// Decides who serves the request. A request that switches streaming off is
/// refused; so is a request for a model of OpenAI while no key for it is
/// configured. Every request that is served is asked to report its usage.
pub fn route(request: &mut ChatCompletionsRequest, openai_api_key: &Option<String>) -> (r: Result<
    Provider,
    AppError,
>)
    ensures
        match r {
            Ok(provider) => {
                &&& refusal(old(request).deep_view(), openai_api_key.deep_view()) is None
                &&& provider == if is_openai_model(old(request).deep_view().model) {
                    Provider::OpenAI
                } else {
                    Provider::Bedrock
                }
                &&& final(request).deep_view() == (RequestView {
                    stream_options: Some(StreamOptions { include_usage: true }),
                    ..old(request).deep_view()
                })
            },
            Err(error) => {
                &&& refusal(old(request).deep_view(), openai_api_key.deep_view()) == Some(
                    error.text(),
                )
                &&& final(request).deep_view() == old(request).deep_view()
            },
        },
{
    match request.stream {
        Some(false) => {
            return Err(AppError::new("Streaming is required but was disabled".to_owned()));
        },
        _ => {},
    }
    let openai = model_is_openai(request.model.as_str());
    if openai {
        match openai_api_key {
            Some(key) => {
                if key.as_str().is_empty() {
                    return Err(
                        AppError::new(
                            "OpenAI API key is empty but OpenAI model was requested".to_owned(),
                        ),
                    );
                }
            },
            None => {
                return Err(
                    AppError::new(
                        "OpenAI API key is not configured but OpenAI model was requested".to_owned(),
                    ),
                );
            },
        }
    }
    request.stream_options = Some(StreamOptions { include_usage: true });
    if openai {
        Ok(Provider::OpenAI)
    } else {
        Ok(Provider::Bedrock)
    }
}

/// The settings of the server.
#[derive(Debug, PartialEq)]
pub struct ServerConfig {
    pub host: String,
    pub port: u16,
    pub openai_api_key: Option<String>,
}

impl ServerConfig {
    /// The settings, given what the configuration holds: a host that is not
    /// given is `127.0.0.1`, a port that is not given is 3000.
    pub fn from_settings(host: Option<String>, port: Option<u16>, openai_api_key: Option<String>) -> (r:
        ServerConfig)
        ensures
            r.host@ == match host {
                Some(host) => host@,
                None => "127.0.0.1"@,
            },
            r.port == match port {
                Some(port) => port,
                None => 3000u16,
            },
            r.openai_api_key.deep_view() == openai_api_key.deep_view(),
    {
        ServerConfig {
            host: match host {
                Some(host) => host,
                None => "127.0.0.1".to_owned(),
            },
            port: match port {
                Some(port) => port,
                None => 3000,
            },
            openai_api_key,
        }
    }

    /// The address to listen on: host, colon, port.
    pub fn bind_address(&self) -> (r: String)
        ensures
            r@ == self.host@ + ":"@ + decimal(self.port as nat),
    {
        let mut digits: Vec<char> = Vec::new();
        push_decimal(self.port as u64, &mut digits);
        assert(digits@ =~= decimal(self.port as nat));
        let mut address = concat_str(self.host.as_str(), ":");
        address.append(from_chars(&digits).as_str());
        address
    }
}

} // verus!
