//! The settings that a market client is built from.

use crate::error::{AgentError, AgentErrorView, AgentResult};
use crate::text::join;
use crate::types::text_view;
use vstd::prelude::*;

verus! {

/// What `url::Url::parse` reads from a text: the URL in its normal form, or the message of its
/// error.
pub uninterp spec fn parsed_url(text: Seq<char>) -> Result<Seq<char>, Seq<char>>;

/// What `alloy_signer_local::PrivateKeySigner` reads from a text: the 20 bytes of the signer's
/// address, or the message of its error.
pub uninterp spec fn parsed_signer(key: Seq<char>) -> Result<Seq<u8>, Seq<char>>;

/// What a parsed URL says: its text, or the message of the error.
pub open spec fn url_view(parsed: Result<String, String>) -> Result<Seq<char>, Seq<char>> {
    match parsed {
        Ok(url) => Ok(url@),
        Err(message) => Err(message@),
    }
}

/// What a parsed signer says: its address, or the message of the error.
pub open spec fn signer_view(parsed: Result<[u8; 20], String>) -> Result<Seq<u8>, Seq<char>> {
    match parsed {
        Ok(address) => Ok(address@),
        Err(message) => Err(message@),
    }
}

/// `url::Url::parse`: the URL in its normal form, or the message of the error.
#[verifier::external_body]
fn parse_url(text: &str) -> (r: Result<String, String>)
    ensures
        url_view(r) == parsed_url(text@),
{
    match url::Url::parse(text) {
        Ok(url) => Ok(url.to_string()),
        Err(error) => Err(error.to_string()),
    }
}

/// `alloy_signer_local::PrivateKeySigner::from_str`: the address of the signer with the key, or
/// the message of the error.
#[verifier::external_body]
fn parse_signer(key: &str) -> (r: Result<[u8; 20], String>)
    ensures
        signer_view(r) == parsed_signer(key@),
{
    match key.parse::<alloy_signer_local::PrivateKeySigner>() {
        Ok(signer) => Ok(signer.address().into_array()),
        Err(error) => Err(error.to_string()),
    }
}

/// What a market client is built from.
pub struct ClientSettings {
    pub rpc_url: String,
    pub signer_key: String,
    pub signer_address: [u8; 20],
}

/// What the settings of a market client say.
#[verifier::ext_equal]
pub struct ClientSettingsView {
    pub rpc_url: Seq<char>,
    pub signer_key: Seq<char>,
    pub signer_address: Seq<u8>,
}

impl View for ClientSettings {
    type V = ClientSettingsView;

    open spec fn view(&self) -> ClientSettingsView {
        ClientSettingsView {
            rpc_url: self.rpc_url@,
            signer_key: self.signer_key@,
            signer_address: self.signer_address@,
        }
    }
}

/// What settings or an error say.
pub open spec fn settings_view(r: AgentResult<ClientSettings>) -> Result<
    ClientSettingsView,
    AgentErrorView,
> {
    match r {
        Ok(settings) => Ok(settings@),
        Err(error) => Err(error@),
    }
}

/// The settings of a market client, or the first of the errors of its URL and its key.
pub open spec fn settings_result(
    url: Result<Seq<char>, Seq<char>>,
    signer_key: Option<Seq<char>>,
    signer: Result<Seq<u8>, Seq<char>>,
) -> Result<ClientSettingsView, AgentErrorView> {
    match (url, signer_key, signer) {
        (Err(message), _, _) => Err(
            AgentErrorView::ClientBuildError("Invalid rpc_url: "@ + message),
        ),
        (_, None, _) => Err(AgentErrorView::ClientBuildError("BOUNDLESS_SIGNER_KEY is not set"@)),
        (_, _, Err(message)) => Err(
            AgentErrorView::ClientBuildError("Invalid signer key: "@ + message),
        ),
        (Ok(rpc_url), Some(signer_key), Ok(signer_address)) => Ok(
            ClientSettingsView { rpc_url, signer_key, signer_address },
        ),
    }
}

/// The URL of the market, given what parsing it came to.
pub fn rpc_url_of(parsed: Result<String, String>) -> (r: AgentResult<String>)
    ensures
        match (r, parsed) {
            (Ok(url), Ok(given)) => url == given,
            (Err(error), Err(message)) => error@ == AgentErrorView::ClientBuildError(
                "Invalid rpc_url: "@ + message@,
            ),
            _ => false,
        },
{
    match parsed {
        Ok(url) => Ok(url),
        Err(message) => Err(
            AgentError::ClientBuildError(join("Invalid rpc_url: ", message.as_str())),
        ),
    }
}

/// The address of the signer, given what parsing its key came to.
pub fn signer_address_of(parsed: Result<[u8; 20], String>) -> (r: AgentResult<[u8; 20]>)
    ensures
        match (r, parsed) {
            (Ok(address), Ok(given)) => address == given,
            (Err(error), Err(message)) => error@ == AgentErrorView::ClientBuildError(
                "Invalid signer key: "@ + message@,
            ),
            _ => false,
        },
{
    match parsed {
        Ok(address) => Ok(address),
        Err(message) => Err(
            AgentError::ClientBuildError(join("Invalid signer key: ", message.as_str())),
        ),
    }
}

/// The settings that a market client is built from: the URL of the market, and the key that the
/// environment holds.
pub fn client_settings(rpc_url: &str, signer_key: Option<String>) -> (r: AgentResult<
    ClientSettings,
>)
    ensures
        settings_view(r) == settings_result(
            parsed_url(rpc_url@),
            text_view(signer_key),
            parsed_signer(text_view(signer_key)->0),
        ),
{
    let rpc_url = match rpc_url_of(parse_url(rpc_url)) {
        Ok(rpc_url) => rpc_url,
        Err(error) => return Err(error),
    };
    let signer_key = match signer_key {
        Some(signer_key) => signer_key,
        None => {
            return Err(
                AgentError::ClientBuildError("BOUNDLESS_SIGNER_KEY is not set".to_owned()),
            );
        },
    };
    let signer_address = match signer_address_of(parse_signer(signer_key.as_str())) {
        Ok(signer_address) => signer_address,
        Err(error) => return Err(error),
    };
    Ok(ClientSettings { rpc_url, signer_key, signer_address })
}

} // verus!
