//! The settings of the Spider requests behind each fetch, and of the
//! server that answers them.

use vstd::prelude::*;
use crate::text::concat2;
use crate::types::ProductFormat;

verus! {

/// The kind of request Spider performs.
#[derive(Clone, Copy, Debug, PartialEq, Eq, Structural)]
pub enum SpiderRequest {
    /// A plain HTTP request.
    Http,
    /// Rendering in Spider's browser.
    Browser,
    /// Rendering in Chrome.
    Chrome,
    /// HTTP, with the browser when needed.
    SmartMode,
}

/// The parameters of a Spider request that the resolver sets.
#[derive(Clone, Copy, Debug, PartialEq, Eq, Structural)]
pub struct SpiderParams {
    pub return_format: Option<ProductFormat>,
    pub request: Option<SpiderRequest>,
    pub stealth: Option<bool>,
    pub fingerprint: Option<bool>,
    pub proxy_enabled: Option<bool>,
}

/// The default request: markdown through SmartMode.
pub fn default_params() -> (r: SpiderParams)
    ensures
        r == (SpiderParams {
            return_format: Some(ProductFormat::Markdown),
            request: Some(SpiderRequest::SmartMode),
            stealth: None,
            fingerprint: None,
            proxy_enabled: None,
        }),
{
    SpiderParams {
        return_format: Some(ProductFormat::Markdown),
        request: Some(SpiderRequest::SmartMode),
        stealth: None,
        fingerprint: None,
        proxy_enabled: None,
    }
}

/// The request of a page fetch: markdown through Chrome, in stealth, over
/// a proxy.
pub fn scrape_params() -> (r: SpiderParams)
    ensures
        r == (SpiderParams {
            return_format: Some(ProductFormat::Markdown),
            request: Some(SpiderRequest::Chrome),
            stealth: Some(true),
            fingerprint: None,
            proxy_enabled: Some(true),
        }),
{
    SpiderParams {
        return_format: Some(ProductFormat::Markdown),
        request: Some(SpiderRequest::Chrome),
        stealth: Some(true),
        fingerprint: None,
        proxy_enabled: Some(true),
    }
}

/// The request of an unblock fetch: as a page fetch, with browser
/// fingerprint handling.
pub fn unblock_params() -> (r: SpiderParams)
    ensures
        r == (SpiderParams {
            return_format: Some(ProductFormat::Markdown),
            request: Some(SpiderRequest::Chrome),
            stealth: Some(true),
            fingerprint: Some(true),
            proxy_enabled: Some(true),
        }),
{
    SpiderParams {
        return_format: Some(ProductFormat::Markdown),
        request: Some(SpiderRequest::Chrome),
        stealth: Some(true),
        fingerprint: Some(true),
        proxy_enabled: Some(true),
    }
}

/// The Spider API key: `SPIDER_API_KEY`, else the older `LIVY_KEY`.
pub fn spider_key(spider_api_key: &Option<String>, livy_key: &Option<String>) -> (r: Option<String>)
    ensures
        r == match *spider_api_key {
            Some(k) => Some(k),
            None => *livy_key,
        },
{
    match spider_api_key {
        Some(k) => Some(k.clone()),
        None => livy_key.clone(),
    }
}

/// The port the server listens on when none is configured.
pub const DEFAULT_PORT: &'static str = "3001";

/// The address the server listens on: every interface, at `PORT`, else
/// `RESOLVER_PORT`, else port 3001.
pub fn listen_address(port: &Option<String>, resolver_port: &Option<String>) -> (r: String)
    ensures
        r@ == "0.0.0.0:"@ + match *port {
            Some(p) => p@,
            None => match *resolver_port {
                Some(p) => p@,
                None => "3001"@,
            },
        },
{
    match port {
        Some(p) => concat2("0.0.0.0:", p.as_str()),
        None => match resolver_port {
            Some(p) => concat2("0.0.0.0:", p.as_str()),
            None => concat2("0.0.0.0:", DEFAULT_PORT),
        },
    }
}

} // verus!
