//! Product-facing request, route, mode, and receipt types.

use vstd::prelude::*;
use crate::errors::FetchError;
use crate::json::JsonValue;
use crate::text::owned;

verus! {

/// High-level route behavior exposed to API clients.
#[derive(Clone, Copy, Debug, PartialEq, Eq, Structural)]
pub enum ProductMode {
    /// Let the service choose the default SmartMode path.
    Auto,
    /// Use the fast SmartMode + ISP proxy source-fetch path.
    Fast,
    /// Use browser rendering for JavaScript-heavy pages.
    Browser,
    /// Use browser rendering with stealth and proxy defaults.
    Unblock,
    /// Use a plain HTTP request without readability cleanup.
    Raw,
    /// Crawl a website with depth and limit controls.
    Crawl,
    /// Return discovered links without fetching every page.
    LinkMap,
    /// Search the web and optionally fetch result pages.
    Search,
    /// Fetch content prepared for downstream structured extraction.
    Extract,
    /// Return a page screenshot payload.
    Screenshot,
}

impl Default for ProductMode {
    fn default() -> (r: Self)
        ensures
            r == ProductMode::Auto,
    {
        ProductMode::Auto
    }
}

/// Stable receipt label of each mode.
pub open spec fn receipt_label_of(mode: ProductMode) -> Seq<char> {
    match mode {
        ProductMode::Auto => "fetch:auto"@,
        ProductMode::Fast => "fetch:fast"@,
        ProductMode::Browser => "fetch:browser"@,
        ProductMode::Unblock => "fetch:unblock"@,
        ProductMode::Raw => "fetch:raw"@,
        ProductMode::Crawl => "crawl"@,
        ProductMode::LinkMap => "map"@,
        ProductMode::Search => "search"@,
        ProductMode::Extract => "extract"@,
        ProductMode::Screenshot => "screenshot"@,
    }
}

impl ProductMode {
    /// Stable receipt label for the selected mode.
    pub fn receipt_label(self) -> (s: &'static str)
        ensures
            s@ == receipt_label_of(self),
    {
        match self {
            ProductMode::Auto => "fetch:auto",
            ProductMode::Fast => "fetch:fast",
            ProductMode::Browser => "fetch:browser",
            ProductMode::Unblock => "fetch:unblock",
            ProductMode::Raw => "fetch:raw",
            ProductMode::Crawl => "crawl",
            ProductMode::LinkMap => "map",
            ProductMode::Search => "search",
            ProductMode::Extract => "extract",
            ProductMode::Screenshot => "screenshot",
        }
    }
}

/// Output formats clients can request from Spider.
#[derive(Clone, Copy, Debug, PartialEq, Eq, Hash, Structural)]
pub enum ProductFormat {
    /// Return raw source content.
    Raw,
    /// Return markdown content.
    Markdown,
    /// Return CommonMark content.
    Commonmark,
    /// Return html2text content.
    Html2text,
    /// Return plain text content.
    Text,
    /// Return a screenshot payload.
    Screenshot,
    /// Return XML content.
    Xml,
    /// Return bytes content.
    Bytes,
}

/// Single or multiple output format selection.
#[derive(Clone, Debug)]
pub enum FormatSelection {
    /// One requested format.
    One(ProductFormat),
    /// Multiple requested formats.
    Many(Vec<ProductFormat>),
}

/// Proxy policy requested by the caller.
#[derive(Clone, Copy, Debug, PartialEq, Eq, Structural)]
pub enum ProductProxy {
    /// Let the route choose a proxy default.
    Auto,
    /// Do not request a proxy.
    NoProxy,
    /// Use ISP proxy routing.
    Isp,
    /// Use residential proxy routing.
    Residential,
    /// Use mobile proxy routing.
    Mobile,
}

/// Product API request accepted by route handlers. Custom headers and
/// named selectors are kept as lists of pairs in the order the caller's map
/// gave them; the per-page credit cap is kept as its JSON number text.
#[derive(Clone, Debug)]
pub struct ProductRequest {
    /// Exact URL to fetch, crawl, map, extract, or screenshot.
    pub source: Option<String>,
    /// Search query for the search route.
    pub query: Option<String>,
    /// High-level execution mode.
    pub mode: ProductMode,
    /// Output format as one value or an array.
    pub format: Option<FormatSelection>,
    /// Output formats as an explicit array.
    pub formats: Option<Vec<ProductFormat>>,
    /// Proxy routing preference.
    pub proxy: Option<ProductProxy>,
    /// Maximum page or result count.
    pub limit: Option<u32>,
    /// Crawl depth.
    pub depth: Option<u32>,
    /// Outer service timeout in seconds.
    pub timeout_secs: Option<u64>,
    /// Per-request upstream timeout in seconds.
    pub request_timeout_secs: Option<u8>,
    /// Upstream crawl timeout in seconds.
    pub crawl_timeout_secs: Option<u64>,
    /// Enable readability cleanup.
    pub readability: Option<bool>,
    /// Allow upstream caching.
    pub cache: Option<bool>,
    /// Return metadata in upstream payloads.
    pub metadata: Option<bool>,
    /// Return response headers.
    pub return_headers: Option<bool>,
    /// Return discovered page links.
    pub return_page_links: Option<bool>,
    /// Return response cookies.
    pub return_cookies: Option<bool>,
    /// Country code for request routing.
    pub country_code: Option<String>,
    /// Locale for browser or request hints.
    pub locale: Option<String>,
    /// Custom user agent.
    pub user_agent: Option<String>,
    /// Custom request headers, as name and value pairs.
    pub headers: Option<Vec<(String, String)>>,
    /// Request cookies.
    pub cookies: Option<String>,
    /// Root CSS selector for content filtering.
    pub root_selector: Option<String>,
    /// Named CSS selectors for extraction.
    pub selectors: Option<Vec<(String, Vec<String>)>>,
    /// URL allow-list patterns.
    pub whitelist: Option<Vec<String>>,
    /// URL block-list patterns.
    pub blacklist: Option<Vec<String>>,
    /// Restrict crawling to top-level domain.
    pub tld: Option<bool>,
    /// Include subdomains while crawling.
    pub subdomains: Option<bool>,
    /// External domains allowed during crawl.
    pub external_domains: Option<Vec<String>>,
    /// Use sitemap discovery.
    pub sitemap: Option<bool>,
    /// Respect robots.txt.
    pub respect_robots: Option<bool>,
    /// Enable stealth browser behavior.
    pub stealth: Option<bool>,
    /// Enable browser fingerprint handling.
    pub fingerprint: Option<bool>,
    /// Number of scroll steps.
    pub scroll: Option<u32>,
    /// Hard wait in milliseconds.
    pub wait_ms: Option<u64>,
    /// Selector to wait for.
    pub wait_selector: Option<String>,
    /// Disable request interception.
    pub disable_intercept: Option<bool>,
    /// Disable upstream optimization hints.
    pub disable_hints: Option<bool>,
    /// Use lower-cost lite mode.
    pub lite_mode: Option<bool>,
    /// Maximum upstream credits per page, as the text of a JSON number.
    pub max_credits_per_page: Option<String>,
    /// Whether to create an in-memory receipt.
    pub receipt: Option<bool>,
    /// Number of search results to request.
    pub search_limit: Option<u32>,
    /// Fetch content for search results.
    pub fetch_page_content: Option<bool>,
    /// Prefer faster search results.
    pub quick_search: Option<bool>,
    /// Search engine selector.
    pub engine: Option<String>,
}

/// The fields that an exact-source request leaves unset.
pub open spec fn optional_fields_unset(r: ProductRequest) -> bool {
    &&& r.query is None
    &&& r.format is None
    &&& r.formats is None
    &&& r.limit is None
    &&& r.depth is None
    &&& r.cache is None
    &&& r.metadata is None
    &&& r.return_headers is None
    &&& r.return_page_links is None
    &&& r.return_cookies is None
    &&& r.country_code is None
    &&& r.locale is None
    &&& r.user_agent is None
    &&& r.headers is None
    &&& r.cookies is None
    &&& r.root_selector is None
    &&& r.selectors is None
    &&& r.whitelist is None
    &&& r.blacklist is None
    &&& r.tld is None
    &&& r.subdomains is None
    &&& r.external_domains is None
    &&& r.sitemap is None
    &&& r.respect_robots is None
    &&& r.stealth is None
    &&& r.fingerprint is None
    &&& r.scroll is None
    &&& r.wait_ms is None
    &&& r.wait_selector is None
    &&& r.disable_intercept is None
    &&& r.disable_hints is None
    &&& r.lite_mode is None
    &&& r.max_credits_per_page is None
    &&& r.search_limit is None
    &&& r.fetch_page_content is None
    &&& r.quick_search is None
    &&& r.engine is None
}

/// The shape shared by exact-source requests: the source, the default
/// timeouts, readability on, and every other option unset.
pub open spec fn exact_source_request(r: ProductRequest, source: Seq<char>) -> bool {
    &&& r.source matches Some(s) && s@ == source
    &&& r.timeout_secs == Some(25u64)
    &&& r.request_timeout_secs == Some(20u8)
    &&& r.crawl_timeout_secs == Some(25u64)
    &&& r.readability == Some(true)
    &&& optional_fields_unset(r)
}

impl ProductRequest {
    /// Legacy exact-source request used by older handlers.
    pub fn legacy(source: &str) -> (r: Self)
        ensures
            exact_source_request(r, source@),
            r.mode == ProductMode::Auto,
            r.proxy == Some(ProductProxy::NoProxy),
            r.receipt == Some(false),
    {
        ProductRequest {
            source: Some(owned(source)),
            query: None,
            mode: ProductMode::Auto,
            format: None,
            formats: None,
            proxy: Some(ProductProxy::NoProxy),
            limit: None,
            depth: None,
            timeout_secs: Some(25),
            request_timeout_secs: Some(20),
            crawl_timeout_secs: Some(25),
            readability: Some(true),
            cache: None,
            metadata: None,
            return_headers: None,
            return_page_links: None,
            return_cookies: None,
            country_code: None,
            locale: None,
            user_agent: None,
            headers: None,
            cookies: None,
            root_selector: None,
            selectors: None,
            whitelist: None,
            blacklist: None,
            tld: None,
            subdomains: None,
            external_domains: None,
            sitemap: None,
            respect_robots: None,
            stealth: None,
            fingerprint: None,
            scroll: None,
            wait_ms: None,
            wait_selector: None,
            disable_intercept: None,
            disable_hints: None,
            lite_mode: None,
            max_credits_per_page: None,
            receipt: Some(false),
            search_limit: None,
            fetch_page_content: None,
            quick_search: None,
            engine: None,
        }
    }

    /// Fast source request used by MCP and receipt-backed fetches.
    pub fn fast(source: &str) -> (r: Self)
        ensures
            exact_source_request(r, source@),
            r.mode == ProductMode::Fast,
            r.proxy == Some(ProductProxy::Isp),
            r.receipt == Some(true),
    {
        let mut r = Self::legacy(source);
        r.mode = ProductMode::Fast;
        r.proxy = Some(ProductProxy::Isp);
        r.receipt = Some(true);
        r
    }

    /// Return the request URL or a clear API error.
    pub fn require_source(&self) -> (r: Result<&str, FetchError>)
        ensures
            match self.source {
                Some(s) => r matches Ok(t) && t@ == s@,
                None => r matches Err(FetchError::BadRequest(m)) && m@ == "route requires `source`"@,
            },
    {
        match &self.source {
            Some(s) => Ok(s.as_str()),
            None => Err(FetchError::BadRequest(owned("route requires `source`"))),
        }
    }
}

/// Internal route selected by each HTTP handler.
#[derive(Clone, Copy, Debug, PartialEq, Eq, Structural)]
pub enum ProductRoute {
    /// One-page scrape or fetch.
    Scrape,
    /// Website crawl.
    Crawl,
    /// Link discovery.
    LinkMap,
    /// Web search.
    Search,
    /// Fetch for structured extraction.
    Extract,
    /// Screenshot capture.
    Screenshot,
    /// Stealth unblock fetch.
    Unblock,
}

/// Public route name of each route.
pub open spec fn route_name(route: ProductRoute) -> Seq<char> {
    match route {
        ProductRoute::Scrape => "fetch"@,
        ProductRoute::Crawl => "crawl"@,
        ProductRoute::LinkMap => "map"@,
        ProductRoute::Search => "search"@,
        ProductRoute::Extract => "extract"@,
        ProductRoute::Screenshot => "screenshot"@,
        ProductRoute::Unblock => "unblock"@,
    }
}

impl ProductRoute {
    /// Public route name included in responses.
    pub fn as_str(self) -> (s: &'static str)
        ensures
            s@ == route_name(self),
    {
        match self {
            ProductRoute::Scrape => "fetch",
            ProductRoute::Crawl => "crawl",
            ProductRoute::LinkMap => "map",
            ProductRoute::Search => "search",
            ProductRoute::Extract => "extract",
            ProductRoute::Screenshot => "screenshot",
            ProductRoute::Unblock => "unblock",
        }
    }
}

/// In-memory provenance metadata for receipt-backed requests.
#[derive(Clone, Debug)]
pub struct Receipt {
    /// Receipt identifier.
    pub id: String,
    /// Requested URL or query.
    pub source_url: String,
    /// Product mode label.
    pub mode: String,
    /// Upstream request type label.
    pub request_type: String,
    /// Proxy label when one was used.
    pub proxy: Option<String>,
    /// Upstream status value.
    pub status: Option<i64>,
    /// Upstream error text.
    pub error: Option<String>,
    /// Upstream elapsed time in milliseconds.
    pub duration_elapsed_ms: Option<u64>,
    /// Extracted content byte length.
    pub content_bytes: Option<usize>,
    /// Upstream formatted total cost.
    pub total_cost: Option<String>,
    /// Receipt creation time.
    pub created_at_unix_ms: u128,
    /// Human-readable demo marker.
    pub demo_message: String,
}

/// Legacy receipt-backed fetch response.
pub struct FetchWithReceipt {
    /// Receipt identifier.
    pub receipt_id: String,
    /// Full receipt metadata.
    pub receipt: Receipt,
    /// Upstream payload.
    pub data: JsonValue,
}

/// Product route response envelope.
pub struct ProductResponse {
    /// Executed route name.
    pub route: String,
    /// Resolved product mode.
    pub mode: ProductMode,
    /// Receipt identifier when created.
    pub receipt_id: Option<String>,
    /// Full receipt metadata when created.
    pub receipt: Option<Receipt>,
    /// Upstream payload.
    pub data: JsonValue,
}

/// Body of the compatibility fetch routes.
#[derive(Clone, Debug)]
pub struct FetchRequest {
    /// Exact URL to fetch.
    pub source: String,
}

/// Receipt labels tell modes apart: two modes with one label are one mode.
pub proof fn lemma_receipt_labels_distinct(a: ProductMode, b: ProductMode)
    ensures
        receipt_label_of(a) == receipt_label_of(b) ==> a == b,
{
    reveal_strlit("fetch:auto");
    reveal_strlit("fetch:fast");
    reveal_strlit("fetch:browser");
    reveal_strlit("fetch:unblock");
    reveal_strlit("fetch:raw");
    reveal_strlit("crawl");
    reveal_strlit("map");
    reveal_strlit("search");
    reveal_strlit("extract");
    reveal_strlit("screenshot");
    assert("fetch:auto"@.len() == 10);
    assert("fetch:fast"@.len() == 10);
    assert("fetch:browser"@.len() == 13);
    assert("fetch:unblock"@.len() == 13);
    assert("fetch:raw"@.len() == 9);
    assert("crawl"@.len() == 5);
    assert("map"@.len() == 3);
    assert("search"@.len() == 6);
    assert("extract"@.len() == 7);
    assert("screenshot"@.len() == 10);
    assert("fetch:auto"@[6] != "fetch:fast"@[6]);
    assert("fetch:auto"@[0] != "screenshot"@[0]);
    assert("fetch:fast"@[0] != "screenshot"@[0]);
    assert("fetch:browser"@[6] != "fetch:unblock"@[6]);
}

/// Route names tell routes apart: two routes with one name are one route.
pub proof fn lemma_route_names_distinct(a: ProductRoute, b: ProductRoute)
    ensures
        route_name(a) == route_name(b) ==> a == b,
{
    reveal_strlit("fetch");
    reveal_strlit("crawl");
    reveal_strlit("map");
    reveal_strlit("search");
    reveal_strlit("extract");
    reveal_strlit("screenshot");
    reveal_strlit("unblock");
    assert("fetch"@.len() == 5);
    assert("crawl"@.len() == 5);
    assert("map"@.len() == 3);
    assert("search"@.len() == 6);
    assert("extract"@.len() == 7);
    assert("screenshot"@.len() == 10);
    assert("unblock"@.len() == 7);
    assert("fetch"@[0] != "crawl"@[0]);
    assert("extract"@[0] != "unblock"@[0]);
}

} // verus!
