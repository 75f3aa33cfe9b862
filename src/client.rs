use vstd::prelude::*;

use crate::model::Decimal;

verus! {

/// Where the service answers unless told otherwise.
pub const DEFAULT_BASE_URL: &'static str = "https://geocode.maps.co";

/// The environment variable that holds the API key.
pub const API_KEY_VAR: &'static str = "MAPSCO_API_KEY";

#[verifier::external_type_specification]
#[verifier::external_body]
pub struct ExClient(reqwest::Client);

/// The text of the URL made of `base` and the query `pairs`, or `None` where
/// `base` is no URL.
pub uninterp spec fn url_text(base: Seq<char>, pairs: Seq<(Seq<char>, Seq<char>)>) -> Option<Seq<char>>;

/// The characters of each name and value.
pub open spec fn pairs_view(pairs: Seq<(String, String)>) -> Seq<(Seq<char>, Seq<char>)> {
    pairs.map_values(|p: (String, String)| (p.0@, p.1@))
}

/// Relies on reqwest::Url::parse_with_params: it parses `base` and appends the
/// pairs, form-urlencoded and in order, as the query; its serialisation
/// depends on the arguments alone.
#[verifier::external_body]
fn url_with_params(base: &str, pairs: &Vec<(String, String)>) -> (r: Option<String>)
    ensures
        r is Some <==> url_text(base@, pairs_view(pairs@)) is Some,
        r matches Some(u) ==> url_text(base@, pairs_view(pairs@)) == Some(u@),
{
    reqwest::Url::parse_with_params(base, pairs.iter()).ok().map(String::from)
}

/// Relies on reqwest::Client's derived Clone, which copies a shared handle on
/// one pool of connections.
pub assume_specification[ <reqwest::Client as core::clone::Clone>::clone ](c: &reqwest::Client) -> reqwest::Client;

/// Relies on reqwest::Client::new for a pool of connections; nothing is known
/// of what it holds. It panics only where the machine offers no TLS backend or
/// resolver configuration, which no argument can rule out.
#[verifier::external_body]
fn new_http_client() -> reqwest::Client {
    reqwest::Client::new()
}

/// Why a client could not be made.
#[derive(Clone, Debug, PartialEq, Eq)]
pub enum ConfigError {
    /// No API key was given.
    MissingKey,
}

/// A handle on the service: an API key, a base URL, and a reusable HTTP
/// client. Clones share the HTTP client's connections.
#[derive(Clone)]
pub struct MapscoClient {
    client: reqwest::Client,
    base_url: String,
    api_key: String,
}

impl MapscoClient {
    /// The API key sent with every request.
    pub closed spec fn key_view(&self) -> Seq<char> {
        self.api_key@
    }

    /// The URL that the endpoints are appended to.
    pub closed spec fn base_view(&self) -> Seq<char> {
        self.base_url@
    }

    /// The URL of a reverse lookup of the point with these numerals.
    pub open spec fn reverse_request(&self, lat: Seq<char>, lon: Seq<char>) -> Option<Seq<char>> {
        url_text(
            self.base_view() + "/reverse"@,
            seq![("lat"@, lat), ("lon"@, lon), ("api_key"@, self.key_view())],
        )
    }

    /// The URL of a search for `query`.
    pub open spec fn search_request(&self, query: Seq<char>) -> Option<Seq<char>> {
        url_text(self.base_view() + "/search"@, seq![("q"@, query), ("api_key"@, self.key_view())])
    }

    /// A client for the default base URL with this key.
    pub fn new(api_key: String) -> (r: Self)
        ensures
            r.key_view() == api_key@,
            r.base_view() == DEFAULT_BASE_URL@,
    {
        MapscoClient {
            client: new_http_client(),
            base_url: String::from_str(DEFAULT_BASE_URL),
            api_key,
        }
    }

    /// A client with the key read from the environment, where there was one.
    pub fn from_env_value(value: Option<String>) -> (r: Result<Self, ConfigError>)
        ensures
            r is Err <==> value is None,
            r matches Err(e) ==> e == ConfigError::MissingKey,
            r matches Ok(c) ==> value matches Some(k) && c.key_view() == k@ && c.base_view()
                == DEFAULT_BASE_URL@,
    {
        match value {
            Some(k) => Ok(MapscoClient::new(k)),
            None => Err(ConfigError::MissingKey),
        }
    }

    /// The HTTP client that requests go through.
    pub fn http(&self) -> &reqwest::Client {
        &self.client
    }

    /// The URL to ask for the place at a point.
    pub fn reverse_url(&self, lat: &Decimal, lon: &Decimal) -> (r: Option<String>)
        ensures
            r is Some <==> self.reverse_request(lat.numeral@, lon.numeral@) is Some,
            r matches Some(u) ==> self.reverse_request(lat.numeral@, lon.numeral@) == Some(u@),
    {
        let mut target = self.base_url.clone();
        target.append("/reverse");
        let mut pairs: Vec<(String, String)> = Vec::new();
        pairs.push((String::from_str("lat"), lat.numeral.clone()));
        pairs.push((String::from_str("lon"), lon.numeral.clone()));
        pairs.push((String::from_str("api_key"), self.api_key.clone()));
        assert(pairs_view(pairs@) =~= seq![
            ("lat"@, lat.numeral@),
            ("lon"@, lon.numeral@),
            ("api_key"@, self.api_key@),
        ]);
        url_with_params(target.as_str(), &pairs)
    }

    /// The URL to search for places matching `query`.
    pub fn search_url(&self, query: &str) -> (r: Option<String>)
        ensures
            r is Some <==> self.search_request(query@) is Some,
            r matches Some(u) ==> self.search_request(query@) == Some(u@),
    {
        let mut target = self.base_url.clone();
        target.append("/search");
        let mut pairs: Vec<(String, String)> = Vec::new();
        pairs.push((String::from_str("q"), String::from_str(query)));
        pairs.push((String::from_str("api_key"), self.api_key.clone()));
        assert(pairs_view(pairs@) =~= seq![("q"@, query@), ("api_key"@, self.api_key@)]);
        url_with_params(target.as_str(), &pairs)
    }
}

/// Two clients made with the same key ask, for the same point or the same
/// query, for the same URL.
pub proof fn same_key_same_requests(
    c1: MapscoClient,
    c2: MapscoClient,
    lat: Seq<char>,
    lon: Seq<char>,
    query: Seq<char>,
)
    requires
        c1.key_view() == c2.key_view(),
        c1.base_view() == DEFAULT_BASE_URL@,
        c2.base_view() == DEFAULT_BASE_URL@,
    ensures
        c1.reverse_request(lat, lon) == c2.reverse_request(lat, lon),
        c1.search_request(query) == c2.search_request(query),
{
}

} // verus!
