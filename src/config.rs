use vstd::prelude::*;
use crate::json::{Json, JsonValue};

verus! {

/// The server's settings, each with the default that an absent key takes.
#[derive(Debug, PartialEq)]
pub struct AppConfig {
    /// Host IP address.
    pub host: String,
    /// Server port.
    pub port: u16,
    /// Origins allowed by CORS.
    pub cors_allowed_origins: Vec<String>,
    /// Client server proxied to in development.
    pub client_proxy_url: Option<String>,
    /// Directory served by the content endpoint.
    pub content_directory: String,
    /// Root of the client's static files.
    pub static_file_root: String,
    /// Index file inside the static file root.
    pub static_file_index: String,
    /// Longest HTTP caching age, in seconds.
    pub http_caching_max_age: u64,
    /// Options handed to the client as they are.
    pub client_options: JsonValue,
}

pub fn default_host() -> (r: String)
    ensures
        r@ == "127.0.0.1"@,
{
    "127.0.0.1".to_owned()
}

pub fn default_port() -> (r: u16)
    ensures
        r == 4316,
{
    4316
}

pub fn default_cors_allowed_origins() -> (r: Vec<String>)
    ensures
        r@.len() == 0,
{
    Vec::new()
}

pub fn default_client_proxy_url() -> (r: Option<String>)
    ensures
        r is None,
{
    None
}

pub fn default_content_directory() -> (r: String)
    ensures
        r@ == "./content"@,
{
    "./content".to_owned()
}

pub fn default_static_file_root() -> (r: String)
    ensures
        r@ == "./client/dist/"@,
{
    "./client/dist/".to_owned()
}

pub fn default_static_file_index() -> (r: String)
    ensures
        r@ == "index.html"@,
{
    "index.html".to_owned()
}

/// One hour.
pub fn default_http_caching_max_age() -> (r: u64)
    ensures
        r == 3600,
{
    60 * 60
}

/// An empty object.
pub fn default_client_options() -> (r: JsonValue)
    ensures
        r@ == Json::Object(Seq::empty()),
{
    let r = JsonValue::Object(Vec::new());
    proof {
        crate::json::lemma_object_view(&r);
        assert(crate::json::entries_view(r->Object_0@) =~= Seq::empty());
    }
    r
}

impl Default for AppConfig {
    /// The settings when the configuration names none.
    fn default() -> (r: Self)
        ensures
            r.host@ == "127.0.0.1"@,
            r.port == 4316,
            r.cors_allowed_origins@.len() == 0,
            r.client_proxy_url is None,
            r.content_directory@ == "./content"@,
            r.static_file_root@ == "./client/dist/"@,
            r.static_file_index@ == "index.html"@,
            r.http_caching_max_age == 3600,
            r.client_options@ == Json::Object(Seq::empty()),
    {
        AppConfig {
            host: default_host(),
            port: default_port(),
            cors_allowed_origins: default_cors_allowed_origins(),
            client_proxy_url: default_client_proxy_url(),
            content_directory: default_content_directory(),
            static_file_root: default_static_file_root(),
            static_file_index: default_static_file_index(),
            http_caching_max_age: default_http_caching_max_age(),
            client_options: default_client_options(),
        }
    }
}

} // verus!
