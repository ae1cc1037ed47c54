use vstd::prelude::*;

use crate::error::FanqieError;

verus! {

/// One mirror of the upstream API, identified by its base URL. Immutable
/// once the configuration is loaded.
#[derive(Debug, PartialEq, Eq)]
pub struct ApiSource {
    pub base_url: String,
    pub supports_full_download: bool,
}

impl Clone for ApiSource {
    fn clone(&self) -> (r: Self)
        ensures
            r == *self,
    {
        ApiSource { base_url: self.base_url.clone(), supports_full_download: self.supports_full_download }
    }
}

pub fn default_supports_full_download() -> (r: bool)
    ensures
        r,
{
    true
}

/// The base-URL-relative paths of the upstream endpoints.
#[derive(Debug, Clone)]
pub struct Endpoints {
    pub search: String,
    pub detail: String,
    pub book: String,
    pub directory: String,
    pub content: String,
    pub chapter: String,
    pub raw_full: String,
}

pub fn default_search() -> (r: String)
    ensures
        r@ == "/api/search"@,
{
    "/api/search".to_owned()
}

pub fn default_detail() -> (r: String)
    ensures
        r@ == "/api/detail"@,
{
    "/api/detail".to_owned()
}

pub fn default_book() -> (r: String)
    ensures
        r@ == "/api/book"@,
{
    "/api/book".to_owned()
}

pub fn default_directory() -> (r: String)
    ensures
        r@ == "/api/directory"@,
{
    "/api/directory".to_owned()
}

pub fn default_content() -> (r: String)
    ensures
        r@ == "/api/content"@,
{
    "/api/content".to_owned()
}

pub fn default_chapter() -> (r: String)
    ensures
        r@ == "/api/chapter"@,
{
    "/api/chapter".to_owned()
}

pub fn default_raw_full() -> (r: String)
    ensures
        r@ == "/api/raw_full"@,
{
    "/api/raw_full".to_owned()
}

impl core::default::Default for Endpoints {
    fn default() -> (r: Self)
        ensures
            r.search@ == "/api/search"@,
            r.detail@ == "/api/detail"@,
            r.book@ == "/api/book"@,
            r.directory@ == "/api/directory"@,
            r.content@ == "/api/content"@,
            r.chapter@ == "/api/chapter"@,
            r.raw_full@ == "/api/raw_full"@,
    {
        Endpoints {
            search: default_search(),
            detail: default_detail(),
            book: default_book(),
            directory: default_directory(),
            content: default_content(),
            chapter: default_chapter(),
            raw_full: default_raw_full(),
        }
    }
}

/// Tunables of the download core. Rates are carried as integers: the token
/// refill rate in millitokens per second and the rate-limit window in
/// milliseconds, so that the token bucket can be reasoned about exactly.
#[derive(Debug, Clone)]
pub struct ConfigParams {
    pub max_workers: usize,
    pub max_retries: u32,
    pub request_timeout: u64,
    pub request_rate_limit_milli: u64,
    pub connection_pool_size: usize,
    pub api_rate_limit: u32,
    pub rate_limit_window_ms: u64,
    pub async_batch_size: usize,
    pub download_enabled: bool,
}

pub fn default_max_workers() -> (r: usize)
    ensures
        r == 30,
{
    30
}

pub fn default_max_retries() -> (r: u32)
    ensures
        r == 3,
{
    3
}

pub fn default_request_timeout() -> (r: u64)
    ensures
        r == 30,
{
    30
}

/// The steady request rate, in millitokens per second (one token every
/// fifty seconds).
pub fn default_request_rate_limit_milli() -> (r: u64)
    ensures
        r == 20,
{
    20
}

pub fn default_connection_pool_size() -> (r: usize)
    ensures
        r == 200,
{
    200
}

pub fn default_api_rate_limit() -> (r: u32)
    ensures
        r == 50,
{
    50
}

/// The rate-limit window, in milliseconds.
pub fn default_rate_limit_window_ms() -> (r: u64)
    ensures
        r == 1000,
{
    1000
}

pub fn default_async_batch_size() -> (r: usize)
    ensures
        r == 50,
{
    50
}

pub fn default_download_enabled() -> (r: bool)
    ensures
        r,
{
    true
}

impl core::default::Default for ConfigParams {
    fn default() -> (r: Self)
        ensures
            r.max_workers == 30,
            r.max_retries == 3,
            r.request_timeout == 30,
            r.request_rate_limit_milli == 20,
            r.connection_pool_size == 200,
            r.api_rate_limit == 50,
            r.rate_limit_window_ms == 1000,
            r.async_batch_size == 50,
            r.download_enabled,
    {
        ConfigParams {
            max_workers: default_max_workers(),
            max_retries: default_max_retries(),
            request_timeout: default_request_timeout(),
            request_rate_limit_milli: default_request_rate_limit_milli(),
            connection_pool_size: default_connection_pool_size(),
            api_rate_limit: default_api_rate_limit(),
            rate_limit_window_ms: default_rate_limit_window_ms(),
            async_batch_size: default_async_batch_size(),
            download_enabled: default_download_enabled(),
        }
    }
}

/// The shape of the configuration file after parsing: version metadata,
/// the ordered endpoint mirrors, the endpoint paths, and the tunables.
#[derive(Debug, Clone)]
pub struct FanqieJson {
    pub version: String,
    pub updated_at: String,
    pub api_sources: Vec<ApiSource>,
    pub endpoints: Endpoints,
    pub config: ConfigParams,
}

/// A parsed configuration is usable only when it names at least one API
/// mirror; anything else is fatal at load time.
pub fn validate_config_json(json: FanqieJson) -> (r: Result<FanqieJson, FanqieError>)
    ensures
        json.api_sources@.len() > 0 <==> r is Ok,
        r matches Ok(j) ==> j == json,
        r matches Err(e) ==> (e matches FanqieError::ConfigLoad(s) && s@ == "missing api_sources"@),
{
    if json.api_sources.len() == 0 {
        Err(FanqieError::ConfigLoad("missing api_sources".to_owned()))
    } else {
        Ok(json)
    }
}

/// The relative locations probed for the configuration file, in precedence
/// order; a per-user configuration directory is probed after these.
pub fn config_file_candidates() -> (r: Vec<String>)
    ensures
        r@.len() == 2,
        r@[0]@ == "config/fanqie.json"@,
        r@[1]@ == "fanqie.json"@,
{
    let mut v: Vec<String> = Vec::new();
    v.push("config/fanqie.json".to_owned());
    v.push("fanqie.json".to_owned());
    v
}

/// The subsequence of `s` whose nodes advertise whole-book download
/// support, in their configured order.
pub open spec fn full_nodes_of(s: Seq<ApiSource>) -> Seq<ApiSource>
    decreases s.len(),
{
    if s.len() == 0 {
        Seq::empty()
    } else if s.last().supports_full_download {
        full_nodes_of(s.drop_last()).push(s.last())
    } else {
        full_nodes_of(s.drop_last())
    }
}

/// The node registry plus tunables: the ordered endpoint list and the
/// index of the currently preferred node. The list never changes after
/// load; the index moves only when a request succeeds on another node.
#[derive(Debug, Clone)]
pub struct AppConfig {
    pub api_sources: Vec<ApiSource>,
    pub endpoints: Endpoints,
    pub params: ConfigParams,
    pub current_node_index: usize,
    pub config_path: String,
}

impl AppConfig {
    /// Registry invariant: whenever any node is configured, the preferred
    /// index points inside the list.
    pub open spec fn wf(&self) -> bool {
        self.api_sources@.len() > 0 ==> self.current_node_index < self.api_sources@.len()
    }

    pub fn new(json: FanqieJson, config_path: String) -> (r: Self)
        ensures
            r.api_sources == json.api_sources,
            r.endpoints == json.endpoints,
            r.params == json.config,
            r.current_node_index == 0,
            r.config_path == config_path,
            r.wf(),
    {
        AppConfig {
            api_sources: json.api_sources,
            endpoints: json.endpoints,
            params: json.config,
            current_node_index: 0,
            config_path,
        }
    }

    /// The preferred node, when the index is in range.
    pub fn get_current_node(&self) -> (r: Option<&ApiSource>)
        ensures
            r is Some <==> self.current_node_index < self.api_sources@.len(),
            r matches Some(s) ==> *s == self.api_sources@[self.current_node_index as int],
    {
        if self.current_node_index < self.api_sources.len() {
            Some(&self.api_sources[self.current_node_index])
        } else {
            None
        }
    }

    /// The nodes that advertise whole-book download support, in their
    /// configured order.
    pub fn get_full_download_nodes(&self) -> (r: Vec<ApiSource>)
        ensures
            r@ == full_nodes_of(self.api_sources@),
    {
        let mut r: Vec<ApiSource> = Vec::new();
        let mut i: usize = 0;
        proof {
            assert(self.api_sources@.subrange(0, 0) =~= Seq::<ApiSource>::empty());
        }
        while i < self.api_sources.len()
            invariant
                i <= self.api_sources@.len(),
                r@ == full_nodes_of(self.api_sources@.subrange(0, i as int)),
            decreases self.api_sources@.len() - i,
        {
            let ghost prefix = self.api_sources@.subrange(0, i as int);
            let s = &self.api_sources[i];
            if s.supports_full_download {
                r.push(s.clone());
            }
            proof {
                let longer = self.api_sources@.subrange(0, i as int + 1);
                assert(longer.drop_last() =~= prefix);
                assert(longer.last() == self.api_sources@[i as int]);
            }
            i = i + 1;
        }
        proof {
            assert(self.api_sources@.subrange(0, self.api_sources@.len() as int) =~= self
                .api_sources@);
        }
        r
    }

    /// Steps the preferred index to the next configured node, reporting
    /// whether there was one; everything else is untouched.
    pub fn switch_to_next_node(&mut self) -> (r: bool)
        ensures
            r <==> old(self).current_node_index + 1 < old(self).api_sources@.len(),
            r ==> final(self).current_node_index == old(self).current_node_index + 1,
            !r ==> final(self).current_node_index == old(self).current_node_index,
            final(self).api_sources == old(self).api_sources,
            final(self).endpoints == old(self).endpoints,
            final(self).params == old(self).params,
            final(self).config_path == old(self).config_path,
            old(self).wf() ==> final(self).wf(),
    {
        let len = self.api_sources.len();
        if len > 0 && self.current_node_index < len - 1 {
            self.current_node_index = self.current_node_index + 1;
            true
        } else {
            false
        }
    }

    /// Resets the preferred index to the head of the list.
    pub fn reset_node_index(&mut self)
        ensures
            final(self).current_node_index == 0,
            final(self).api_sources == old(self).api_sources,
            final(self).endpoints == old(self).endpoints,
            final(self).params == old(self).params,
            final(self).config_path == old(self).config_path,
            final(self).wf(),
    {
        self.current_node_index = 0;
    }

    /// Promotes the node at `index` to preferred, refusing an index that
    /// lies outside the configured list.
    pub fn set_node(&mut self, index: usize) -> (r: bool)
        ensures
            r <==> index < old(self).api_sources@.len(),
            r ==> final(self).current_node_index == index,
            !r ==> final(self).current_node_index == old(self).current_node_index,
            final(self).api_sources == old(self).api_sources,
            final(self).endpoints == old(self).endpoints,
            final(self).params == old(self).params,
            final(self).config_path == old(self).config_path,
            old(self).wf() ==> final(self).wf(),
    {
        if index < self.api_sources.len() {
            self.current_node_index = index;
            true
        } else {
            false
        }
    }
}

} // verus!
