use vstd::prelude::*;
use vstd::string::StringExecFns;

use crate::config::{ApiSource, AppConfig};
use crate::error::FanqieError;
use crate::strutil::{spec_idigits, spec_udigits, str_eq, i64_to_string, u64_to_string};

verus! {

// ---------------------------------------------------------------------------
// Response envelopes
//
// Every upstream response is a JSON envelope with a numeric `code` and an
// optional payload; several endpoints double-wrap the payload under a
// second `code`/`data` pair. The structs mirror those shapes with plain
// values so the selection logic over them can be verified; the decoding
// itself happens outside the library.
// ---------------------------------------------------------------------------

#[derive(Debug, Clone)]
pub struct ApiResponse<T> {
    pub code: i32,
    pub message: Option<String>,
    pub data: Option<T>,
}

#[derive(Debug, Clone)]
pub struct SearchResponse {
    pub code: i32,
    pub data: Option<SearchData>,
}

#[derive(Debug, Clone)]
pub struct SearchData {
    pub search_tabs: Option<Vec<SearchTab>>,
}

#[derive(Debug, Clone)]
pub struct SearchTab {
    pub tab_type: i32,
    pub data: Option<Vec<SearchItem>>,
}

#[derive(Debug, Clone)]
pub struct SearchItem {
    pub book_data: Option<Vec<BookInfo>>,
}

#[derive(Debug, Clone, PartialEq, Eq)]
pub struct BookInfo {
    pub book_id: String,
    pub book_name: String,
    pub author: String,
    pub abstract_field: Option<String>,
    pub abstract_opt: Option<String>,
    pub cover: Option<String>,
    pub creation_status: Option<String>,
    pub word_count: Option<i64>,
    pub chapter_count: Option<i32>,
}

/// The abstract text of a book: the primary field when present, else the
/// alternate field, else empty.
pub open spec fn spec_abstract(b: BookInfo) -> Seq<char> {
    match b.abstract_field {
        Some(s) => s@,
        None => match b.abstract_opt {
            Some(s) => s@,
            None => Seq::empty(),
        },
    }
}

/// The display name of a book's serialization status: finished, ongoing,
/// or unknown.
pub open spec fn spec_status(b: BookInfo) -> Seq<char> {
    match b.creation_status {
        Some(s) => if s@ == "0"@ {
            "已完结"@
        } else if s@ == "1"@ {
            "连载中"@
        } else {
            Seq::empty()
        },
        None => Seq::empty(),
    }
}

impl BookInfo {
    /// The abstract, preferring the primary field over the alternate one.
    pub fn get_abstract(&self) -> (r: &str)
        ensures
            r@ == spec_abstract(*self),
    {
        proof {
            reveal_strlit("");
            assert(""@ =~= Seq::<char>::empty());
        }
        match &self.abstract_field {
            Some(s) => s.as_str(),
            None => match &self.abstract_opt {
                Some(s) => s.as_str(),
                None => "",
            },
        }
    }

    /// The serialization status as display text.
    pub fn get_status(&self) -> (r: &str)
        ensures
            r@ == spec_status(*self),
    {
        proof {
            reveal_strlit("");
            assert(""@ =~= Seq::<char>::empty());
        }
        match &self.creation_status {
            Some(s) => {
                if str_eq(s.as_str(), "0") {
                    "已完结"
                } else if str_eq(s.as_str(), "1") {
                    "连载中"
                } else {
                    ""
                }
            },
            None => "",
        }
    }
}

#[derive(Debug, Clone)]
pub struct BookDetailResponse {
    pub code: i32,
    pub data: Option<BookDetailData>,
}

#[derive(Debug, Clone)]
pub struct BookDetailData {
    pub code: Option<i32>,
    pub data: Option<BookInfo>,
}

#[derive(Debug, Clone)]
pub struct ChapterListResponse {
    pub code: i32,
    pub data: Option<ChapterListDataWrapper>,
}

#[derive(Debug, Clone)]
pub struct ChapterListDataWrapper {
    pub code: Option<i32>,
    pub data: Option<ChapterListData>,
}

#[derive(Debug, Clone)]
pub struct ChapterListData {
    pub all_item_ids: Option<Vec<String>>,
    pub chapter_list_with_volume: Option<Vec<Vec<ChapterInfoRaw>>>,
    pub data: Option<Vec<ChapterInfo>>,
}

#[derive(Debug, Clone)]
pub struct ChapterInfoRaw {
    pub item_id: String,
    pub title: String,
    pub volume_name: Option<String>,
}

/// The chapter entry a volume-grouped listing item stands for: same id
/// and title, with the per-chapter extras unknown.
pub open spec fn spec_to_chapter_info(c: ChapterInfoRaw) -> ChapterInfo {
    ChapterInfo { chapter_id: c.item_id, title: c.title, word_count: None, is_vip: None }
}

impl ChapterInfoRaw {
    /// The chapter entry for a volume-grouped listing item: same id and
    /// title, with the per-chapter extras unknown.
    pub fn to_chapter_info(&self) -> (r: ChapterInfo)
        ensures
            r == spec_to_chapter_info(*self),
    {
        ChapterInfo {
            chapter_id: self.item_id.clone(),
            title: self.title.clone(),
            word_count: None,
            is_vip: None,
        }
    }
}

#[derive(Debug, PartialEq, Eq)]
pub struct ChapterInfo {
    pub chapter_id: String,
    pub title: String,
    pub word_count: Option<i32>,
    pub is_vip: Option<bool>,
}

impl Clone for ChapterInfo {
    fn clone(&self) -> (r: Self)
        ensures
            r == *self,
    {
        ChapterInfo {
            chapter_id: self.chapter_id.clone(),
            title: self.title.clone(),
            word_count: self.word_count,
            is_vip: self.is_vip,
        }
    }
}

#[derive(Debug, Clone)]
pub struct DirectoryResponse {
    pub code: i32,
    pub data: Option<DirectoryData>,
}

#[derive(Debug, Clone)]
pub struct DirectoryData {
    pub lists: Option<Vec<ChapterInfo>>,
}

#[derive(Debug, Clone)]
pub struct ChapterContentResponse {
    pub code: i32,
    pub data: Option<ChapterContent>,
}

#[derive(Debug, PartialEq, Eq)]
pub struct ChapterContent {
    pub chapter_id: String,
    pub title: String,
    pub content: String,
}

impl Clone for ChapterContent {
    fn clone(&self) -> (r: Self)
        ensures
            r == *self,
    {
        ChapterContent {
            chapter_id: self.chapter_id.clone(),
            title: self.title.clone(),
            content: self.content.clone(),
        }
    }
}

#[derive(Debug, Clone)]
pub struct RawFullResponse {
    pub code: i32,
    pub data: Option<RawFullData>,
}

#[derive(Debug, Clone)]
pub struct RawFullData {
    pub chapters: Option<Vec<ChapterContent>>,
}

// ---------------------------------------------------------------------------
// Shared request headers and user agent
// ---------------------------------------------------------------------------

/// Relies on `rand::random`: a sample of the standard distribution for
/// `T`; nothing is known of which value comes back.
pub assume_specification<T>[ rand::random::<T> ]() -> (r: T)
    where
        rand::distr::StandardUniform: rand::distr::Distribution<T>,
;

/// Holds exactly when `s` is one of the browser user-agent strings the
/// client rotates through.
pub open spec fn is_known_user_agent(s: Seq<char>) -> bool {
    ||| s == "Mozilla/5.0 (Windows NT 10.0; Win64; x64) AppleWebKit/537.36 (KHTML, like Gecko) Chrome/120.0.0.0 Safari/537.36"@
    ||| s == "Mozilla/5.0 (Windows NT 10.0; Win64; x64) AppleWebKit/537.36 (KHTML, like Gecko) Chrome/119.0.0.0 Safari/537.36"@
    ||| s == "Mozilla/5.0 (Macintosh; Intel Mac OS X 10_15_7) AppleWebKit/537.36 (KHTML, like Gecko) Chrome/120.0.0.0 Safari/537.36"@
    ||| s == "Mozilla/5.0 (Windows NT 10.0; Win64; x64; rv:121.0) Gecko/20100101 Firefox/121.0"@
    ||| s == "Mozilla/5.0 (Macintosh; Intel Mac OS X 10_15_7) AppleWebKit/605.1.15 (KHTML, like Gecko) Version/17.2 Safari/605.1.15"@
}

/// Picks one of the known browser user agents at random.
pub fn random_user_agent() -> (r: &'static str)
    ensures
        is_known_user_agent(r@),
{
    let n: u32 = rand::random::<u32>();
    let i = n % 5;
    if i == 0 {
        "Mozilla/5.0 (Windows NT 10.0; Win64; x64) AppleWebKit/537.36 (KHTML, like Gecko) Chrome/120.0.0.0 Safari/537.36"
    } else if i == 1 {
        "Mozilla/5.0 (Windows NT 10.0; Win64; x64) AppleWebKit/537.36 (KHTML, like Gecko) Chrome/119.0.0.0 Safari/537.36"
    } else if i == 2 {
        "Mozilla/5.0 (Macintosh; Intel Mac OS X 10_15_7) AppleWebKit/537.36 (KHTML, like Gecko) Chrome/120.0.0.0 Safari/537.36"
    } else if i == 3 {
        "Mozilla/5.0 (Windows NT 10.0; Win64; x64; rv:121.0) Gecko/20100101 Firefox/121.0"
    } else {
        "Mozilla/5.0 (Macintosh; Intel Mac OS X 10_15_7) AppleWebKit/605.1.15 (KHTML, like Gecko) Version/17.2 Safari/605.1.15"
    }
}

/// The fixed header set sent with every request: accepted content types,
/// language, referer, requested-with marker, and content type.
pub fn get_headers() -> (r: Vec<(&'static str, &'static str)>)
    ensures
        r@.len() == 5,
        r@[0].0@ == "Accept"@ && r@[0].1@ == "application/json, text/javascript, */*; q=0.01"@,
        r@[1].0@ == "Accept-Language"@ && r@[1].1@ == "zh-CN,zh;q=0.9,en-US;q=0.8,en;q=0.7"@,
        r@[2].0@ == "Referer"@ && r@[2].1@ == "https://fanqienovel.com/"@,
        r@[3].0@ == "X-Requested-With"@ && r@[3].1@ == "XMLHttpRequest"@,
        r@[4].0@ == "Content-Type"@ && r@[4].1@ == "application/json"@,
{
    let mut headers: Vec<(&'static str, &'static str)> = Vec::new();
    headers.push(("Accept", "application/json, text/javascript, */*; q=0.01"));
    headers.push(("Accept-Language", "zh-CN,zh;q=0.9,en-US;q=0.8,en;q=0.7"));
    headers.push(("Referer", "https://fanqienovel.com/"));
    headers.push(("X-Requested-With", "XMLHttpRequest"));
    headers.push(("Content-Type", "application/json"));
    headers
}

/// The base URL the client should display as current: the preferred
/// node's, or empty when no node is configured.
pub fn initial_current_node(config: &AppConfig) -> (r: String)
    ensures
        config.current_node_index < config.api_sources@.len() ==> r@ == config.api_sources@[
            config.current_node_index as int
        ].base_url@,
        config.current_node_index >= config.api_sources@.len() ==> r@ == Seq::<char>::empty(),
{
    proof {
        reveal_strlit("");
        assert(""@ =~= Seq::<char>::empty());
    }
    match config.get_current_node() {
        Some(node) => node.base_url.clone(),
        None => "".to_owned(),
    }
}

// ---------------------------------------------------------------------------
// Request gate
// ---------------------------------------------------------------------------

/// A counting gate capping how many requests are in flight at once. This
/// is the ledger the caller keeps while holding real permits: acquiring
/// succeeds only below capacity, so the count inside the gated section
/// never exceeds the cap.
pub struct RequestGate {
    capacity: usize,
    in_use: usize,
}

impl RequestGate {
    /// The cap on simultaneously held permits.
    pub closed spec fn spec_capacity(&self) -> nat {
        self.capacity as nat
    }

    /// How many callers currently hold a permit.
    pub closed spec fn spec_in_use(&self) -> nat {
        self.in_use as nat
    }

    /// Gate invariant: the held permits never exceed the capacity.
    pub open spec fn wf(&self) -> bool {
        self.spec_in_use() <= self.spec_capacity()
    }

    pub fn new(capacity: usize) -> (r: Self)
        ensures
            r.wf(),
            r.spec_capacity() == capacity,
            r.spec_in_use() == 0,
    {
        RequestGate { capacity, in_use: 0 }
    }

    /// How many more permits can be handed out.
    pub fn available(&self) -> (r: usize)
        requires
            self.wf(),
        ensures
            r == self.spec_capacity() - self.spec_in_use(),
    {
        self.capacity - self.in_use
    }

    /// Hands out a permit when one is free; never oversubscribes.
    pub fn try_acquire(&mut self) -> (r: bool)
        requires
            old(self).wf(),
        ensures
            final(self).wf(),
            final(self).spec_capacity() == old(self).spec_capacity(),
            r <==> old(self).spec_in_use() < old(self).spec_capacity(),
            r ==> final(self).spec_in_use() == old(self).spec_in_use() + 1,
            !r ==> final(self).spec_in_use() == old(self).spec_in_use(),
    {
        if self.in_use < self.capacity {
            self.in_use = self.in_use + 1;
            true
        } else {
            false
        }
    }

    /// Returns a permit; every exit path of a gated section must do this.
    pub fn release(&mut self)
        requires
            old(self).wf(),
            old(self).spec_in_use() > 0,
        ensures
            final(self).wf(),
            final(self).spec_capacity() == old(self).spec_capacity(),
            final(self).spec_in_use() == old(self).spec_in_use() - 1,
    {
        self.in_use = self.in_use - 1;
    }
}

// ---------------------------------------------------------------------------
// Failover across nodes
//
// One logical request walks the configured endpoint list from the top,
// records one error per failed node, and returns at the first node whose
// body decodes. The walk itself (HTTP, JSON) happens outside the library;
// what each node reported comes back as a `FetchEvent`, and everything the
// request decides about those events is verified here.
// ---------------------------------------------------------------------------

/// The classified outcome of one HTTP attempt against one node, as the
/// transport and the decoder reported it.
pub enum FetchEvent<T> {
    /// The attempt timed out at the transport level.
    Timeout,
    /// The connection could not be established.
    ConnectFailed { detail: String },
    /// Any other transport-level failure.
    TransportFailed { detail: String },
    /// The node answered with a server-side error status; its body is not
    /// read.
    ServerError { status: u16 },
    /// The node answered and the body decoded to the expected shape. The
    /// upstream embeds its own error code in the body, so this also covers
    /// non-success statuses whose body still decodes.
    Decoded { status: u16, value: T },
    /// The node answered but the body did not decode.
    DecodeFailed { status: u16, detail: String },
}

/// A success status at the HTTP level.
pub open spec fn is_2xx(status: u16) -> bool {
    200 <= status < 300
}

pub fn is_success_status(status: u16) -> (r: bool)
    ensures
        r == is_2xx(status),
{
    200 <= status && status < 300
}

/// The body of a node's answer is read except on a server-side error.
pub fn should_read_body(status: u16) -> (r: bool)
    ensures
        r == (status < 500),
{
    status < 500
}

/// How a failed attempt is recorded, given the node's base URL and the
/// request path: a timeout keeps no context; a connection failure becomes
/// a network error and any other transport failure a request error, both
/// tagged with the node; a server-side error marks the node unavailable; a
/// body that did not decode becomes a parse error tagged with the full URL
/// when the status was a success, and a request error carrying the status
/// otherwise.
pub open spec fn matches_event_error<T>(
    e: FanqieError,
    ev: FetchEvent<T>,
    base_url: Seq<char>,
    endpoint: Seq<char>,
) -> bool {
    match ev {
        FetchEvent::Timeout => e == FanqieError::Timeout,
        FetchEvent::ConnectFailed { detail } => e matches FanqieError::Network(s) && s@ == base_url
            + ": "@ + detail@,
        FetchEvent::TransportFailed { detail } => e matches FanqieError::ApiRequest(s) && s@
            == base_url + ": "@ + detail@,
        FetchEvent::ServerError { status } => e matches FanqieError::ApiNodeUnavailable(s) && s@
            == base_url,
        FetchEvent::Decoded { .. } => false,
        FetchEvent::DecodeFailed { status, detail } => if is_2xx(status) {
            e matches FanqieError::JsonParse(s) && s@ == base_url + endpoint + ": "@ + detail@
        } else {
            e matches FanqieError::ApiRequest(s) && s@ == "HTTP "@ + spec_udigits(status as nat)
                + ": "@ + detail@
        },
    }
}

/// The position of the first event whose body decoded, or the sequence
/// length when none did.
pub open spec fn first_return_index<T>(events: Seq<FetchEvent<T>>) -> int
    decreases events.len(),
{
    if events.len() == 0 {
        0
    } else if events[0] is Decoded {
        0
    } else {
        1 + first_return_index(events.drop_first())
    }
}

proof fn lemma_first_return_index_at<T>(events: Seq<FetchEvent<T>>, i: int)
    requires
        0 <= i < events.len(),
        forall|j: int| 0 <= j < i ==> !(#[trigger] events[j] is Decoded),
        events[i] is Decoded,
    ensures
        first_return_index(events) == i,
    decreases i,
{
    if i > 0 {
        let rest = events.drop_first();
        assert forall|j: int| 0 <= j < i - 1 implies !(#[trigger] rest[j] is Decoded) by {
            assert(rest[j] == events[j + 1]);
        }
        lemma_first_return_index_at(rest, i - 1);
    }
}

proof fn lemma_first_return_index_none<T>(events: Seq<FetchEvent<T>>)
    requires
        forall|j: int| 0 <= j < events.len() ==> !(#[trigger] events[j] is Decoded),
    ensures
        first_return_index(events) == events.len(),
    decreases events.len(),
{
    if events.len() > 0 {
        let rest = events.drop_first();
        assert forall|j: int| 0 <= j < rest.len() implies !(#[trigger] rest[j] is Decoded) by {
            assert(rest[j] == events[j + 1]);
        }
        lemma_first_return_index_none(rest);
    }
}

/// Builds the recorded error for one failed attempt.
fn event_error<T>(ev: FetchEvent<T>, base_url: &str, endpoint: &str) -> (r: FanqieError)
    requires
        !(ev is Decoded),
    ensures
        matches_event_error(r, ev, base_url@, endpoint@),
{
    match ev {
        FetchEvent::Timeout => FanqieError::Timeout,
        FetchEvent::ConnectFailed { detail } => {
            let mut m = base_url.to_owned();
            m.append(": ");
            m.append(detail.as_str());
            FanqieError::Network(m)
        },
        FetchEvent::TransportFailed { detail } => {
            let mut m = base_url.to_owned();
            m.append(": ");
            m.append(detail.as_str());
            FanqieError::ApiRequest(m)
        },
        FetchEvent::ServerError { status: _ } => FanqieError::ApiNodeUnavailable(
            base_url.to_owned(),
        ),
        // excluded by the precondition; kept for exhaustiveness
        FetchEvent::Decoded { .. } => FanqieError::AllNodesUnavailable,
        FetchEvent::DecodeFailed { status, detail } => {
            if is_success_status(status) {
                let mut m = base_url.to_owned();
                m.append(endpoint);
                m.append(": ");
                m.append(detail.as_str());
                FanqieError::JsonParse(m)
            } else {
                let mut m = "HTTP ".to_owned();
                m.append(u64_to_string(status as u64).as_str());
                m.append(": ");
                m.append(detail.as_str());
                FanqieError::ApiRequest(m)
            }
        },
    }
}

/// What scanning the events yielded: the first decodable answer with its
/// node index and status, or exhaustion with the last recorded error.
enum ScanOutcome<T> {
    Found { index: usize, status: u16, value: T },
    Exhausted { last_error: Option<FanqieError> },
}

/// Walks the per-node events in configured order, recording one error per
/// failed node, and stops at the first node whose body decoded.
#[verifier::loop_isolation(false)]
fn scan_events<T>(sources: &Vec<ApiSource>, endpoint: &str, events: Vec<FetchEvent<T>>) -> (r:
    ScanOutcome<T>)
    requires
        events@.len() <= sources@.len(),
    ensures
        ({
            let k = first_return_index(events@);
            if k < events@.len() {
                r matches ScanOutcome::Found { index, status, value } && index == k && status
                    == events@[k]->Decoded_status && value == events@[k]->Decoded_value
            } else if events@.len() == 0 {
                r matches ScanOutcome::Exhausted { last_error } && last_error is None
            } else {
                r matches ScanOutcome::Exhausted { last_error } && (last_error matches Some(e)
                    && matches_event_error(
                    e,
                    events@.last(),
                    sources@[events@.len() - 1].base_url@,
                    endpoint@,
                ))
            }
        }),
{
    let ghost all = events@;
    let mut rest = events;
    let mut last_error: Option<FanqieError> = None;
    let mut i: usize = 0;
    let n = rest.len();
    while i < n
        invariant
            rest@ =~= all.subrange(i as int, all.len() as int),
            all.len() <= sources@.len(),
            i <= n,
            n == all.len(),
            forall|j: int| 0 <= j < i ==> !(#[trigger] all[j] is Decoded),
            i == 0 ==> last_error is None,
            i > 0 ==> (last_error matches Some(e) && matches_event_error(
                e,
                all[i - 1],
                sources@[i - 1].base_url@,
                endpoint@,
            )),
        decreases n - i,
    {
        let ev = rest.remove(0);
        proof {
            assert(ev == all[i as int]);
            assert(rest@ =~= all.subrange(i as int + 1, all.len() as int));
        }
        match ev {
            FetchEvent::Decoded { status, value } => {
                proof {
                    lemma_first_return_index_at(all, i as int);
                }
                return ScanOutcome::Found { index: i, status, value };
            },
            other => {
                last_error = Some(event_error(other, sources[i].base_url.as_str(), endpoint));
            },
        }
        i = i + 1;
    }
    proof {
        lemma_first_return_index_none(all);
    }
    ScanOutcome::Exhausted { last_error }
}

/// Resolves one logical request from the events the transport reported,
/// one per attempted node, walked in configured order from the top; a
/// caller that stops probing at the first decodable answer hands over just
/// the events up to and including it.
///
/// The result is the value decoded at the first answering node, or — when
/// every node failed — the error recorded at the last node, with
/// `AllNodesUnavailable` standing in when no node was configured. The
/// registry's preferred index is promoted to the answering node exactly
/// when that node answered with a success status; the endpoint list itself
/// never changes.
pub fn resolve_request<T>(
    config: &mut AppConfig,
    endpoint: &str,
    events: Vec<FetchEvent<T>>,
) -> (r: Result<T, FanqieError>)
    requires
        old(config).wf(),
        events@.len() <= old(config).api_sources@.len(),
    ensures
        final(config).wf(),
        final(config).api_sources == old(config).api_sources,
        final(config).endpoints == old(config).endpoints,
        final(config).params == old(config).params,
        final(config).config_path == old(config).config_path,
        ({
            let k = first_return_index(events@);
            if k < events@.len() {
                &&& r matches Ok(v) && v == events@[k]->Decoded_value
                &&& is_2xx(events@[k]->Decoded_status) ==> final(config).current_node_index == k
                &&& !is_2xx(events@[k]->Decoded_status) ==> final(config).current_node_index == old(
                    config,
                ).current_node_index
            } else {
                &&& final(config).current_node_index == old(config).current_node_index
                &&& if events@.len() == 0 {
                    r matches Err(e) && e == FanqieError::AllNodesUnavailable
                } else {
                    r matches Err(e) && matches_event_error(
                        e,
                        events@.last(),
                        old(config).api_sources@[events@.len() - 1].base_url@,
                        endpoint@,
                    )
                }
            }
        }),
{
    let outcome = scan_events(&config.api_sources, endpoint, events);
    match outcome {
        ScanOutcome::Found { index, status, value } => {
            if is_success_status(status) && index != config.current_node_index {
                let _ = config.set_node(index);
            }
            Ok(value)
        },
        ScanOutcome::Exhausted { last_error } => {
            match last_error {
                Some(e) => Err(e),
                None => Err(FanqieError::AllNodesUnavailable),
            }
        },
    }
}

/// For any endpoint list where nodes `0..k` fail with server errors and
/// node `k` answers with a body that decodes, one failover pass resolves
/// at node `k`: by `resolve_request`'s contract the caller gets exactly
/// the value decoded there, and — when that answer carried a success
/// status — the registry's preferred index becomes `k`.
pub proof fn lemma_failover_returns_first_success<T>(events: Seq<FetchEvent<T>>, k: int)
    requires
        0 <= k < events.len(),
        forall|j: int| 0 <= j < k ==> #[trigger] events[j] is ServerError,
        events[k] is Decoded,
    ensures
        first_return_index(events) == k,
{
    assert forall|j: int| 0 <= j < k implies !(#[trigger] events[j] is Decoded) by {
        assert(events[j] is ServerError);
    }
    lemma_first_return_index_at(events, k);
}

/// When every node times out, the failover exhausts the list and the
/// surfaced error is the timeout itself — never a silently empty success.
pub proof fn lemma_all_timeouts_surface_timeout<T>(
    events: Seq<FetchEvent<T>>,
    e: FanqieError,
    base_url: Seq<char>,
    endpoint: Seq<char>,
)
    requires
        events.len() > 0,
        forall|j: int| 0 <= j < events.len() ==> #[trigger] events[j] is Timeout,
        matches_event_error(e, events.last(), base_url, endpoint),
    ensures
        first_return_index(events) == events.len(),
        e == FanqieError::Timeout,
{
    assert forall|j: int| 0 <= j < events.len() implies !(#[trigger] events[j] is Decoded) by {
        assert(events[j] is Timeout);
    }
    lemma_first_return_index_none(events);
}

/// When every node answers with a server-side error, the request fails
/// with the last node's unavailability error and — by `resolve_request`'s
/// contract — the preferred index is left exactly where it was.
pub proof fn lemma_all_server_errors_no_promotion<T>(
    events: Seq<FetchEvent<T>>,
    e: FanqieError,
    base_url: Seq<char>,
    endpoint: Seq<char>,
)
    requires
        events.len() > 0,
        forall|j: int| 0 <= j < events.len() ==> #[trigger] events[j] is ServerError,
        matches_event_error(e, events.last(), base_url, endpoint),
    ensures
        first_return_index(events) == events.len(),
        e matches FanqieError::ApiNodeUnavailable(s) && s@ == base_url,
{
    assert forall|j: int| 0 <= j < events.len() implies !(#[trigger] events[j] is Decoded) by {
        assert(events[j] is ServerError);
    }
    lemma_first_return_index_none(events);
}

// ---------------------------------------------------------------------------
// Per-endpoint request shapes
// ---------------------------------------------------------------------------

/// The URL for one attempt: the node's base URL followed by the request
/// path.
pub fn build_url(base_url: &str, endpoint: &str) -> (r: String)
    ensures
        r@ == base_url@ + endpoint@,
{
    let mut r = base_url.to_owned();
    r.append(endpoint);
    r
}

/// The query parameters of a search request: the keyword, the fixed tab
/// for books, and the page offset.
pub fn search_params(keyword: &str, offset: i32) -> (r: Vec<(String, String)>)
    ensures
        r@.len() == 3,
        r@[0].0@ == "key"@ && r@[0].1@ == keyword@,
        r@[1].0@ == "tab_type"@ && r@[1].1@ == "3"@,
        r@[2].0@ == "offset"@ && r@[2].1@ == spec_idigits(offset as int),
{
    let mut r: Vec<(String, String)> = Vec::new();
    r.push(("key".to_owned(), keyword.to_owned()));
    r.push(("tab_type".to_owned(), "3".to_owned()));
    r.push(("offset".to_owned(), i64_to_string(offset as i64)));
    r
}

/// The query parameters of a book-detail request.
pub fn book_detail_params(book_id: &str) -> (r: Vec<(String, String)>)
    ensures
        r@.len() == 1,
        r@[0].0@ == "book_id"@ && r@[0].1@ == book_id@,
{
    let mut r: Vec<(String, String)> = Vec::new();
    r.push(("book_id".to_owned(), book_id.to_owned()));
    r
}

/// The query parameters of a chapter-list request.
pub fn chapter_list_params(book_id: &str) -> (r: Vec<(String, String)>)
    ensures
        r@.len() == 1,
        r@[0].0@ == "book_id"@ && r@[0].1@ == book_id@,
{
    let mut r: Vec<(String, String)> = Vec::new();
    r.push(("book_id".to_owned(), book_id.to_owned()));
    r
}

/// The query parameters of a directory request.
pub fn directory_params(book_id: &str) -> (r: Vec<(String, String)>)
    ensures
        r@.len() == 1,
        r@[0].0@ == "fq_id"@ && r@[0].1@ == book_id@,
{
    let mut r: Vec<(String, String)> = Vec::new();
    r.push(("fq_id".to_owned(), book_id.to_owned()));
    r
}

/// The query parameters of a chapter-content request: the fixed novel tab
/// and the chapter's item id.
pub fn chapter_content_params(chapter_id: &str) -> (r: Vec<(String, String)>)
    ensures
        r@.len() == 2,
        r@[0].0@ == "tab"@ && r@[0].1@ == "小说"@,
        r@[1].0@ == "item_id"@ && r@[1].1@ == chapter_id@,
{
    let mut r: Vec<(String, String)> = Vec::new();
    r.push(("tab".to_owned(), "小说".to_owned()));
    r.push(("item_id".to_owned(), chapter_id.to_owned()));
    r
}

/// The query parameters of a whole-book request.
pub fn raw_full_params(book_id: &str) -> (r: Vec<(String, String)>)
    ensures
        r@.len() == 1,
        r@[0].0@ == "book_id"@ && r@[0].1@ == book_id@,
{
    let mut r: Vec<(String, String)> = Vec::new();
    r.push(("book_id".to_owned(), book_id.to_owned()));
    r
}

/// One gate operation: a caller asking to enter, or one leaving.
pub enum GateOp {
    Acquire,
    Release,
}

/// The number of callers inside the gated section after a sequence of
/// operations against a gate of the given capacity, starting empty: an
/// acquire enters only below capacity, a release leaves only when someone
/// is inside.
pub open spec fn gate_count_after(ops: Seq<GateOp>, capacity: nat) -> nat
    decreases ops.len(),
{
    if ops.len() == 0 {
        0
    } else {
        let prev = gate_count_after(ops.drop_last(), capacity);
        match ops.last() {
            GateOp::Acquire => if prev < capacity {
                prev + 1
            } else {
                prev
            },
            GateOp::Release => if prev > 0 {
                (prev - 1) as nat
            } else {
                prev
            },
        }
    }
}

/// Whatever sequence of acquisitions and releases the contending callers
/// perform, the number of them inside the gated section never exceeds the
/// capacity.
pub proof fn lemma_gate_never_exceeds_capacity(ops: Seq<GateOp>, capacity: nat)
    ensures
        gate_count_after(ops, capacity) <= capacity,
    decreases ops.len(),
{
    if ops.len() > 0 {
        lemma_gate_never_exceeds_capacity(ops.drop_last(), capacity);
    }
}

} // verus!

