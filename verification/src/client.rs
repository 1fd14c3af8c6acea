//! One operation per remote capability.
//!
//! Every operation resolves its URL, renders its body, sends one request
//! over the blocking transport with that operation's own timeout, and
//! classifies the outcome: transport failure, non-success status, a body
//! that does not parse or decode, or a typed domain value. The transport
//! answers whatever the network gives; the contracts say that the returned
//! value is exactly the classification of some such outcome for the right
//! URL and body. When asked, an operation echoes the request and response
//! to the diagnostic stream on every path, success or failure.

use vstd::prelude::*;
use vstd::string::StringExecFns;
use std::io::Write;
use crate::res_view;
use crate::json::Json;
use crate::json::JsonModel;
use crate::parse::{json_parse, spec_json_parse};
use crate::render::{json_render, spec_render};
use crate::text::i32_to_text;
use crate::url::{agent_path, agent_item_path, agents_path, push_docs_query, spec_agent_path,
    spec_agent_item_path, spec_agents_path, spec_docs_query};
use crate::error::{ApiError, ApiErrorModel, ErrorKind, transport_error, status_error,
    parse_error, agents_shape_error, agents_failure, spec_transport_error, spec_status_error,
    spec_parse_error, spec_agents_shape_error, spec_agents_failure};
use crate::codec::{encode_search_request, spec_encode_search_request, encode_think_request,
    spec_encode_think_request, encode_batch_memory_request, spec_encode_batch_memory_request,
    encode_update_personality, spec_encode_update_personality, encode_add_background,
    spec_encode_add_background, decode_search_response, spec_decode_search_response,
    decode_think_response, spec_decode_think_response, decode_batch_memory_response,
    spec_decode_batch_memory_response, discriminate_agents, spec_discriminate_agents,
    decode_profile, spec_decode_profile, decode_background_response,
    spec_decode_background_response, decode_stats, spec_decode_stats,
    decode_documents_response, spec_decode_documents_response, decode_document_details,
    spec_decode_document_details, decode_operations_response, spec_decode_operations_response,
    decode_delete_response, spec_decode_delete_response};
use crate::domain::{vals_view, opt_view, SearchRequest, SearchResponse, SearchResponseModel,
    ThinkRequest, ThinkResponse, ThinkResponseModel, BatchMemoryRequest, BatchMemoryResponse,
    BatchMemoryResponseModel, Agent, AgentsResponse, AgentsResponseModel, AgentProfile,
    AgentProfileModel, UpdatePersonalityRequest, UpdatePersonalityRequestModel,
    PersonalityTraits, AddBackgroundRequest, AddBackgroundRequestModel, BackgroundResponse,
    BackgroundResponseModel, AgentStats, AgentStatsModel, DocumentsResponse,
    DocumentsResponseModel, DocumentDetails, DocumentDetailsModel, OperationsResponse,
    OperationsResponseModel, DeleteResponse, DeleteResponseModel};

verus! {

/// Budget for plain reads and deletes.
pub const TIMEOUT_READ_SECS: u64 = 30;

/// Budget for writes and for building the client.
pub const TIMEOUT_WRITE_SECS: u64 = 60;

/// Budget for search, reasoning and ingestion, which do expensive work.
pub const TIMEOUT_HEAVY_SECS: u64 = 120;

/// What one exchange with the service came to.
pub enum HttpOutcome {
    /// The request could not be sent or no response arrived.
    Transport { message: String },
    /// A response arrived, whatever its status.
    Response { status: u16, body: String },
}

pub enum HttpOutcomeModel {
    Transport { message: Seq<char> },
    Response { status: u16, body: Seq<char> },
}

impl View for HttpOutcome {
    type V = HttpOutcomeModel;

    open spec fn view(&self) -> HttpOutcomeModel {
        match self {
            HttpOutcome::Transport { message } => HttpOutcomeModel::Transport {
                message: message@,
            },
            HttpOutcome::Response { status, body } => HttpOutcomeModel::Response {
                status: *status,
                body: body@,
            },
        }
    }
}

#[verifier::external_type_specification]
#[verifier::external_body]
pub struct ExClient(reqwest::blocking::Client);

/// Relies on reqwest's blocking ClientBuilder: builds a client whose every
/// request is bounded by the given overall timeout.
#[verifier::external_body]
fn build_client(timeout_secs: u64) -> (r: Result<reqwest::blocking::Client, String>) {
    match reqwest::blocking::Client::builder()
        .timeout(std::time::Duration::from_secs(timeout_secs))
        .build() {
        Ok(c) => Ok(c),
        Err(e) => Err(e.to_string()),
    }
}

/// Relies on reqwest's blocking RequestBuilder and Response: sends one GET
/// and reads the whole body.
#[verifier::external_body]
fn http_get(client: &reqwest::blocking::Client, url: &String, timeout_secs: u64) -> (r:
    HttpOutcome) {
    let req = client.get(url.as_str()).timeout(std::time::Duration::from_secs(timeout_secs));
    match req.send() {
        Ok(resp) => {
            let status = resp.status().as_u16();
            match resp.text() {
                Ok(body) => HttpOutcome::Response { status, body },
                Err(e) => HttpOutcome::Transport { message: e.to_string() },
            }
        },
        Err(e) => HttpOutcome::Transport { message: e.to_string() },
    }
}

/// Relies on reqwest's blocking RequestBuilder and Response: sends one
/// DELETE and reads the whole body.
#[verifier::external_body]
fn http_delete(client: &reqwest::blocking::Client, url: &String, timeout_secs: u64) -> (r:
    HttpOutcome) {
    let req = client.delete(url.as_str()).timeout(std::time::Duration::from_secs(timeout_secs));
    match req.send() {
        Ok(resp) => {
            let status = resp.status().as_u16();
            match resp.text() {
                Ok(body) => HttpOutcome::Response { status, body },
                Err(e) => HttpOutcome::Transport { message: e.to_string() },
            }
        },
        Err(e) => HttpOutcome::Transport { message: e.to_string() },
    }
}

/// Relies on reqwest's blocking RequestBuilder and Response: sends the body
/// as one POST of JSON and reads the whole response body.
#[verifier::external_body]
fn http_post(client: &reqwest::blocking::Client, url: &String, body: &String, timeout_secs: u64)
    -> (r: HttpOutcome) {
    let req = client.post(url.as_str()).header("content-type", "application/json").body(
        body.clone(),
    ).timeout(std::time::Duration::from_secs(timeout_secs));
    match req.send() {
        Ok(resp) => {
            let status = resp.status().as_u16();
            match resp.text() {
                Ok(text) => HttpOutcome::Response { status, body: text },
                Err(e) => HttpOutcome::Transport { message: e.to_string() },
            }
        },
        Err(e) => HttpOutcome::Transport { message: e.to_string() },
    }
}

/// Relies on reqwest's blocking RequestBuilder and Response: sends the body
/// as one PUT of JSON and reads the whole response body.
#[verifier::external_body]
fn http_put(client: &reqwest::blocking::Client, url: &String, body: &String, timeout_secs: u64)
    -> (r: HttpOutcome) {
    let req = client.put(url.as_str()).header("content-type", "application/json").body(
        body.clone(),
    ).timeout(std::time::Duration::from_secs(timeout_secs));
    match req.send() {
        Ok(resp) => {
            let status = resp.status().as_u16();
            match resp.text() {
                Ok(text) => HttpOutcome::Response { status, body: text },
                Err(e) => HttpOutcome::Transport { message: e.to_string() },
            }
        },
        Err(e) => HttpOutcome::Transport { message: e.to_string() },
    }
}

/// Relies on std::io::stderr: writes one line to the diagnostic stream.
#[verifier::external_body]
fn emit_line(s: &String) {
    let _ = writeln!(std::io::stderr(), "{}", s);
}

fn emit_labeled(label: &str, text: &str) {
    let mut line = String::new();
    line.append(label);
    line.append(text);
    emit_line(&line);
}

fn emit_request(url: &String, body: Option<&String>) {
    emit_labeled("Request URL: ", url.as_str());
    match body {
        Some(b) => {
            emit_labeled("Request body: ", b.as_str());
        },
        None => {},
    }
}

fn emit_outcome(outcome: &HttpOutcome) {
    match outcome {
        HttpOutcome::Transport { message } => {
            emit_labeled("Transport failure: ", message.as_str());
        },
        HttpOutcome::Response { status, body } => {
            emit_labeled("Response status: ", i32_to_text(*status as i32).as_str());
            emit_labeled("Response body: ", body.as_str());
        },
    }
}

// ---------------------------------------------------------------- classification

/// How every outcome is classified, in order: transport failure; then a
/// status outside 200..=299; then a body that is not JSON; else the parsed
/// document with the status and raw body.
pub open spec fn spec_classify(
    url: Seq<char>,
    request_body: Seq<char>,
    o: HttpOutcomeModel,
) -> Result<(JsonModel, u16, Seq<char>), ApiErrorModel> {
    match o {
        HttpOutcomeModel::Transport { message } => Err(
            spec_transport_error(url, request_body, message),
        ),
        HttpOutcomeModel::Response { status, body } => {
            if !(200 <= status < 300) {
                Err(spec_status_error(url, request_body, status, body))
            } else {
                match spec_json_parse(body) {
                    Some(j) => Ok((j, status, body)),
                    None => Err(spec_parse_error(url, request_body, status, body)),
                }
            }
        },
    }
}

pub struct Classified {
    pub doc: Json,
    pub status: u16,
    pub body: String,
    pub url: String,
    pub request_body: String,
}

pub fn classify(url: String, request_body: String, outcome: HttpOutcome) -> (r: Result<
    Classified,
    ApiError,
>)
    ensures
        match r {
            Ok(c) => spec_classify(url@, request_body@, outcome@) == Ok::<_, ApiErrorModel>(
                (c.doc@, c.status, c.body@),
            ) && c.url@ == url@ && c.request_body@ == request_body@,
            Err(e) => spec_classify(url@, request_body@, outcome@) == Err::<
                (JsonModel, u16, Seq<char>),
                _,
            >(e@),
        },
{
    match outcome {
        HttpOutcome::Transport { message } => Err(transport_error(url, request_body, message)),
        HttpOutcome::Response { status, body } => {
            if !(200 <= status && status < 300) {
                Err(status_error(url, request_body, status, body))
            } else {
                match json_parse(body.as_str()) {
                    Some(doc) => Ok(Classified { doc, status, body, url, request_body }),
                    None => Err(parse_error(url, request_body, status, body)),
                }
            }
        },
    }
}

// ---------------------------------------------------------------- per-capability outcomes

pub open spec fn spec_search_outcome(
    url: Seq<char>,
    request_body: Seq<char>,
    o: HttpOutcomeModel,
) -> Result<SearchResponseModel, ApiErrorModel> {
    match spec_classify(url, request_body, o) {
        Err(e) => Err(e),
        Ok((j, status, body)) => match spec_decode_search_response(j) {
            Some(v) => Ok(v),
            None => Err(spec_parse_error(url, request_body, status, body)),
        },
    }
}

pub fn finish_search(url: String, request_body: String, outcome: HttpOutcome) -> (r: Result<
    SearchResponse,
    ApiError,
>)
    ensures
        res_view(r) == spec_search_outcome(url@, request_body@, outcome@),
{
    match classify(url, request_body, outcome) {
        Err(e) => Err(e),
        Ok(c) => match decode_search_response(&c.doc) {
            Some(v) => Ok(v),
            None => Err(parse_error(c.url, c.request_body, c.status, c.body)),
        },
    }
}

pub open spec fn spec_think_outcome(
    url: Seq<char>,
    request_body: Seq<char>,
    o: HttpOutcomeModel,
) -> Result<ThinkResponseModel, ApiErrorModel> {
    match spec_classify(url, request_body, o) {
        Err(e) => Err(e),
        Ok((j, status, body)) => match spec_decode_think_response(j) {
            Some(v) => Ok(v),
            None => Err(spec_parse_error(url, request_body, status, body)),
        },
    }
}

pub fn finish_think(url: String, request_body: String, outcome: HttpOutcome) -> (r: Result<
    ThinkResponse,
    ApiError,
>)
    ensures
        res_view(r) == spec_think_outcome(url@, request_body@, outcome@),
{
    match classify(url, request_body, outcome) {
        Err(e) => Err(e),
        Ok(c) => match decode_think_response(&c.doc) {
            Some(v) => Ok(v),
            None => Err(parse_error(c.url, c.request_body, c.status, c.body)),
        },
    }
}

/// The ingestion path, which has an asynchronous variant.
pub open spec fn spec_put_memories_url(base: Seq<char>, agent_id: Seq<char>, async_mode: bool)
    -> Seq<char> {
    if async_mode {
        spec_agent_path(base, agent_id, "/memories/async"@)
    } else {
        spec_agent_path(base, agent_id, "/memories"@)
    }
}

pub open spec fn spec_put_memories_outcome(
    url: Seq<char>,
    request_body: Seq<char>,
    o: HttpOutcomeModel,
) -> Result<BatchMemoryResponseModel, ApiErrorModel> {
    match spec_classify(url, request_body, o) {
        Err(e) => Err(e),
        Ok((j, status, body)) => match spec_decode_batch_memory_response(j) {
            Some(v) => Ok(v),
            None => Err(spec_parse_error(url, request_body, status, body)),
        },
    }
}

pub fn finish_put_memories(url: String, request_body: String, outcome: HttpOutcome) -> (r: Result<
    BatchMemoryResponse,
    ApiError,
>)
    ensures
        res_view(r) == spec_put_memories_outcome(url@, request_body@, outcome@),
{
    match classify(url, request_body, outcome) {
        Err(e) => Err(e),
        Ok(c) => match decode_batch_memory_response(&c.doc) {
            Some(v) => Ok(v),
            None => Err(parse_error(c.url, c.request_body, c.status, c.body)),
        },
    }
}

/// The agents listing: the discriminator resolves the untagged payload; its
/// success shape lists the agents, its failure shape is surfaced with the
/// service's message, and any other shape is a decode failure that names
/// this endpoint.
pub open spec fn spec_list_agents_outcome(
    url: Seq<char>,
    request_body: Seq<char>,
    o: HttpOutcomeModel,
) -> Result<Seq<Seq<char>>, ApiErrorModel> {
    match spec_classify(url, request_body, o) {
        Err(e) => Err(e),
        Ok((j, status, body)) => match spec_discriminate_agents(j) {
            Some(AgentsResponseModel::Success { agents }) => Ok(agents),
            Some(AgentsResponseModel::Error { error }) => Err(
                spec_agents_failure(url, request_body, status, body, error),
            ),
            None => Err(spec_agents_shape_error(url, request_body, status, body)),
        },
    }
}

pub open spec fn agents_res_view(r: Result<Vec<Agent>, ApiError>) -> Result<
    Seq<Seq<char>>,
    ApiErrorModel,
> {
    match r {
        Ok(v) => Ok(vals_view(v@)),
        Err(e) => Err(e@),
    }
}

pub fn finish_list_agents(url: String, request_body: String, outcome: HttpOutcome) -> (r: Result<
    Vec<Agent>,
    ApiError,
>)
    ensures
        agents_res_view(r) == spec_list_agents_outcome(url@, request_body@, outcome@),
{
    match classify(url, request_body, outcome) {
        Err(e) => Err(e),
        Ok(c) => match discriminate_agents(&c.doc) {
            Some(AgentsResponse::Success { agents }) => {
                let n = agents.len();
                let mut out: Vec<Agent> = Vec::new();
                let mut i: usize = 0;
                while i < n
                    invariant
                        i <= n,
                        n == agents@.len(),
                        out@.len() == i,
                        forall|k: int| 0 <= k < i ==> out@[k].agent_id@ == agents@[k]@,
                    decreases n - i,
                {
                    out.push(Agent { agent_id: agents[i].clone() });
                    i = i + 1;
                }
                proof {
                    assert(vals_view(out@) =~= vals_view(agents@));
                }
                Ok(out)
            },
            Some(AgentsResponse::Error { error }) => Err(
                agents_failure(c.url, c.request_body, c.status, c.body, &error),
            ),
            None => Err(agents_shape_error(c.url, c.request_body, c.status, c.body)),
        },
    }
}

pub open spec fn spec_profile_outcome(
    url: Seq<char>,
    request_body: Seq<char>,
    o: HttpOutcomeModel,
) -> Result<AgentProfileModel, ApiErrorModel> {
    match spec_classify(url, request_body, o) {
        Err(e) => Err(e),
        Ok((j, status, body)) => match spec_decode_profile(j) {
            Some(v) => Ok(v),
            None => Err(spec_parse_error(url, request_body, status, body)),
        },
    }
}

pub fn finish_profile(url: String, request_body: String, outcome: HttpOutcome) -> (r: Result<
    AgentProfile,
    ApiError,
>)
    ensures
        res_view(r) == spec_profile_outcome(url@, request_body@, outcome@),
{
    match classify(url, request_body, outcome) {
        Err(e) => Err(e),
        Ok(c) => match decode_profile(&c.doc) {
            Some(v) => Ok(v),
            None => Err(parse_error(c.url, c.request_body, c.status, c.body)),
        },
    }
}

pub open spec fn spec_background_outcome(
    url: Seq<char>,
    request_body: Seq<char>,
    o: HttpOutcomeModel,
) -> Result<BackgroundResponseModel, ApiErrorModel> {
    match spec_classify(url, request_body, o) {
        Err(e) => Err(e),
        Ok((j, status, body)) => match spec_decode_background_response(j) {
            Some(v) => Ok(v),
            None => Err(spec_parse_error(url, request_body, status, body)),
        },
    }
}

pub fn finish_background(url: String, request_body: String, outcome: HttpOutcome) -> (r: Result<
    BackgroundResponse,
    ApiError,
>)
    ensures
        res_view(r) == spec_background_outcome(url@, request_body@, outcome@),
{
    match classify(url, request_body, outcome) {
        Err(e) => Err(e),
        Ok(c) => match decode_background_response(&c.doc) {
            Some(v) => Ok(v),
            None => Err(parse_error(c.url, c.request_body, c.status, c.body)),
        },
    }
}

pub open spec fn spec_stats_outcome(
    url: Seq<char>,
    request_body: Seq<char>,
    o: HttpOutcomeModel,
) -> Result<AgentStatsModel, ApiErrorModel> {
    match spec_classify(url, request_body, o) {
        Err(e) => Err(e),
        Ok((j, status, body)) => match spec_decode_stats(j) {
            Some(v) => Ok(v),
            None => Err(spec_parse_error(url, request_body, status, body)),
        },
    }
}

pub fn finish_stats(url: String, request_body: String, outcome: HttpOutcome) -> (r: Result<
    AgentStats,
    ApiError,
>)
    ensures
        res_view(r) == spec_stats_outcome(url@, request_body@, outcome@),
{
    match classify(url, request_body, outcome) {
        Err(e) => Err(e),
        Ok(c) => match decode_stats(&c.doc) {
            Some(v) => Ok(v),
            None => Err(parse_error(c.url, c.request_body, c.status, c.body)),
        },
    }
}

pub open spec fn spec_documents_outcome(
    url: Seq<char>,
    request_body: Seq<char>,
    o: HttpOutcomeModel,
) -> Result<DocumentsResponseModel, ApiErrorModel> {
    match spec_classify(url, request_body, o) {
        Err(e) => Err(e),
        Ok((j, status, body)) => match spec_decode_documents_response(j) {
            Some(v) => Ok(v),
            None => Err(spec_parse_error(url, request_body, status, body)),
        },
    }
}

pub fn finish_documents(url: String, request_body: String, outcome: HttpOutcome) -> (r: Result<
    DocumentsResponse,
    ApiError,
>)
    ensures
        res_view(r) == spec_documents_outcome(url@, request_body@, outcome@),
{
    match classify(url, request_body, outcome) {
        Err(e) => Err(e),
        Ok(c) => match decode_documents_response(&c.doc) {
            Some(v) => Ok(v),
            None => Err(parse_error(c.url, c.request_body, c.status, c.body)),
        },
    }
}

pub open spec fn spec_document_outcome(
    url: Seq<char>,
    request_body: Seq<char>,
    o: HttpOutcomeModel,
) -> Result<DocumentDetailsModel, ApiErrorModel> {
    match spec_classify(url, request_body, o) {
        Err(e) => Err(e),
        Ok((j, status, body)) => match spec_decode_document_details(j) {
            Some(v) => Ok(v),
            None => Err(spec_parse_error(url, request_body, status, body)),
        },
    }
}

pub fn finish_document(url: String, request_body: String, outcome: HttpOutcome) -> (r: Result<
    DocumentDetails,
    ApiError,
>)
    ensures
        res_view(r) == spec_document_outcome(url@, request_body@, outcome@),
{
    match classify(url, request_body, outcome) {
        Err(e) => Err(e),
        Ok(c) => match decode_document_details(&c.doc) {
            Some(v) => Ok(v),
            None => Err(parse_error(c.url, c.request_body, c.status, c.body)),
        },
    }
}

pub open spec fn spec_operations_outcome(
    url: Seq<char>,
    request_body: Seq<char>,
    o: HttpOutcomeModel,
) -> Result<OperationsResponseModel, ApiErrorModel> {
    match spec_classify(url, request_body, o) {
        Err(e) => Err(e),
        Ok((j, status, body)) => match spec_decode_operations_response(j) {
            Some(v) => Ok(v),
            None => Err(spec_parse_error(url, request_body, status, body)),
        },
    }
}

pub fn finish_operations(url: String, request_body: String, outcome: HttpOutcome) -> (r: Result<
    OperationsResponse,
    ApiError,
>)
    ensures
        res_view(r) == spec_operations_outcome(url@, request_body@, outcome@),
{
    match classify(url, request_body, outcome) {
        Err(e) => Err(e),
        Ok(c) => match decode_operations_response(&c.doc) {
            Some(v) => Ok(v),
            None => Err(parse_error(c.url, c.request_body, c.status, c.body)),
        },
    }
}

pub open spec fn spec_delete_outcome(
    url: Seq<char>,
    request_body: Seq<char>,
    o: HttpOutcomeModel,
) -> Result<DeleteResponseModel, ApiErrorModel> {
    match spec_classify(url, request_body, o) {
        Err(e) => Err(e),
        Ok((j, status, body)) => match spec_decode_delete_response(j) {
            Some(v) => Ok(v),
            None => Err(spec_parse_error(url, request_body, status, body)),
        },
    }
}

pub fn finish_delete(url: String, request_body: String, outcome: HttpOutcome) -> (r: Result<
    DeleteResponse,
    ApiError,
>)
    ensures
        res_view(r) == spec_delete_outcome(url@, request_body@, outcome@),
{
    match classify(url, request_body, outcome) {
        Err(e) => Err(e),
        Ok(c) => match decode_delete_response(&c.doc) {
            Some(v) => Ok(v),
            None => Err(parse_error(c.url, c.request_body, c.status, c.body)),
        },
    }
}

// ---------------------------------------------------------------- the client

/// The handle through which every operation goes: one blocking transport
/// and the base URL all paths are resolved against. It holds no state
/// between calls.
pub struct ApiClient {
    client: reqwest::blocking::Client,
    base_url: String,
}

impl ApiClient {
    /// The base URL the operations resolve against.
    pub closed spec fn base(&self) -> Seq<char> {
        self.base_url@
    }

    /// Builds the transport with its default timeout; fails only when the
    /// transport cannot be set up.
    pub fn new(base_url: String) -> (r: Result<ApiClient, ApiError>)
        ensures
            match r {
                Ok(c) => c.base() == base_url@,
                Err(e) => e@.kind == ErrorKind::Transport,
            },
    {
        match build_client(TIMEOUT_WRITE_SECS) {
            Ok(client) => Ok(ApiClient { client, base_url }),
            Err(message) => {
                let mut msg = String::new();
                msg.append("Failed to create HTTP client: ");
                msg.append(message.as_str());
                Err(transport_error(String::new(), String::new(), msg))
            },
        }
    }

    /// Searches an agent's memories.
    pub fn search(&self, agent_id: &str, request: &SearchRequest, verbose: bool) -> (r: Result<
        SearchResponse,
        ApiError,
    >)
        ensures
            exists|o: HttpOutcomeModel|
                res_view(r) == #[trigger] spec_search_outcome(
                    spec_agent_path(self.base(), agent_id@, "/memories/search"@),
                    spec_render(spec_encode_search_request(request@)),
                    o,
                ),
    {
        let url = agent_path(self.base_url.as_str(), agent_id, "/memories/search");
        let body = json_render(&encode_search_request(request));
        if verbose {
            emit_request(&url, Some(&body));
        }
        let outcome = http_post(&self.client, &url, &body, TIMEOUT_HEAVY_SECS);
        if verbose {
            emit_outcome(&outcome);
        }
        let ghost om = outcome@;
        let r = finish_search(url, body, outcome);
        proof {
            assert(res_view(r) == spec_search_outcome(
                spec_agent_path(self.base(), agent_id@, "/memories/search"@),
                spec_render(spec_encode_search_request(request@)),
                om,
            ));
        }
        r
    }

    /// Asks an agent to reason over its memories.
    pub fn think(&self, agent_id: &str, request: &ThinkRequest, verbose: bool) -> (r: Result<
        ThinkResponse,
        ApiError,
    >)
        ensures
            exists|o: HttpOutcomeModel|
                res_view(r) == #[trigger] spec_think_outcome(
                    spec_agent_path(self.base(), agent_id@, "/think"@),
                    spec_render(spec_encode_think_request(request@)),
                    o,
                ),
    {
        let url = agent_path(self.base_url.as_str(), agent_id, "/think");
        let body = json_render(&encode_think_request(request));
        if verbose {
            emit_request(&url, Some(&body));
        }
        let outcome = http_post(&self.client, &url, &body, TIMEOUT_HEAVY_SECS);
        if verbose {
            emit_outcome(&outcome);
        }
        let ghost om = outcome@;
        let r = finish_think(url, body, outcome);
        proof {
            assert(res_view(r) == spec_think_outcome(
                spec_agent_path(self.base(), agent_id@, "/think"@),
                spec_render(spec_encode_think_request(request@)),
                om,
            ));
        }
        r
    }

    /// Ingests a batch of memories, synchronously or as an asynchronous job.
    pub fn put_memories(
        &self,
        agent_id: &str,
        request: &BatchMemoryRequest,
        async_mode: bool,
        verbose: bool,
    ) -> (r: Result<BatchMemoryResponse, ApiError>)
        ensures
            exists|o: HttpOutcomeModel|
                res_view(r) == #[trigger] spec_put_memories_outcome(
                    spec_put_memories_url(self.base(), agent_id@, async_mode),
                    spec_render(spec_encode_batch_memory_request(request@)),
                    o,
                ),
    {
        let url = if async_mode {
            agent_path(self.base_url.as_str(), agent_id, "/memories/async")
        } else {
            agent_path(self.base_url.as_str(), agent_id, "/memories")
        };
        let body = json_render(&encode_batch_memory_request(request));
        if verbose {
            emit_request(&url, Some(&body));
        }
        let outcome = http_post(&self.client, &url, &body, TIMEOUT_HEAVY_SECS);
        if verbose {
            emit_outcome(&outcome);
        }
        let ghost om = outcome@;
        let r = finish_put_memories(url, body, outcome);
        proof {
            assert(res_view(r) == spec_put_memories_outcome(
                spec_put_memories_url(self.base(), agent_id@, async_mode),
                spec_render(spec_encode_batch_memory_request(request@)),
                om,
            ));
        }
        r
    }

    /// Lists the agents the service knows.
    pub fn list_agents(&self, verbose: bool) -> (r: Result<Vec<Agent>, ApiError>)
        ensures
            exists|o: HttpOutcomeModel|
                agents_res_view(r) == #[trigger] spec_list_agents_outcome(
                    spec_agents_path(self.base()),
                    Seq::<char>::empty(),
                    o,
                ),
    {
        let url = agents_path(self.base_url.as_str());
        if verbose {
            emit_request(&url, None);
        }
        let outcome = http_get(&self.client, &url, TIMEOUT_READ_SECS);
        if verbose {
            emit_outcome(&outcome);
        }
        let ghost om = outcome@;
        let r = finish_list_agents(url, String::new(), outcome);
        proof {
            assert(agents_res_view(r) == spec_list_agents_outcome(
                spec_agents_path(self.base()),
                Seq::<char>::empty(),
                om,
            ));
        }
        r
    }

    /// Fetches an agent's profile.
    pub fn get_profile(&self, agent_id: &str, verbose: bool) -> (r: Result<AgentProfile, ApiError>)
        ensures
            exists|o: HttpOutcomeModel|
                res_view(r) == #[trigger] spec_profile_outcome(
                    spec_agent_path(self.base(), agent_id@, "/profile"@),
                    Seq::<char>::empty(),
                    o,
                ),
    {
        let url = agent_path(self.base_url.as_str(), agent_id, "/profile");
        if verbose {
            emit_request(&url, None);
        }
        let outcome = http_get(&self.client, &url, TIMEOUT_READ_SECS);
        if verbose {
            emit_outcome(&outcome);
        }
        let ghost om = outcome@;
        let r = finish_profile(url, String::new(), outcome);
        proof {
            assert(res_view(r) == spec_profile_outcome(
                spec_agent_path(self.base(), agent_id@, "/profile"@),
                Seq::<char>::empty(),
                om,
            ));
        }
        r
    }

    /// Replaces an agent's six personality traits; the service echoes the
    /// whole profile back.
    pub fn update_personality(
        &self,
        agent_id: &str,
        traits: PersonalityTraits,
        verbose: bool,
    ) -> (r: Result<AgentProfile, ApiError>)
        ensures
            exists|o: HttpOutcomeModel|
                res_view(r) == #[trigger] spec_profile_outcome(
                    spec_agent_path(self.base(), agent_id@, "/profile"@),
                    spec_render(
                        spec_encode_update_personality(
                            UpdatePersonalityRequestModel { personality: traits@ },
                        ),
                    ),
                    o,
                ),
    {
        let request = UpdatePersonalityRequest { personality: traits };
        let url = agent_path(self.base_url.as_str(), agent_id, "/profile");
        let body = json_render(&encode_update_personality(&request));
        if verbose {
            emit_request(&url, Some(&body));
        }
        let outcome = http_put(&self.client, &url, &body, TIMEOUT_READ_SECS);
        if verbose {
            emit_outcome(&outcome);
        }
        let ghost om = outcome@;
        let r = finish_profile(url, body, outcome);
        proof {
            assert(res_view(r) == spec_profile_outcome(
                spec_agent_path(self.base(), agent_id@, "/profile"@),
                spec_render(spec_encode_update_personality(request@)),
                om,
            ));
        }
        r
    }

    /// Adds background narrative to an agent, optionally refreshing its
    /// persona from it.
    pub fn add_background(
        &self,
        agent_id: &str,
        content: &str,
        update_personality: bool,
        verbose: bool,
    ) -> (r: Result<BackgroundResponse, ApiError>)
        ensures
            exists|o: HttpOutcomeModel|
                res_view(r) == #[trigger] spec_background_outcome(
                    spec_agent_path(self.base(), agent_id@, "/background"@),
                    spec_render(
                        spec_encode_add_background(
                            AddBackgroundRequestModel {
                                content: content@,
                                update_personality: update_personality,
                            },
                        ),
                    ),
                    o,
                ),
    {
        let request = AddBackgroundRequest {
            content: String::from_str(content),
            update_personality,
        };
        let url = agent_path(self.base_url.as_str(), agent_id, "/background");
        let body = json_render(&encode_add_background(&request));
        if verbose {
            emit_request(&url, Some(&body));
        }
        let outcome = http_post(&self.client, &url, &body, TIMEOUT_WRITE_SECS);
        if verbose {
            emit_outcome(&outcome);
        }
        let ghost om = outcome@;
        let r = finish_background(url, body, outcome);
        proof {
            assert(res_view(r) == spec_background_outcome(
                spec_agent_path(self.base(), agent_id@, "/background"@),
                spec_render(spec_encode_add_background(request@)),
                om,
            ));
        }
        r
    }

    /// Fetches an agent's aggregate counters.
    pub fn get_stats(&self, agent_id: &str, verbose: bool) -> (r: Result<AgentStats, ApiError>)
        ensures
            exists|o: HttpOutcomeModel|
                res_view(r) == #[trigger] spec_stats_outcome(
                    spec_agent_path(self.base(), agent_id@, "/stats"@),
                    Seq::<char>::empty(),
                    o,
                ),
    {
        let url = agent_path(self.base_url.as_str(), agent_id, "/stats");
        if verbose {
            emit_request(&url, None);
        }
        let outcome = http_get(&self.client, &url, TIMEOUT_READ_SECS);
        if verbose {
            emit_outcome(&outcome);
        }
        let ghost om = outcome@;
        let r = finish_stats(url, String::new(), outcome);
        proof {
            assert(res_view(r) == spec_stats_outcome(
                spec_agent_path(self.base(), agent_id@, "/stats"@),
                Seq::<char>::empty(),
                om,
            ));
        }
        r
    }

    /// Lists an agent's documents; each query parameter is sent only when
    /// the caller supplied it.
    pub fn list_documents(
        &self,
        agent_id: &str,
        q: Option<String>,
        limit: Option<i32>,
        offset: Option<i32>,
        verbose: bool,
    ) -> (r: Result<DocumentsResponse, ApiError>)
        ensures
            exists|o: HttpOutcomeModel|
                res_view(r) == #[trigger] spec_documents_outcome(
                    spec_agent_path(self.base(), agent_id@, "/documents"@) + spec_docs_query(
                        opt_view(q),
                        limit,
                        offset,
                    ),
                    Seq::<char>::empty(),
                    o,
                ),
    {
        let mut url = agent_path(self.base_url.as_str(), agent_id, "/documents");
        push_docs_query(&q, &limit, &offset, &mut url);
        if verbose {
            emit_request(&url, None);
        }
        let outcome = http_get(&self.client, &url, TIMEOUT_READ_SECS);
        if verbose {
            emit_outcome(&outcome);
        }
        let ghost om = outcome@;
        let r = finish_documents(url, String::new(), outcome);
        proof {
            assert(res_view(r) == spec_documents_outcome(
                spec_agent_path(self.base(), agent_id@, "/documents"@) + spec_docs_query(
                    opt_view(q),
                    limit,
                    offset,
                ),
                Seq::<char>::empty(),
                om,
            ));
        }
        r
    }

    /// Fetches one document with its full original text.
    pub fn get_document(&self, agent_id: &str, document_id: &str, verbose: bool) -> (r: Result<
        DocumentDetails,
        ApiError,
    >)
        ensures
            exists|o: HttpOutcomeModel|
                res_view(r) == #[trigger] spec_document_outcome(
                    spec_agent_item_path(self.base(), agent_id@, "/documents/"@, document_id@),
                    Seq::<char>::empty(),
                    o,
                ),
    {
        let url = agent_item_path(self.base_url.as_str(), agent_id, "/documents/", document_id);
        if verbose {
            emit_request(&url, None);
        }
        let outcome = http_get(&self.client, &url, TIMEOUT_READ_SECS);
        if verbose {
            emit_outcome(&outcome);
        }
        let ghost om = outcome@;
        let r = finish_document(url, String::new(), outcome);
        proof {
            assert(res_view(r) == spec_document_outcome(
                spec_agent_item_path(self.base(), agent_id@, "/documents/"@, document_id@),
                Seq::<char>::empty(),
                om,
            ));
        }
        r
    }

    /// Lists an agent's asynchronous operations.
    pub fn list_operations(&self, agent_id: &str, verbose: bool) -> (r: Result<
        OperationsResponse,
        ApiError,
    >)
        ensures
            exists|o: HttpOutcomeModel|
                res_view(r) == #[trigger] spec_operations_outcome(
                    spec_agent_path(self.base(), agent_id@, "/operations"@),
                    Seq::<char>::empty(),
                    o,
                ),
    {
        let url = agent_path(self.base_url.as_str(), agent_id, "/operations");
        if verbose {
            emit_request(&url, None);
        }
        let outcome = http_get(&self.client, &url, TIMEOUT_READ_SECS);
        if verbose {
            emit_outcome(&outcome);
        }
        let ghost om = outcome@;
        let r = finish_operations(url, String::new(), outcome);
        proof {
            assert(res_view(r) == spec_operations_outcome(
                spec_agent_path(self.base(), agent_id@, "/operations"@),
                Seq::<char>::empty(),
                om,
            ));
        }
        r
    }

    /// Cancels one asynchronous operation.
    pub fn cancel_operation(&self, agent_id: &str, operation_id: &str, verbose: bool) -> (r:
        Result<DeleteResponse, ApiError>)
        ensures
            exists|o: HttpOutcomeModel|
                res_view(r) == #[trigger] spec_delete_outcome(
                    spec_agent_item_path(self.base(), agent_id@, "/operations/"@, operation_id@),
                    Seq::<char>::empty(),
                    o,
                ),
    {
        let url = agent_item_path(self.base_url.as_str(), agent_id, "/operations/", operation_id);
        if verbose {
            emit_request(&url, None);
        }
        let outcome = http_delete(&self.client, &url, TIMEOUT_READ_SECS);
        if verbose {
            emit_outcome(&outcome);
        }
        let ghost om = outcome@;
        let r = finish_delete(url, String::new(), outcome);
        proof {
            assert(res_view(r) == spec_delete_outcome(
                spec_agent_item_path(self.base(), agent_id@, "/operations/"@, operation_id@),
                Seq::<char>::empty(),
                om,
            ));
        }
        r
    }

    /// Deletes one remembered unit.
    pub fn delete_memory(&self, agent_id: &str, unit_id: &str, verbose: bool) -> (r: Result<
        DeleteResponse,
        ApiError,
    >)
        ensures
            exists|o: HttpOutcomeModel|
                res_view(r) == #[trigger] spec_delete_outcome(
                    spec_agent_item_path(self.base(), agent_id@, "/memories/"@, unit_id@),
                    Seq::<char>::empty(),
                    o,
                ),
    {
        let url = agent_item_path(self.base_url.as_str(), agent_id, "/memories/", unit_id);
        if verbose {
            emit_request(&url, None);
        }
        let outcome = http_delete(&self.client, &url, TIMEOUT_READ_SECS);
        if verbose {
            emit_outcome(&outcome);
        }
        let ghost om = outcome@;
        let r = finish_delete(url, String::new(), outcome);
        proof {
            assert(res_view(r) == spec_delete_outcome(
                spec_agent_item_path(self.base(), agent_id@, "/memories/"@, unit_id@),
                Seq::<char>::empty(),
                om,
            ));
        }
        r
    }

    /// Deletes one document.
    pub fn delete_document(&self, agent_id: &str, document_id: &str, verbose: bool) -> (r: Result<
        DeleteResponse,
        ApiError,
    >)
        ensures
            exists|o: HttpOutcomeModel|
                res_view(r) == #[trigger] spec_delete_outcome(
                    spec_agent_item_path(self.base(), agent_id@, "/documents/"@, document_id@),
                    Seq::<char>::empty(),
                    o,
                ),
    {
        let url = agent_item_path(self.base_url.as_str(), agent_id, "/documents/", document_id);
        if verbose {
            emit_request(&url, None);
        }
        let outcome = http_delete(&self.client, &url, TIMEOUT_READ_SECS);
        if verbose {
            emit_outcome(&outcome);
        }
        let ghost om = outcome@;
        let r = finish_delete(url, String::new(), outcome);
        proof {
            assert(res_view(r) == spec_delete_outcome(
                spec_agent_item_path(self.base(), agent_id@, "/documents/"@, document_id@),
                Seq::<char>::empty(),
                om,
            ));
        }
        r
    }
}

} // verus!
