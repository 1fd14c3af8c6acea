//! The value types exchanged with the service, with their mathematical
//! models.
//!
//! Every type is a plain record of what stands on the wire. A numeric score
//! or trait is carried as its exact decimal text (`NumberText`), never as a
//! machine float, so nothing is rounded on the way through the client.

use vstd::prelude::*;
use crate::parse::spec_number_end;

verus! {

/// A number carried as its decimal text, e.g. `0.75`.
#[derive(Debug, Clone, PartialEq)]
pub struct NumberText {
    pub text: String,
}

/// The text is one whole number of the JSON grammar.
pub open spec fn is_number_lexeme(t: Seq<char>) -> bool {
    spec_number_end(t, 0) == Some(t.len() as int)
}

impl View for NumberText {
    type V = Seq<char>;

    open spec fn view(&self) -> Seq<char> {
        self.text@
    }
}

impl NumberText {
    pub open spec fn wf(&self) -> bool {
        is_number_lexeme(self.text@)
    }

    /// Accepts exactly the texts that name one JSON number.
    pub fn new(text: String) -> (r: Option<NumberText>)
        ensures
            match r {
                Some(n) => n@ == text@ && n.wf() && is_number_lexeme(text@),
                None => !is_number_lexeme(text@),
            },
    {
        let v = crate::text::str_to_chars(text.as_str());
        match crate::parse::number_end(&v, 0) {
            Some(e) => {
                if e == v.len() {
                    Some(NumberText { text })
                } else {
                    None
                }
            },
            None => None,
        }
    }
}

pub open spec fn opt_view<T: View>(o: Option<T>) -> Option<T::V> {
    match o {
        Some(v) => Some(v.view()),
        None => None,
    }
}

/// The models of a sequence's values, in order.
pub open spec fn vals_view<T: View>(s: Seq<T>) -> Seq<T::V> {
    Seq::new(s.len(), |i: int| s[i].view())
}

// ---------------------------------------------------------------- search

#[derive(Debug, PartialEq)]
pub struct SearchRequest {
    pub query: String,
    pub fact_type: Vec<String>,
    pub thinking_budget: i32,
    pub max_tokens: i32,
    pub trace: bool,
}

pub struct SearchRequestModel {
    pub query: Seq<char>,
    pub fact_type: Seq<Seq<char>>,
    pub thinking_budget: i32,
    pub max_tokens: i32,
    pub trace: bool,
}

impl View for SearchRequest {
    type V = SearchRequestModel;

    open spec fn view(&self) -> SearchRequestModel {
        SearchRequestModel {
            query: self.query@,
            fact_type: vals_view(self.fact_type@),
            thinking_budget: self.thinking_budget,
            max_tokens: self.max_tokens,
            trace: self.trace,
        }
    }
}

/// One remembered unit, as a search returns it.
#[derive(Debug, Clone, PartialEq)]
pub struct Fact {
    pub id: Option<String>,
    pub text: String,
    pub fact_type: Option<String>,
    pub activation: Option<NumberText>,
    pub context: Option<String>,
    pub event_date: Option<String>,
}

pub struct FactModel {
    pub id: Option<Seq<char>>,
    pub text: Seq<char>,
    pub fact_type: Option<Seq<char>>,
    pub activation: Option<Seq<char>>,
    pub context: Option<Seq<char>>,
    pub event_date: Option<Seq<char>>,
}

impl View for Fact {
    type V = FactModel;

    open spec fn view(&self) -> FactModel {
        FactModel {
            id: opt_view(self.id),
            text: self.text@,
            fact_type: opt_view(self.fact_type),
            activation: opt_view(self.activation),
            context: opt_view(self.context),
            event_date: opt_view(self.event_date),
        }
    }
}

#[derive(Debug, PartialEq)]
pub struct TraceInfo {
    pub total_time: Option<NumberText>,
    pub activation_count: Option<i32>,
}

pub struct TraceInfoModel {
    pub total_time: Option<Seq<char>>,
    pub activation_count: Option<i32>,
}

impl View for TraceInfo {
    type V = TraceInfoModel;

    open spec fn view(&self) -> TraceInfoModel {
        TraceInfoModel {
            total_time: opt_view(self.total_time),
            activation_count: self.activation_count,
        }
    }
}

#[derive(Debug, PartialEq)]
pub struct SearchResponse {
    pub results: Vec<Fact>,
    pub trace: Option<TraceInfo>,
}

pub struct SearchResponseModel {
    pub results: Seq<FactModel>,
    pub trace: Option<TraceInfoModel>,
}

impl View for SearchResponse {
    type V = SearchResponseModel;

    open spec fn view(&self) -> SearchResponseModel {
        SearchResponseModel {
            results: vals_view(self.results@),
            trace: opt_view(self.trace),
        }
    }
}

// ---------------------------------------------------------------- think

#[derive(Debug, PartialEq)]
pub struct ThinkRequest {
    pub query: String,
    pub thinking_budget: i32,
    pub context: Option<String>,
}

pub struct ThinkRequestModel {
    pub query: Seq<char>,
    pub thinking_budget: i32,
    pub context: Option<Seq<char>>,
}

impl View for ThinkRequest {
    type V = ThinkRequestModel;

    open spec fn view(&self) -> ThinkRequestModel {
        ThinkRequestModel {
            query: self.query@,
            thinking_budget: self.thinking_budget,
            context: opt_view(self.context),
        }
    }
}

#[derive(Debug, PartialEq)]
pub struct ThinkResponse {
    pub text: String,
    pub based_on: Vec<Fact>,
    pub new_opinions: Vec<String>,
}

pub struct ThinkResponseModel {
    pub text: Seq<char>,
    pub based_on: Seq<FactModel>,
    pub new_opinions: Seq<Seq<char>>,
}

impl View for ThinkResponse {
    type V = ThinkResponseModel;

    open spec fn view(&self) -> ThinkResponseModel {
        ThinkResponseModel {
            text: self.text@,
            based_on: vals_view(self.based_on@),
            new_opinions: vals_view(self.new_opinions@),
        }
    }
}

// ---------------------------------------------------------------- memories

#[derive(Debug, PartialEq)]
pub struct MemoryItem {
    pub content: String,
    pub context: Option<String>,
}

pub struct MemoryItemModel {
    pub content: Seq<char>,
    pub context: Option<Seq<char>>,
}

impl View for MemoryItem {
    type V = MemoryItemModel;

    open spec fn view(&self) -> MemoryItemModel {
        MemoryItemModel { content: self.content@, context: opt_view(self.context) }
    }
}

#[derive(Debug, PartialEq)]
pub struct BatchMemoryRequest {
    pub items: Vec<MemoryItem>,
    pub document_id: Option<String>,
}

pub struct BatchMemoryRequestModel {
    pub items: Seq<MemoryItemModel>,
    pub document_id: Option<Seq<char>>,
}

impl View for BatchMemoryRequest {
    type V = BatchMemoryRequestModel;

    open spec fn view(&self) -> BatchMemoryRequestModel {
        BatchMemoryRequestModel {
            items: vals_view(self.items@),
            document_id: opt_view(self.document_id),
        }
    }
}

#[derive(Debug, PartialEq)]
pub struct BatchMemoryResponse {
    pub success: bool,
    pub stored_count: Option<i32>,
    pub error: Option<String>,
    pub job_id: Option<String>,
}

pub struct BatchMemoryResponseModel {
    pub success: bool,
    pub stored_count: Option<i32>,
    pub error: Option<Seq<char>>,
    pub job_id: Option<Seq<char>>,
}

impl View for BatchMemoryResponse {
    type V = BatchMemoryResponseModel;

    open spec fn view(&self) -> BatchMemoryResponseModel {
        BatchMemoryResponseModel {
            success: self.success,
            stored_count: self.stored_count,
            error: opt_view(self.error),
            job_id: opt_view(self.job_id),
        }
    }
}

// ---------------------------------------------------------------- agents

/// The two shapes the agents listing can take; nothing in the payload says
/// which, only the field set does.
#[derive(Debug, PartialEq)]
pub enum AgentsResponse {
    Success { agents: Vec<String> },
    Error { error: String },
}

pub enum AgentsResponseModel {
    Success { agents: Seq<Seq<char>> },
    Error { error: Seq<char> },
}

impl View for AgentsResponse {
    type V = AgentsResponseModel;

    open spec fn view(&self) -> AgentsResponseModel {
        match self {
            AgentsResponse::Success { agents } => AgentsResponseModel::Success {
                agents: vals_view(agents@),
            },
            AgentsResponse::Error { error } => AgentsResponseModel::Error { error: error@ },
        }
    }
}

#[derive(Debug, PartialEq)]
pub struct Agent {
    pub agent_id: String,
}

impl View for Agent {
    type V = Seq<char>;

    open spec fn view(&self) -> Seq<char> {
        self.agent_id@
    }
}

/// The six bounded persona traits, each as exact decimal text.
#[derive(Debug, Clone, PartialEq)]
pub struct PersonalityTraits {
    pub openness: NumberText,
    pub conscientiousness: NumberText,
    pub extraversion: NumberText,
    pub agreeableness: NumberText,
    pub neuroticism: NumberText,
    pub bias_strength: NumberText,
}

pub struct PersonalityTraitsModel {
    pub openness: Seq<char>,
    pub conscientiousness: Seq<char>,
    pub extraversion: Seq<char>,
    pub agreeableness: Seq<char>,
    pub neuroticism: Seq<char>,
    pub bias_strength: Seq<char>,
}

impl View for PersonalityTraits {
    type V = PersonalityTraitsModel;

    open spec fn view(&self) -> PersonalityTraitsModel {
        PersonalityTraitsModel {
            openness: self.openness@,
            conscientiousness: self.conscientiousness@,
            extraversion: self.extraversion@,
            agreeableness: self.agreeableness@,
            neuroticism: self.neuroticism@,
            bias_strength: self.bias_strength@,
        }
    }
}

impl PersonalityTraits {
    pub open spec fn wf(&self) -> bool {
        &&& self.openness.wf()
        &&& self.conscientiousness.wf()
        &&& self.extraversion.wf()
        &&& self.agreeableness.wf()
        &&& self.neuroticism.wf()
        &&& self.bias_strength.wf()
    }
}

#[derive(Debug, PartialEq)]
pub struct AgentProfile {
    pub agent_id: String,
    pub name: String,
    pub personality: PersonalityTraits,
    pub background: String,
}

pub struct AgentProfileModel {
    pub agent_id: Seq<char>,
    pub name: Seq<char>,
    pub personality: PersonalityTraitsModel,
    pub background: Seq<char>,
}

impl View for AgentProfile {
    type V = AgentProfileModel;

    open spec fn view(&self) -> AgentProfileModel {
        AgentProfileModel {
            agent_id: self.agent_id@,
            name: self.name@,
            personality: self.personality@,
            background: self.background@,
        }
    }
}

#[derive(Debug, PartialEq)]
pub struct UpdatePersonalityRequest {
    pub personality: PersonalityTraits,
}

pub struct UpdatePersonalityRequestModel {
    pub personality: PersonalityTraitsModel,
}

impl View for UpdatePersonalityRequest {
    type V = UpdatePersonalityRequestModel;

    open spec fn view(&self) -> UpdatePersonalityRequestModel {
        UpdatePersonalityRequestModel { personality: self.personality@ }
    }
}

#[derive(Debug, PartialEq)]
pub struct AddBackgroundRequest {
    pub content: String,
    pub update_personality: bool,
}

pub struct AddBackgroundRequestModel {
    pub content: Seq<char>,
    pub update_personality: bool,
}

impl View for AddBackgroundRequest {
    type V = AddBackgroundRequestModel;

    open spec fn view(&self) -> AddBackgroundRequestModel {
        AddBackgroundRequestModel {
            content: self.content@,
            update_personality: self.update_personality,
        }
    }
}

#[derive(Debug, PartialEq)]
pub struct BackgroundResponse {
    pub background: String,
    pub personality: Option<PersonalityTraits>,
}

pub struct BackgroundResponseModel {
    pub background: Seq<char>,
    pub personality: Option<PersonalityTraitsModel>,
}

impl View for BackgroundResponse {
    type V = BackgroundResponseModel;

    open spec fn view(&self) -> BackgroundResponseModel {
        BackgroundResponseModel {
            background: self.background@,
            personality: opt_view(self.personality),
        }
    }
}

// ---------------------------------------------------------------- stats

/// One named counter of a breakdown, in document order.
#[derive(Debug, PartialEq)]
pub struct CountEntry {
    pub key: String,
    pub count: i32,
}

pub struct CountEntryModel {
    pub key: Seq<char>,
    pub count: i32,
}

impl View for CountEntry {
    type V = CountEntryModel;

    open spec fn view(&self) -> CountEntryModel {
        CountEntryModel { key: self.key@, count: self.count }
    }
}

/// One named group of counters, in document order.
#[derive(Debug, PartialEq)]
pub struct GroupEntry {
    pub key: String,
    pub counts: Vec<CountEntry>,
}

pub struct GroupEntryModel {
    pub key: Seq<char>,
    pub counts: Seq<CountEntryModel>,
}

impl View for GroupEntry {
    type V = GroupEntryModel;

    open spec fn view(&self) -> GroupEntryModel {
        GroupEntryModel {
            key: self.key@,
            counts: vals_view(self.counts@),
        }
    }
}

#[derive(Debug, PartialEq)]
pub struct AgentStats {
    pub agent_id: String,
    pub total_nodes: i32,
    pub total_links: i32,
    pub total_documents: i32,
    pub nodes_by_fact_type: Vec<CountEntry>,
    pub links_by_link_type: Vec<CountEntry>,
    pub links_by_fact_type: Vec<CountEntry>,
    pub links_breakdown: Vec<GroupEntry>,
    pub pending_operations: i32,
    pub failed_operations: i32,
}

pub struct AgentStatsModel {
    pub agent_id: Seq<char>,
    pub total_nodes: i32,
    pub total_links: i32,
    pub total_documents: i32,
    pub nodes_by_fact_type: Seq<CountEntryModel>,
    pub links_by_link_type: Seq<CountEntryModel>,
    pub links_by_fact_type: Seq<CountEntryModel>,
    pub links_breakdown: Seq<GroupEntryModel>,
    pub pending_operations: i32,
    pub failed_operations: i32,
}

impl View for AgentStats {
    type V = AgentStatsModel;

    open spec fn view(&self) -> AgentStatsModel {
        AgentStatsModel {
            agent_id: self.agent_id@,
            total_nodes: self.total_nodes,
            total_links: self.total_links,
            total_documents: self.total_documents,
            nodes_by_fact_type: vals_view(self.nodes_by_fact_type@),
            links_by_link_type: vals_view(self.links_by_link_type@),
            links_by_fact_type: vals_view(self.links_by_fact_type@),
            links_breakdown: vals_view(self.links_breakdown@),
            pending_operations: self.pending_operations,
            failed_operations: self.failed_operations,
        }
    }
}

// ---------------------------------------------------------------- documents

#[derive(Debug, PartialEq)]
pub struct Document {
    pub id: String,
    pub agent_id: String,
    pub content_hash: Option<String>,
    pub created_at: String,
    pub updated_at: String,
    pub text_length: i32,
    pub memory_unit_count: i32,
}

pub struct DocumentModel {
    pub id: Seq<char>,
    pub agent_id: Seq<char>,
    pub content_hash: Option<Seq<char>>,
    pub created_at: Seq<char>,
    pub updated_at: Seq<char>,
    pub text_length: i32,
    pub memory_unit_count: i32,
}

impl View for Document {
    type V = DocumentModel;

    open spec fn view(&self) -> DocumentModel {
        DocumentModel {
            id: self.id@,
            agent_id: self.agent_id@,
            content_hash: opt_view(self.content_hash),
            created_at: self.created_at@,
            updated_at: self.updated_at@,
            text_length: self.text_length,
            memory_unit_count: self.memory_unit_count,
        }
    }
}

/// A `Document` together with its full original text.
#[derive(Debug, PartialEq)]
pub struct DocumentDetails {
    pub id: String,
    pub agent_id: String,
    pub original_text: String,
    pub content_hash: Option<String>,
    pub created_at: String,
    pub updated_at: String,
    pub memory_unit_count: i32,
}

pub struct DocumentDetailsModel {
    pub id: Seq<char>,
    pub agent_id: Seq<char>,
    pub original_text: Seq<char>,
    pub content_hash: Option<Seq<char>>,
    pub created_at: Seq<char>,
    pub updated_at: Seq<char>,
    pub memory_unit_count: i32,
}

impl View for DocumentDetails {
    type V = DocumentDetailsModel;

    open spec fn view(&self) -> DocumentDetailsModel {
        DocumentDetailsModel {
            id: self.id@,
            agent_id: self.agent_id@,
            original_text: self.original_text@,
            content_hash: opt_view(self.content_hash),
            created_at: self.created_at@,
            updated_at: self.updated_at@,
            memory_unit_count: self.memory_unit_count,
        }
    }
}

#[derive(Debug, PartialEq)]
pub struct DocumentsResponse {
    pub items: Vec<Document>,
    pub total: i32,
    pub limit: i32,
    pub offset: i32,
}

pub struct DocumentsResponseModel {
    pub items: Seq<DocumentModel>,
    pub total: i32,
    pub limit: i32,
    pub offset: i32,
}

impl View for DocumentsResponse {
    type V = DocumentsResponseModel;

    open spec fn view(&self) -> DocumentsResponseModel {
        DocumentsResponseModel {
            items: vals_view(self.items@),
            total: self.total,
            limit: self.limit,
            offset: self.offset,
        }
    }
}

// ---------------------------------------------------------------- operations

#[derive(Debug, PartialEq)]
pub struct Operation {
    pub id: String,
    pub task_type: String,
    pub items_count: i32,
    pub document_id: Option<String>,
    pub created_at: String,
    pub status: String,
    pub error_message: Option<String>,
}

pub struct OperationModel {
    pub id: Seq<char>,
    pub task_type: Seq<char>,
    pub items_count: i32,
    pub document_id: Option<Seq<char>>,
    pub created_at: Seq<char>,
    pub status: Seq<char>,
    pub error_message: Option<Seq<char>>,
}

impl View for Operation {
    type V = OperationModel;

    open spec fn view(&self) -> OperationModel {
        OperationModel {
            id: self.id@,
            task_type: self.task_type@,
            items_count: self.items_count,
            document_id: opt_view(self.document_id),
            created_at: self.created_at@,
            status: self.status@,
            error_message: opt_view(self.error_message),
        }
    }
}

#[derive(Debug, PartialEq)]
pub struct OperationsResponse {
    pub agent_id: String,
    pub operations: Vec<Operation>,
}

pub struct OperationsResponseModel {
    pub agent_id: Seq<char>,
    pub operations: Seq<OperationModel>,
}

impl View for OperationsResponse {
    type V = OperationsResponseModel;

    open spec fn view(&self) -> OperationsResponseModel {
        OperationsResponseModel {
            agent_id: self.agent_id@,
            operations: vals_view(self.operations@),
        }
    }
}

#[derive(Debug, PartialEq)]
pub struct DeleteResponse {
    pub success: bool,
    pub message: String,
}

pub struct DeleteResponseModel {
    pub success: bool,
    pub message: Seq<char>,
}

impl View for DeleteResponse {
    type V = DeleteResponseModel;

    open spec fn view(&self) -> DeleteResponseModel {
        DeleteResponseModel { success: self.success, message: self.message@ }
    }
}

} // verus!
