//! The conversational layer over the cognition engine.
//!
//! A user query becomes a stimulus, runs through a
//! [`RecursiveCognitionEngine`], and the resulting cognitive state is
//! mapped to a system response carrying the hypothesis, an epistemic
//! uncertainty report, an ethical reflection and diagnostic key-value
//! pairs.

use vstd::prelude::*;
use vstd::string::StringExecFns;

use crate::recursive_cognition_engine::CognitiveState;
use crate::recursive_cognition_engine::CognitiveStateModel;
use crate::recursive_cognition_engine::RecursiveCognitionEngine;
use crate::recursive_cognition_engine::Stimulus;
use crate::recursive_cognition_engine::StimulusContent;
use crate::recursive_cognition_engine::StimulusContentModel;
use crate::recursive_cognition_engine::StimulusModel;
use crate::scores::Micros;
use crate::text;

verus! {

/// Mathematical model of [`UserQuery`].
#[verifier::ext_equal]
pub ghost struct QueryModel {
    pub session_id: Seq<char>,
    pub query_id: Seq<char>,
    pub text: Seq<char>,
    pub metadata: Option<Seq<(Seq<char>, Seq<char>)>>,
}

/// A user's query within a session: ids, the query text and optional
/// key-value metadata such as preferences.
#[derive(Debug)]
pub struct UserQuery {
    pub session_id: String,
    pub query_id: String,
    pub text: String,
    pub metadata: Option<Vec<(String, String)>>,
}

impl View for UserQuery {
    type V = QueryModel;

    open spec fn view(&self) -> QueryModel {
        QueryModel {
            session_id: self.session_id@,
            query_id: self.query_id@,
            text: self.text@,
            metadata: match self.metadata {
                Some(m) => Some(m@.map_values(|p: (String, String)| (p.0@, p.1@))),
                None => None,
            },
        }
    }
}

/// A rich element of a response: a button, a card (possibly with nested
/// actions) or a link.
#[derive(Debug)]
pub enum RichContentElement {
    Button { label: String, action: String },
    Card {
        title: String,
        text: String,
        image_url: Option<String>,
        actions: Option<Vec<RichContentElement>>,
    },
    Link { text: String, url: String },
}

/// Mathematical model of [`EpistemicUncertaintyInfo`].
#[verifier::ext_equal]
pub ghost struct UncertaintyModel {
    pub level: Micros,
    pub explanation: Option<Seq<char>>,
}

/// How certain the system is of a response: a level between zero
/// (completely uncertain) and one (completely certain), as a fixed-point
/// fraction (see [`crate::scores`]), with an optional explanation.
#[derive(Debug)]
pub struct EpistemicUncertaintyInfo {
    pub level: Micros,
    pub explanation: Option<String>,
}

impl View for EpistemicUncertaintyInfo {
    type V = UncertaintyModel;

    open spec fn view(&self) -> UncertaintyModel {
        UncertaintyModel {
            level: self.level,
            explanation: match self.explanation {
                Some(e) => Some(e@),
                None => None,
            },
        }
    }
}

/// Mathematical model of [`EthicalReflectionInfo`].
#[verifier::ext_equal]
pub ghost struct ReflectionModel {
    pub pas_score_snapshot: Option<Micros>,
    pub summary: Seq<char>,
    pub details_query_suggestion: Option<Seq<char>>,
}

/// The ethical reflection attached to a response: a snapshot of the
/// sovereignty score, a summary of status and concerns, and a suggested
/// follow-up query.
#[derive(Debug)]
pub struct EthicalReflectionInfo {
    pub pas_score_snapshot: Option<Micros>,
    pub summary: String,
    pub details_query_suggestion: Option<String>,
}

impl View for EthicalReflectionInfo {
    type V = ReflectionModel;

    open spec fn view(&self) -> ReflectionModel {
        ReflectionModel {
            pas_score_snapshot: self.pas_score_snapshot,
            summary: self.summary@,
            details_query_suggestion: match self.details_query_suggestion {
                Some(s) => Some(s@),
                None => None,
            },
        }
    }
}

/// Mathematical model of [`SystemResponse`]. Rich content elements are
/// carried as they are, without further unfolding.
#[verifier::ext_equal]
pub ghost struct ResponseModel {
    pub session_id: Seq<char>,
    pub response_to_query_id: Seq<char>,
    pub response_id: Seq<char>,
    pub text_content: Seq<char>,
    pub rich_content: Option<Seq<RichContentElement>>,
    pub epistemic_uncertainty: Option<UncertaintyModel>,
    pub ethical_reflection: Option<ReflectionModel>,
    pub follow_up_suggestions: Option<Seq<Seq<char>>>,
    pub diagnostic_info: Option<Seq<(Seq<char>, Seq<char>)>>,
}

/// The system's answer to a query: the response text with ids tying it
/// to its session and query, optional rich content, uncertainty and
/// reflection reports, follow-up suggestions and diagnostic key-value
/// pairs.
#[derive(Debug)]
pub struct SystemResponse {
    pub session_id: String,
    pub response_to_query_id: String,
    pub response_id: String,
    pub text_content: String,
    pub rich_content: Option<Vec<RichContentElement>>,
    pub epistemic_uncertainty: Option<EpistemicUncertaintyInfo>,
    pub ethical_reflection: Option<EthicalReflectionInfo>,
    pub follow_up_suggestions: Option<Vec<String>>,
    pub diagnostic_info: Option<Vec<(String, String)>>,
}

impl View for SystemResponse {
    type V = ResponseModel;

    open spec fn view(&self) -> ResponseModel {
        ResponseModel {
            session_id: self.session_id@,
            response_to_query_id: self.response_to_query_id@,
            response_id: self.response_id@,
            text_content: self.text_content@,
            rich_content: match self.rich_content {
                Some(v) => Some(v@),
                None => None,
            },
            epistemic_uncertainty: match self.epistemic_uncertainty {
                Some(u) => Some(u@),
                None => None,
            },
            ethical_reflection: match self.ethical_reflection {
                Some(e) => Some(e@),
                None => None,
            },
            follow_up_suggestions: match self.follow_up_suggestions {
                Some(v) => Some(v.deep_view()),
                None => None,
            },
            diagnostic_info: match self.diagnostic_info {
                Some(v) => Some(v@.map_values(|p: (String, String)| (p.0@, p.1@))),
                None => None,
            },
        }
    }
}

/// The model of a query-handling result.
pub open spec fn spec_response_result(r: Result<SystemResponse, String>) -> Result<
    ResponseModel,
    Seq<char>,
> {
    match r {
        Ok(resp) => Ok(resp@),
        Err(e) => Err(e@),
    }
}

/// The stimulus a query is turned into: an id derived from the query
/// id, the query text as content, and the query's metadata (empty when
/// absent).
pub open spec fn spec_stimulus_of_query(q: QueryModel) -> StimulusModel {
    StimulusModel {
        id: "stimulus_for_"@ + q.query_id,
        content: StimulusContentModel::Text(q.text),
        metadata: match q.metadata {
            Some(m) => m,
            None => Seq::empty(),
        },
    }
}

/// The explanation attached when confidence is below `0.70`.
pub open spec fn spec_moderate_confidence_explanation() -> Seq<char> {
    "Confidence is moderate. More data or context could improve certainty."@
}

/// The uncertainty report for a cognitive state: its confidence level,
/// explained when moderate.
pub open spec fn spec_uncertainty_of(state: CognitiveStateModel) -> UncertaintyModel {
    UncertaintyModel {
        level: state.confidence_level,
        explanation: if state.confidence_level < 700_000 {
            Some(spec_moderate_confidence_explanation())
        } else {
            None
        },
    }
}

/// The reflection summary for an assessment: its alignment status and
/// comma-joined concerns.
pub open spec fn spec_reflection_summary(
    alignment_status: Seq<char>,
    concerns: Seq<Seq<char>>,
) -> Seq<char> {
    "Ethical status: "@ + alignment_status + ". Concerns: "@ + text::spec_join(concerns, ", "@)
        + "."@
}

/// The suggestion offered for digging into a response's ethics.
pub open spec fn spec_details_query_suggestion() -> Seq<char> {
    "Ask 'Tell me more about the ethics of this response.'"@
}

/// The response a cognitive state is mapped to for a query: the
/// hypothesis as text, the uncertainty and reflection reports, a fixed
/// follow-up suggestion and two diagnostic entries.
pub open spec fn spec_map_response(state: CognitiveStateModel, q: QueryModel) -> ResponseModel {
    ResponseModel {
        session_id: q.session_id,
        response_to_query_id: q.query_id,
        response_id: "response_to_"@ + q.query_id,
        text_content: state.current_hypothesis,
        rich_content: None,
        epistemic_uncertainty: Some(spec_uncertainty_of(state)),
        ethical_reflection: match state.ethical_assessment {
            Some(a) => Some(
                ReflectionModel {
                    pas_score_snapshot: Some(a.pas_score),
                    summary: spec_reflection_summary(a.alignment_status, a.ethical_concerns),
                    details_query_suggestion: Some(spec_details_query_suggestion()),
                },
            ),
            None => None,
        },
        follow_up_suggestions: Some(seq!["Ask another question."@]),
        diagnostic_info: Some(
            seq![
                ("state_id"@, state.state_id),
                ("history_log_entries"@, text::spec_decimal(state.history_log.len() as int)),
            ],
        ),
    }
}

/// The message wrapped around an engine failure.
pub open spec fn spec_engine_error_message(e: Seq<char>) -> Seq<char> {
    "Error processing query via cognition engine: "@ + e
}

/// Handling of user interactions. Each implementation fixes its
/// outcomes through
/// [`Or4cl3ConversationalInterface::query_result`].
pub trait Or4cl3ConversationalInterface {
    /// What handling `query` may return.
    spec fn query_result(&self, query: QueryModel, out: Result<ResponseModel, Seq<char>>) -> bool;

    /// Processes a user's query and returns the system's response.
    fn handle_user_query(&self, query: UserQuery) -> (r: Result<SystemResponse, String>)
        ensures
            self.query_result(query@, spec_response_result(r)),
    ;
}

/// The production conversational interface: queries run through the
/// cognition engine it was built with.
pub struct BasicConversationalInterface<RCE: RecursiveCognitionEngine> {
    /// The cognition engine queries are processed by.
    pub engine: RCE,
}

impl<RCE: RecursiveCognitionEngine> BasicConversationalInterface<RCE> {
    /// An interface over `engine`.
    pub fn new(engine: RCE) -> (c: Self)
        ensures
            c.engine == engine,
    {
        Self { engine }
    }

    fn map_cognitive_state_to_response(
        &self,
        cognitive_state: CognitiveState,
        query: &UserQuery,
    ) -> (resp: SystemResponse)
        ensures
            resp@ == spec_map_response(cognitive_state@, query@),
    {
        let explanation: Option<String> = if cognitive_state.confidence_level < 700_000 {
            Some("Confidence is moderate. More data or context could improve certainty.".to_owned())
        } else {
            None
        };
        let epistemic_uncertainty = Some(
            EpistemicUncertaintyInfo { level: cognitive_state.confidence_level, explanation },
        );
        let ethical_reflection: Option<EthicalReflectionInfo> =
            match &cognitive_state.ethical_assessment {
            Some(assessment) => {
                let mut summary = "Ethical status: ".to_owned();
                summary.append(assessment.alignment_status.as_str());
                summary.append(". Concerns: ");
                let joined = text::join(&assessment.ethical_concerns, ", ");
                summary.append(joined.as_str());
                summary.append(".");
                Some(
                    EthicalReflectionInfo {
                        pas_score_snapshot: Some(assessment.pas_score),
                        summary,
                        details_query_suggestion: Some(
                            "Ask 'Tell me more about the ethics of this response.'".to_owned(),
                        ),
                    },
                )
            },
            None => None,
        };
        let mut response_id = "response_to_".to_owned();
        response_id.append(query.query_id.as_str());
        let mut follow_ups: Vec<String> = Vec::new();
        follow_ups.push("Ask another question.".to_owned());
        let mut diagnostic: Vec<(String, String)> = Vec::new();
        diagnostic.push(("state_id".to_owned(), cognitive_state.state_id.clone()));
        diagnostic.push(
            (
                "history_log_entries".to_owned(),
                text::decimal_string(cognitive_state.history_log.len() as u64),
            ),
        );
        let resp = SystemResponse {
            session_id: query.session_id.clone(),
            response_to_query_id: query.query_id.clone(),
            response_id,
            text_content: cognitive_state.current_hypothesis,
            rich_content: None,
            epistemic_uncertainty,
            ethical_reflection,
            follow_up_suggestions: Some(follow_ups),
            diagnostic_info: Some(diagnostic),
        };
        proof {
            assert(resp@.follow_up_suggestions->0 =~= seq!["Ask another question."@]);
            assert(resp@.diagnostic_info->0 =~= spec_map_response(
                cognitive_state@,
                query@,
            ).diagnostic_info->0);
            assert(resp@ =~= spec_map_response(cognitive_state@, query@));
        }
        resp
    }
}

impl<RCE: RecursiveCognitionEngine> Or4cl3ConversationalInterface for BasicConversationalInterface<
    RCE,
> {
    /// On success the engine's full cycle admits some cognitive state
    /// for the query's stimulus, and the response is its mapping; on
    /// failure the engine's error is reported, wrapped in a message.
    open spec fn query_result(&self, query: QueryModel, out: Result<
        ResponseModel,
        Seq<char>,
    >) -> bool {
        match out {
            Ok(resp) => exists|cs: CognitiveStateModel|
                self.engine.cycle_result(
                    spec_stimulus_of_query(query),
                    Ok(cs),
                ) && resp == spec_map_response(cs, query),
            Err(msg) => exists|e: Seq<char>|
                self.engine.cycle_result(spec_stimulus_of_query(query), Err(e)) && msg
                    == spec_engine_error_message(e),
        }
    }

    fn handle_user_query(&self, query: UserQuery) -> (r: Result<SystemResponse, String>) {
        let mut stimulus_id = "stimulus_for_".to_owned();
        stimulus_id.append(query.query_id.as_str());
        let metadata: Vec<(String, String)> = match &query.metadata {
            Some(m) => text::clone_string_pairs(m),
            None => Vec::new(),
        };
        let stimulus = Stimulus {
            id: stimulus_id,
            content: StimulusContent::Text(query.text.clone()),
            metadata,
        };
        proof {
            assert(stimulus@.metadata =~= spec_stimulus_of_query(query@).metadata);
            assert(stimulus@ =~= spec_stimulus_of_query(query@));
        }
        match self.engine.execute_full_cycle(stimulus) {
            Ok(cognitive_state) => {
                let ghost cs = cognitive_state@;
                let resp = self.map_cognitive_state_to_response(cognitive_state, &query);
                proof {
                    assert(self.engine.cycle_result(spec_stimulus_of_query(query@), Ok(cs)));
                    assert(resp@ == spec_map_response(cs, query@));
                    assert(self.query_result(query@, Ok::<ResponseModel, Seq<char>>(resp@)));
                }
                Ok(resp)
            },
            Err(e) => {
                let ghost em = e@;
                let mut msg = "Error processing query via cognition engine: ".to_owned();
                msg.append(e.as_str());
                proof {
                    assert(self.engine.cycle_result(spec_stimulus_of_query(query@), Err(em)));
                    assert(msg@ == spec_engine_error_message(em));
                    assert(self.query_result(query@, Err::<ResponseModel, Seq<char>>(msg@)));
                }
                Err(msg)
            },
        }
    }
}

} // verus!
