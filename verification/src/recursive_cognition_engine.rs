//! The recursive cognition cycle.
//!
//! A stimulus initializes a cognitive state; the state is then carried
//! through ethical assessment, refinement and self-validation, each step
//! a pure transition recorded in the state's history log. Human feedback
//! folds into the hypothesis the same way. The transitions are total
//! functions of the state, given here as spec functions that the
//! production engine provably implements.

use vstd::prelude::*;
use vstd::string::StringExecFns;

use crate::scores::Micros;
use crate::text;

verus! {

/// Mathematical model of [`StimulusContent`].
#[verifier::ext_equal]
pub ghost enum StimulusContentModel {
    Text(Seq<char>),
    Image(Seq<u8>),
    StructuredData(Seq<char>),
}

/// The payload of a stimulus: text, raw image bytes, or structured data
/// carried as text.
#[derive(Debug)]
pub enum StimulusContent {
    Text(String),
    Image(Vec<u8>),
    StructuredData(String),
}

impl View for StimulusContent {
    type V = StimulusContentModel;

    open spec fn view(&self) -> StimulusContentModel {
        match self {
            StimulusContent::Text(s) => StimulusContentModel::Text(s@),
            StimulusContent::Image(b) => StimulusContentModel::Image(b@),
            StimulusContent::StructuredData(s) => StimulusContentModel::StructuredData(s@),
        }
    }
}

impl Clone for StimulusContent {
    fn clone(&self) -> (res: Self)
        ensures
            res@ == self@,
    {
        match self {
            StimulusContent::Text(s) => StimulusContent::Text(s.clone()),
            StimulusContent::Image(b) => StimulusContent::Image(b.clone()),
            StimulusContent::StructuredData(s) => StimulusContent::StructuredData(s.clone()),
        }
    }
}

/// Mathematical model of [`Stimulus`].
#[verifier::ext_equal]
pub ghost struct StimulusModel {
    pub id: Seq<char>,
    pub content: StimulusContentModel,
    pub metadata: Seq<(Seq<char>, Seq<char>)>,
}

/// An input to the cognition cycle: an id, a content payload and
/// key-value metadata such as source or user id.
#[derive(Debug)]
pub struct Stimulus {
    pub id: String,
    pub content: StimulusContent,
    pub metadata: Vec<(String, String)>,
}

impl View for Stimulus {
    type V = StimulusModel;

    open spec fn view(&self) -> StimulusModel {
        StimulusModel {
            id: self.id@,
            content: self.content@,
            metadata: self.metadata@.map_values(|p: (String, String)| (p.0@, p.1@)),
        }
    }
}

impl Clone for Stimulus {
    fn clone(&self) -> (res: Self)
        ensures
            res@ == self@,
    {
        let res = Stimulus {
            id: self.id.clone(),
            content: self.content.clone(),
            metadata: text::clone_string_pairs(&self.metadata),
        };
        proof {
            assert(res@.metadata =~= self@.metadata);
        }
        res
    }
}

/// Mathematical model of [`EthicalAssessmentReport`].
#[verifier::ext_equal]
pub ghost struct AssessmentModel {
    pub pas_score: Micros,
    pub ethical_concerns: Seq<Seq<char>>,
    pub suggested_mitigations: Seq<Seq<char>>,
    pub alignment_status: Seq<char>,
}

/// An ethical assessment of a cognitive state: a phase-autonomous
/// sovereignty score (fixed point, see [`crate::scores`]), concerns,
/// suggested mitigations and an alignment status word.
#[derive(Debug)]
pub struct EthicalAssessmentReport {
    pub pas_score: Micros,
    pub ethical_concerns: Vec<String>,
    pub suggested_mitigations: Vec<String>,
    pub alignment_status: String,
}

impl View for EthicalAssessmentReport {
    type V = AssessmentModel;

    open spec fn view(&self) -> AssessmentModel {
        AssessmentModel {
            pas_score: self.pas_score,
            ethical_concerns: self.ethical_concerns.deep_view(),
            suggested_mitigations: self.suggested_mitigations.deep_view(),
            alignment_status: self.alignment_status@,
        }
    }
}

impl Clone for EthicalAssessmentReport {
    fn clone(&self) -> (res: Self)
        ensures
            res@ == self@,
    {
        EthicalAssessmentReport {
            pas_score: self.pas_score,
            ethical_concerns: text::clone_strings(&self.ethical_concerns),
            suggested_mitigations: text::clone_strings(&self.suggested_mitigations),
            alignment_status: self.alignment_status.clone(),
        }
    }
}

/// Mathematical model of [`CognitiveState`].
#[verifier::ext_equal]
pub ghost struct CognitiveStateModel {
    pub state_id: Seq<char>,
    pub stimulus_id: Seq<char>,
    pub current_hypothesis: Seq<char>,
    pub confidence_level: Micros,
    pub supporting_evidence_ids: Seq<Seq<char>>,
    pub ethical_assessment: Option<AssessmentModel>,
    pub history_log: Seq<Seq<char>>,
}

/// A state of the cognition cycle: the working hypothesis for a
/// stimulus, its confidence (fixed point, see [`crate::scores`]),
/// supporting evidence, an optional ethical assessment and the log of
/// processing steps taken so far.
#[derive(Debug)]
pub struct CognitiveState {
    pub state_id: String,
    pub stimulus_id: String,
    pub current_hypothesis: String,
    pub confidence_level: Micros,
    pub supporting_evidence_ids: Vec<String>,
    pub ethical_assessment: Option<EthicalAssessmentReport>,
    pub history_log: Vec<String>,
}

impl View for CognitiveState {
    type V = CognitiveStateModel;

    open spec fn view(&self) -> CognitiveStateModel {
        CognitiveStateModel {
            state_id: self.state_id@,
            stimulus_id: self.stimulus_id@,
            current_hypothesis: self.current_hypothesis@,
            confidence_level: self.confidence_level,
            supporting_evidence_ids: self.supporting_evidence_ids.deep_view(),
            ethical_assessment: match self.ethical_assessment {
                Some(a) => Some(a@),
                None => None,
            },
            history_log: self.history_log.deep_view(),
        }
    }
}

impl Clone for CognitiveState {
    fn clone(&self) -> (res: Self)
        ensures
            res@ == self@,
    {
        CognitiveState {
            state_id: self.state_id.clone(),
            stimulus_id: self.stimulus_id.clone(),
            current_hypothesis: self.current_hypothesis.clone(),
            confidence_level: self.confidence_level,
            supporting_evidence_ids: text::clone_strings(&self.supporting_evidence_ids),
            ethical_assessment: match &self.ethical_assessment {
                Some(a) => Some(a.clone()),
                None => None,
            },
            history_log: text::clone_strings(&self.history_log),
        }
    }
}

/// Mathematical model of [`HumanFeedback`].
#[verifier::ext_equal]
pub ghost struct FeedbackModel {
    pub feedback_id: Seq<char>,
    pub target_stimulus_id: Option<Seq<char>>,
    pub target_cognitive_state_id: Option<Seq<char>>,
    pub feedback_content: Seq<char>,
    pub user_id: Seq<char>,
    pub timestamp: u64,
}

/// Human feedback on a stimulus or a cognitive state: ratings, textual
/// corrections or new information.
#[derive(Debug)]
pub struct HumanFeedback {
    pub feedback_id: String,
    pub target_stimulus_id: Option<String>,
    pub target_cognitive_state_id: Option<String>,
    pub feedback_content: String,
    pub user_id: String,
    pub timestamp: u64,
}

impl View for HumanFeedback {
    type V = FeedbackModel;

    open spec fn view(&self) -> FeedbackModel {
        FeedbackModel {
            feedback_id: self.feedback_id@,
            target_stimulus_id: match self.target_stimulus_id {
                Some(s) => Some(s@),
                None => None,
            },
            target_cognitive_state_id: match self.target_cognitive_state_id {
                Some(s) => Some(s@),
                None => None,
            },
            feedback_content: self.feedback_content@,
            user_id: self.user_id@,
            timestamp: self.timestamp,
        }
    }
}

/// Consumes raw stimuli and turns them into cognitive states; for
/// callers to implement over their own ingestion pipelines.
pub trait InputConsumer {
    /// Turns `stimulus` into an initial cognitive state.
    fn process_stimulus(&self, stimulus: Stimulus) -> Result<CognitiveState, String>;
}

/// Assesses a cognitive state ethically; for callers to implement over
/// their own assessment subsystems.
pub trait EthicalAssessor {
    /// Produces an assessment report for `state`.
    fn perform_ethical_assessment(&self, state: &CognitiveState) -> Result<
        EthicalAssessmentReport,
        String,
    >;
}

/// Refines a cognitive state; for callers to implement over their own
/// refinement stages.
pub trait RefinementEngine {
    /// Produces a refined successor of `state`.
    fn refine_cognitive_state(&self, state: &CognitiveState) -> Result<CognitiveState, String>;
}

/// Checks a cognitive state's internal consistency; for callers to
/// implement.
pub trait SelfValidator {
    /// Produces a validated successor of `state`.
    fn self_validate_state(&self, state: &CognitiveState) -> Result<CognitiveState, String>;
}

/// Folds human feedback into a cognitive state; for callers to
/// implement.
pub trait FeedbackIntegrator {
    /// Produces a successor of `base_state` incorporating `feedback`.
    fn integrate_human_feedback(&self, base_state: &CognitiveState, feedback: HumanFeedback) -> Result<
        CognitiveState,
        String,
    >;
}

/// The model of a cycle step's result: the state's model on success,
/// the message's characters on failure.
pub open spec fn spec_state_result(r: Result<CognitiveState, String>) -> Result<
    CognitiveStateModel,
    Seq<char>,
> {
    match r {
        Ok(s) => Ok(s@),
        Err(e) => Err(e@),
    }
}

/// The initial cognitive state for a stimulus: a state id and hypothesis
/// derived from the stimulus id, confidence `0.50`, no evidence, no
/// assessment, and a one-line history.
pub open spec fn spec_initial_state(stimulus: StimulusModel) -> CognitiveStateModel {
    CognitiveStateModel {
        state_id: "state_for_stimulus_"@ + stimulus.id,
        stimulus_id: stimulus.id,
        current_hypothesis: "Initial hypothesis for stimulus: "@ + stimulus.id,
        confidence_level: 500_000,
        supporting_evidence_ids: Seq::empty(),
        ethical_assessment: None,
        history_log: seq!["State initialized from stimulus"@],
    }
}

/// The assessment the production engine attaches: aligned, with no
/// concerns and a sovereignty score of `0.92`.
pub open spec fn spec_mock_assessment() -> AssessmentModel {
    AssessmentModel {
        pas_score: 920_000,
        ethical_concerns: Seq::empty(),
        suggested_mitigations: Seq::empty(),
        alignment_status: "Aligned (Mock)"@,
    }
}

/// `s` after ethical assessment: the report attached, the step logged.
pub open spec fn spec_assessed(s: CognitiveStateModel) -> CognitiveStateModel {
    CognitiveStateModel {
        ethical_assessment: Some(spec_mock_assessment()),
        history_log: s.history_log.push("Ethical assessment performed (mock)"@),
        ..s
    }
}

/// Confidence after refinement: the old confidence, capped at one, grown
/// by a tenth.
pub open spec fn spec_refined_confidence(c: Micros) -> int {
    (if c > 1_000_000 {
        1_000_000int
    } else {
        c as int
    }) * 11 / 10
}

/// `s` after refinement: the hypothesis marked refined, confidence
/// grown, the step logged.
pub open spec fn spec_refined(s: CognitiveStateModel) -> CognitiveStateModel {
    CognitiveStateModel {
        current_hypothesis: s.current_hypothesis + " (refined)"@,
        confidence_level: spec_refined_confidence(s.confidence_level) as Micros,
        history_log: s.history_log.push("Cognition refined (mock)"@),
        ..s
    }
}

/// `s` after self-validation: unchanged but for the logged step.
pub open spec fn spec_validated(s: CognitiveStateModel) -> CognitiveStateModel {
    CognitiveStateModel {
        history_log: s.history_log.push("Self-validation performed (mock)"@),
        ..s
    }
}

/// `s` with `f` incorporated: the feedback content folded into the
/// hypothesis, the integration logged under the feedback id.
pub open spec fn spec_with_feedback(s: CognitiveStateModel, f: FeedbackModel) -> CognitiveStateModel {
    CognitiveStateModel {
        current_hypothesis: s.current_hypothesis + " (feedback incorporated: "@
            + f.feedback_content + ")"@,
        history_log: s.history_log.push(
            "Human feedback '"@ + f.feedback_id + "' integrated (mock)"@,
        ),
        ..s
    }
}

/// One full automated cycle: initialize, assess, refine, validate.
pub open spec fn spec_full_cycle(stimulus: StimulusModel) -> CognitiveStateModel {
    spec_validated(spec_refined(spec_assessed(spec_initial_state(stimulus))))
}

/// The processing loop of the cognition cycle. Each implementation
/// fixes the outcome of every step through its `*_result` relations;
/// the production engine's steps are the `spec_*` transitions above.
pub trait RecursiveCognitionEngine {
    /// What initialization may return for a stimulus.
    spec fn init_result(&self, stimulus: StimulusModel, out: Result<
        CognitiveStateModel,
        Seq<char>,
    >) -> bool;

    /// What ethical assessment may return for a state.
    spec fn assess_result(&self, state: CognitiveStateModel, out: Result<
        CognitiveStateModel,
        Seq<char>,
    >) -> bool;

    /// What refinement may return for a state.
    spec fn refine_result(&self, state: CognitiveStateModel, out: Result<
        CognitiveStateModel,
        Seq<char>,
    >) -> bool;

    /// What self-validation may return for a state.
    spec fn validate_result(&self, state: CognitiveStateModel, out: Result<
        CognitiveStateModel,
        Seq<char>,
    >) -> bool;

    /// What feedback integration may return for a state and feedback.
    spec fn feedback_result(
        &self,
        state: CognitiveStateModel,
        feedback: FeedbackModel,
        out: Result<CognitiveStateModel, Seq<char>>,
    ) -> bool;

    /// What a full cycle may return for a stimulus.
    spec fn cycle_result(&self, stimulus: StimulusModel, out: Result<
        CognitiveStateModel,
        Seq<char>,
    >) -> bool;

    /// Builds the initial cognitive state for `stimulus`.
    fn initialize_state_from_stimulus(&self, stimulus: Stimulus) -> (r: Result<
        CognitiveState,
        String,
    >)
        ensures
            self.init_result(stimulus@, spec_state_result(r)),
    ;

    /// Attaches an ethical assessment to `state`.
    fn assess_ethics(&self, state: &CognitiveState) -> (r: Result<CognitiveState, String>)
        ensures
            self.assess_result(state@, spec_state_result(r)),
    ;

    /// Refines `state`'s hypothesis and confidence.
    fn refine_cognition(&self, state: &CognitiveState) -> (r: Result<CognitiveState, String>)
        ensures
            self.refine_result(state@, spec_state_result(r)),
    ;

    /// Validates `state`'s internal consistency.
    fn validate_self(&self, state: &CognitiveState) -> (r: Result<CognitiveState, String>)
        ensures
            self.validate_result(state@, spec_state_result(r)),
    ;

    /// Folds `feedback` into `state`.
    fn incorporate_feedback(&self, state: &CognitiveState, feedback: HumanFeedback) -> (r: Result<
        CognitiveState,
        String,
    >)
        ensures
            self.feedback_result(state@, feedback@, spec_state_result(r)),
    ;

    /// Runs one automated cycle on `stimulus`.
    fn execute_full_cycle(&self, stimulus: Stimulus) -> (r: Result<CognitiveState, String>)
        ensures
            self.cycle_result(stimulus@, spec_state_result(r)),
    ;
}

/// The production cognition engine: every step is the corresponding
/// `spec_*` transition and always succeeds.
pub struct BasicRecursiveCognitionEngine {}

impl RecursiveCognitionEngine for BasicRecursiveCognitionEngine {
    open spec fn init_result(&self, stimulus: StimulusModel, out: Result<
        CognitiveStateModel,
        Seq<char>,
    >) -> bool {
        out == Ok::<CognitiveStateModel, Seq<char>>(spec_initial_state(stimulus))
    }

    open spec fn assess_result(&self, state: CognitiveStateModel, out: Result<
        CognitiveStateModel,
        Seq<char>,
    >) -> bool {
        out == Ok::<CognitiveStateModel, Seq<char>>(spec_assessed(state))
    }

    open spec fn refine_result(&self, state: CognitiveStateModel, out: Result<
        CognitiveStateModel,
        Seq<char>,
    >) -> bool {
        out == Ok::<CognitiveStateModel, Seq<char>>(spec_refined(state))
    }

    open spec fn validate_result(&self, state: CognitiveStateModel, out: Result<
        CognitiveStateModel,
        Seq<char>,
    >) -> bool {
        out == Ok::<CognitiveStateModel, Seq<char>>(spec_validated(state))
    }

    open spec fn feedback_result(
        &self,
        state: CognitiveStateModel,
        feedback: FeedbackModel,
        out: Result<CognitiveStateModel, Seq<char>>,
    ) -> bool {
        out == Ok::<CognitiveStateModel, Seq<char>>(spec_with_feedback(state, feedback))
    }

    open spec fn cycle_result(&self, stimulus: StimulusModel, out: Result<
        CognitiveStateModel,
        Seq<char>,
    >) -> bool {
        out == Ok::<CognitiveStateModel, Seq<char>>(spec_full_cycle(stimulus))
    }

    fn initialize_state_from_stimulus(&self, stimulus: Stimulus) -> (r: Result<
        CognitiveState,
        String,
    >) {
        let mut state_id = "state_for_stimulus_".to_owned();
        state_id.append(stimulus.id.as_str());
        let mut hypothesis = "Initial hypothesis for stimulus: ".to_owned();
        hypothesis.append(stimulus.id.as_str());
        let mut history_log: Vec<String> = Vec::new();
        history_log.push("State initialized from stimulus".to_owned());
        let state = CognitiveState {
            state_id,
            stimulus_id: stimulus.id,
            current_hypothesis: hypothesis,
            confidence_level: 500_000,
            supporting_evidence_ids: Vec::new(),
            ethical_assessment: None,
            history_log,
        };
        proof {
            assert(state@ =~= spec_initial_state(stimulus@));
        }
        Ok(state)
    }

    fn assess_ethics(&self, state: &CognitiveState) -> (r: Result<CognitiveState, String>) {
        let mut new_state = state.clone();
        new_state.ethical_assessment = Some(
            EthicalAssessmentReport {
                pas_score: 920_000,
                ethical_concerns: Vec::new(),
                suggested_mitigations: Vec::new(),
                alignment_status: "Aligned (Mock)".to_owned(),
            },
        );
        new_state.history_log.push("Ethical assessment performed (mock)".to_owned());
        proof {
            assert(new_state@.ethical_assessment->0 =~= spec_mock_assessment());
            assert(new_state@ =~= spec_assessed(state@));
        }
        Ok(new_state)
    }

    fn refine_cognition(&self, state: &CognitiveState) -> (r: Result<CognitiveState, String>) {
        let mut new_state = state.clone();
        new_state.current_hypothesis.append(" (refined)");
        let capped: u32 = if state.confidence_level > 1_000_000 {
            1_000_000
        } else {
            state.confidence_level
        };
        new_state.confidence_level = capped * 11 / 10;
        new_state.history_log.push("Cognition refined (mock)".to_owned());
        proof {
            assert(new_state@ =~= spec_refined(state@));
        }
        Ok(new_state)
    }

    fn validate_self(&self, state: &CognitiveState) -> (r: Result<CognitiveState, String>) {
        let mut new_state = state.clone();
        new_state.history_log.push("Self-validation performed (mock)".to_owned());
        proof {
            assert(new_state@ =~= spec_validated(state@));
        }
        Ok(new_state)
    }

    fn incorporate_feedback(&self, state: &CognitiveState, feedback: HumanFeedback) -> (r: Result<
        CognitiveState,
        String,
    >) {
        let mut new_state = state.clone();
        new_state.current_hypothesis.append(" (feedback incorporated: ");
        new_state.current_hypothesis.append(feedback.feedback_content.as_str());
        new_state.current_hypothesis.append(")");
        let mut log_line = "Human feedback '".to_owned();
        log_line.append(feedback.feedback_id.as_str());
        log_line.append("' integrated (mock)");
        new_state.history_log.push(log_line);
        proof {
            assert(new_state@ =~= spec_with_feedback(state@, feedback@));
        }
        Ok(new_state)
    }

    fn execute_full_cycle(&self, stimulus: Stimulus) -> (r: Result<CognitiveState, String>) {
        let ghost stimulus_model = stimulus@;
        let state0 = match self.initialize_state_from_stimulus(stimulus) {
            Ok(s) => s,
            Err(e) => return Err(e),
        };
        let state1 = match self.assess_ethics(&state0) {
            Ok(s) => s,
            Err(e) => return Err(e),
        };
        let state2 = match self.refine_cognition(&state1) {
            Ok(s) => s,
            Err(e) => return Err(e),
        };
        let state3 = match self.validate_self(&state2) {
            Ok(s) => s,
            Err(e) => return Err(e),
        };
        Ok(state3)
    }
}

} // verus!
