use or4cl3_core::conversational_interface::BasicConversationalInterface;
use or4cl3_core::conversational_interface::Or4cl3ConversationalInterface;
use or4cl3_core::conversational_interface::UserQuery;
use or4cl3_core::recursive_cognition_engine::BasicRecursiveCognitionEngine;
use or4cl3_core::recursive_cognition_engine::CognitiveState;
use or4cl3_core::recursive_cognition_engine::CognitiveStateModel;
use or4cl3_core::recursive_cognition_engine::EthicalAssessmentReport;
use or4cl3_core::recursive_cognition_engine::FeedbackModel;
use or4cl3_core::recursive_cognition_engine::HumanFeedback;
use or4cl3_core::recursive_cognition_engine::RecursiveCognitionEngine;
use or4cl3_core::recursive_cognition_engine::Stimulus;
use or4cl3_core::recursive_cognition_engine::StimulusModel;
use vstd::seq::Seq;

struct MockEngine;

impl RecursiveCognitionEngine for MockEngine {
    // The `*_result` relations are the trait's ghost members; outside
    // verified code they are inert, so the mock answers them all false.
    fn init_result(
        &self,
        _stimulus: StimulusModel,
        _out: Result<CognitiveStateModel, Seq<char>>,
    ) -> bool {
        false
    }

    fn assess_result(
        &self,
        _state: CognitiveStateModel,
        _out: Result<CognitiveStateModel, Seq<char>>,
    ) -> bool {
        false
    }

    fn refine_result(
        &self,
        _state: CognitiveStateModel,
        _out: Result<CognitiveStateModel, Seq<char>>,
    ) -> bool {
        false
    }

    fn validate_result(
        &self,
        _state: CognitiveStateModel,
        _out: Result<CognitiveStateModel, Seq<char>>,
    ) -> bool {
        false
    }

    fn feedback_result(
        &self,
        _state: CognitiveStateModel,
        _feedback: FeedbackModel,
        _out: Result<CognitiveStateModel, Seq<char>>,
    ) -> bool {
        false
    }

    fn cycle_result(
        &self,
        _stimulus: StimulusModel,
        _out: Result<CognitiveStateModel, Seq<char>>,
    ) -> bool {
        false
    }

    fn initialize_state_from_stimulus(&self, stimulus: Stimulus) -> Result<CognitiveState, String> {
        Ok(CognitiveState {
            state_id: "mock_state_01".to_string(),
            stimulus_id: stimulus.id,
            current_hypothesis: "Mock hypothesis from mock engine.".to_string(),
            confidence_level: 850_000,
            supporting_evidence_ids: vec![],
            ethical_assessment: Some(EthicalAssessmentReport {
                pas_score: 950_000,
                ethical_concerns: vec!["Mock concern".to_string()],
                suggested_mitigations: vec![],
                alignment_status: "Aligned (Mock)".to_string(),
            }),
            history_log: vec!["Processed by MockEngine".to_string()],
        })
    }

    fn assess_ethics(&self, state: &CognitiveState) -> Result<CognitiveState, String> {
        Ok(state.clone())
    }

    fn refine_cognition(&self, state: &CognitiveState) -> Result<CognitiveState, String> {
        Ok(state.clone())
    }

    fn validate_self(&self, state: &CognitiveState) -> Result<CognitiveState, String> {
        Ok(state.clone())
    }

    fn incorporate_feedback(
        &self,
        state: &CognitiveState,
        _feedback: HumanFeedback,
    ) -> Result<CognitiveState, String> {
        Ok(state.clone())
    }

    fn execute_full_cycle(&self, stimulus: Stimulus) -> Result<CognitiveState, String> {
        self.initialize_state_from_stimulus(stimulus)
    }
}

#[test]
fn test_handle_user_query_with_mock_engine() {
    let mock_engine = MockEngine {};
    let interface = BasicConversationalInterface::new(mock_engine);

    let query = UserQuery {
        session_id: "session123".to_string(),
        query_id: "query001".to_string(),
        text: "Hello OR4CL3".to_string(),
        metadata: None,
    };
    let session_id = query.session_id.clone();
    let query_id = query.query_id.clone();

    let response_result = interface.handle_user_query(query);
    assert!(response_result.is_ok());
    let response = response_result.unwrap();

    assert_eq!(response.session_id, session_id);
    assert_eq!(response.response_to_query_id, query_id);
    assert_eq!(response.text_content, "Mock hypothesis from mock engine.");

    assert!(response.epistemic_uncertainty.is_some());
    let uncertainty = response.epistemic_uncertainty.unwrap();
    assert_eq!(uncertainty.level as f64 / 1_000_000.0, 0.85);

    assert!(response.ethical_reflection.is_some());
    let reflection = response.ethical_reflection.unwrap();
    assert_eq!(reflection.pas_score_snapshot.map(|v| v as f64 / 1_000_000.0), Some(0.95));
    assert!(reflection.summary.contains("Mock concern"));
}

#[test]
fn test_handle_user_query_with_basic_engine() {
    let basic_engine = BasicRecursiveCognitionEngine {};
    let interface = BasicConversationalInterface::new(basic_engine);

    let query = UserQuery {
        session_id: "session456".to_string(),
        query_id: "query002".to_string(),
        text: "Tell me a fact.".to_string(),
        metadata: None,
    };

    let response_result = interface.handle_user_query(query);
    assert!(response_result.is_ok());
    let response = response_result.unwrap();

    assert!(response.text_content.contains(
        "Initial hypothesis for stimulus: stimulus_for_query002 (refined)"
    ));
    assert!(response.ethical_reflection.is_some());
    let reflection = response.ethical_reflection.unwrap();
    assert_eq!(reflection.pas_score_snapshot.map(|v| v as f64 / 1_000_000.0), Some(0.92));
}

#[test]
fn test_response_diagnostics_count_history() {
    let interface = BasicConversationalInterface::new(BasicRecursiveCognitionEngine {});
    let query = UserQuery {
        session_id: "session789".to_string(),
        query_id: "query003".to_string(),
        text: "Count the steps.".to_string(),
        metadata: None,
    };
    let response = interface.handle_user_query(query).unwrap();
    assert_eq!(response.response_id, "response_to_query003");
    let diagnostics = response.diagnostic_info.unwrap();
    // One automated cycle logs four steps: init, assess, refine, validate.
    assert!(diagnostics.contains(&(
        "history_log_entries".to_string(),
        "4".to_string()
    )));
    assert!(diagnostics.contains(&(
        "state_id".to_string(),
        "state_for_stimulus_stimulus_for_query003".to_string()
    )));
    assert!(response.rich_content.is_none());
    assert_eq!(
        response.follow_up_suggestions,
        Some(vec!["Ask another question.".to_string()])
    );
}
