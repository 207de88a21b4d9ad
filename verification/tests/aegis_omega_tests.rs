use or4cl3_core::aegis_omega::AegisCore;
use or4cl3_core::aegis_omega::AegisOmegaSystem;
use or4cl3_core::recursive_cognition_engine::Stimulus;
use or4cl3_core::recursive_cognition_engine::StimulusContent;

#[test]
fn test_aegis_pas_score() {
    let aegis = AegisOmegaSystem {};
    assert_eq!(aegis.get_system_pas_score().unwrap_or(0) as f64 / 1_000_000.0, 0.95);
}

#[test]
fn test_process_stimulus_mock() {
    let aegis = AegisOmegaSystem {};
    let test_stimulus = Stimulus {
        id: "test_stim_id".to_string(),
        content: StimulusContent::Text("Test stimulus content".to_string()),
        metadata: Vec::new(),
    };
    let result = aegis.process_stimulus_with_ethical_guidance(test_stimulus);
    assert!(result.is_err());
}

#[test]
fn test_guidance_unavailable_message() {
    let aegis = AegisOmegaSystem {};
    let stimulus = Stimulus {
        id: "stim_msg".to_string(),
        content: StimulusContent::Text("content".to_string()),
        metadata: Vec::new(),
    };
    let err = aegis.process_stimulus_with_ethical_guidance(stimulus).unwrap_err();
    assert_eq!(err, "AEGIS-\u{03a9} process_stimulus_with_ethical_guidance not implemented");
}

#[test]
fn test_update_ethical_framework_accepts() {
    let aegis = AegisOmegaSystem {};
    assert!(aegis.update_ethical_framework("framework v2".to_string()).is_ok());
}
