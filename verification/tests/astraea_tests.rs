use or4cl3_core::astraea::AstraeaCoordinator;
use or4cl3_core::astraea::CognitiveMeshCoordinator;

#[test]
fn test_astraea_registration_and_get_state() {
    let mut astraea = AstraeaCoordinator::new();
    let agent_id = "agent1".to_string();
    let capabilities = vec!["data_analysis".to_string(), "learning".to_string()];

    astraea.register_agent(agent_id.clone(), capabilities.clone()).unwrap();

    let state = astraea.get_agent_state(&agent_id).unwrap();
    assert_eq!(state.agent_id, agent_id);
    assert_eq!(state.capabilities, capabilities);
    assert_eq!(state.status, "idle");
    assert_eq!(state.current_task, None);
}

#[test]
fn test_astraea_assign_task() {
    let mut astraea = AstraeaCoordinator::new();
    let agent_id = "agent2".to_string();
    astraea.register_agent(agent_id.clone(), vec!["processing".to_string()]).unwrap();

    let task_desc = "process dataset X";
    astraea.assign_task_to_agent(&agent_id, task_desc).unwrap();

    let state = astraea.get_agent_state(&agent_id).unwrap();
    assert_eq!(state.status, "processing");
    assert_eq!(state.current_task, Some(task_desc.to_string()));
}

#[test]
fn test_astraea_get_nonexistent_agent() {
    let astraea = AstraeaCoordinator::new();
    assert!(astraea.get_agent_state("unknown_agent").is_err());
}

#[test]
fn test_astraea_register_duplicate_agent() {
    let mut astraea = AstraeaCoordinator::new();
    let agent_id = "agent3".to_string();
    astraea.register_agent(agent_id.clone(), vec![]).unwrap();
    assert!(astraea.register_agent(agent_id, vec![]).is_err());
}

#[test]
fn test_astraea_broadcast() {
    let astraea = AstraeaCoordinator::new();
    assert!(astraea.broadcast_message_to_mesh("Test message").is_ok());
}

#[test]
fn test_astraea_error_messages() {
    let mut astraea = AstraeaCoordinator::new();
    astraea.register_agent("agent4".to_string(), vec![]).unwrap();
    let err = astraea.register_agent("agent4".to_string(), vec![]).unwrap_err();
    assert_eq!(err, "Agent agent4 already registered");
    let err = astraea.get_agent_state("ghostwriter").unwrap_err();
    assert_eq!(err, "Agent ghostwriter not found");
    let err = astraea.assign_task_to_agent("ghostwriter", "task").unwrap_err();
    assert_eq!(err, "Agent ghostwriter not found");
}
