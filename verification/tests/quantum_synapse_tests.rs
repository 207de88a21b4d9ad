use or4cl3_core::quantum_synapse::QuantumSynapseInterface;

#[test]
fn test_qs_knowledge_query() {
    let qs = QuantumSynapseInterface;
    let query = "What is the meaning of life?";
    let result = qs.query_knowledge_graph(query).unwrap();
    assert!(result.contains(query));
    assert!(result.starts_with("Mock result"));
}
