use or4cl3_core::mythos_memory_core::stable_hash;
use or4cl3_core::mythos_memory_core::BasicMythosIntegrityGuard;
use or4cl3_core::mythos_memory_core::HistoricalClaim;
use or4cl3_core::mythos_memory_core::InMemoryMythosGraph;
use or4cl3_core::mythos_memory_core::MythosIntegrityGuard;
use or4cl3_core::mythos_memory_core::MythosKnowledgeGraph;
use or4cl3_core::mythos_memory_core::ProvenanceData;

fn claim(
    claim_id: &str,
    narrative: &str,
    tags: Vec<String>,
    signature: Option<&str>,
) -> HistoricalClaim {
    HistoricalClaim {
        claim_id: claim_id.to_string(),
        narrative_content: narrative.to_string(),
        source_description: "Archive record.".to_string(),
        cultural_context_tags: tags,
        provenance: ProvenanceData {
            document_id: "doc_100".to_string(),
            author_id: "author_100".to_string(),
            timestamp: 1678886400,
            cryptographic_signature: signature.map(|s| s.to_string()),
        },
    }
}

#[test]
fn test_basic_validation() {
    let guard = BasicMythosIntegrityGuard {};
    let claim = HistoricalClaim {
        claim_id: "test_claim_001".to_string(),
        narrative_content: "A test narrative.".to_string(),
        source_description: "Test source.".to_string(),
        cultural_context_tags: vec!["test".to_string()],
        provenance: ProvenanceData {
            document_id: "doc_001".to_string(),
            author_id: "author_001".to_string(),
            timestamp: 1678886400,
            cryptographic_signature: Some("dummy_sig".to_string()),
        },
    };

    let result = guard.validate_historical_claim(&claim);
    assert!(result.is_ok());
    let score = result.unwrap();
    let overall = score.overall_score as f64 / 1_000_000.0;
    assert!(overall > 0.0 && overall <= 1.0);
    assert_eq!(score.score_breakdown.len(), 4);
    assert!(score.score_breakdown.get("cryptographic_signature_valid").is_some());
}

#[test]
fn test_validation_no_signature() {
    let guard = BasicMythosIntegrityGuard {};
    let claim = HistoricalClaim {
        claim_id: "test_claim_002".to_string(),
        narrative_content: "Another test narrative.".to_string(),
        source_description: "Another test source.".to_string(),
        cultural_context_tags: vec!["test".to_string()],
        provenance: ProvenanceData {
            document_id: "doc_002".to_string(),
            author_id: "author_002".to_string(),
            timestamp: 1678886401,
            cryptographic_signature: None,
        },
    };

    let result = guard.validate_historical_claim(&claim);
    assert!(result.is_ok());
    let score = result.unwrap();
    let crypto_score = score.score_breakdown.get("cryptographic_signature_valid").unwrap();
    assert!((crypto_score as f64 / 1_000_000.0) < 0.5);
}

#[test]
fn test_score_and_confidence_ranges() {
    let guard = BasicMythosIntegrityGuard {};
    let claims = [
        claim("range_a", "", vec![], None),
        claim("range_b", &"historical policy rights ".repeat(8), vec![], Some("sig")),
        claim("range_c", "A short note.", vec!["tag".to_string()], None),
    ];
    for c in claims.iter() {
        let score = guard.validate_historical_claim(c).unwrap();
        let overall = score.overall_score as f64 / 1_000_000.0;
        let confidence = score.confidence as f64 / 1_000_000.0;
        assert!((0.0..=1.0).contains(&overall));
        assert!((0.0..=0.95).contains(&confidence));
    }
}

#[test]
fn test_breakdown_key_set() {
    let guard = BasicMythosIntegrityGuard {};
    let score = guard.validate_historical_claim(&claim("keys", "text", vec![], None)).unwrap();
    let b = &score.score_breakdown;
    assert_eq!(b.len(), 4);
    assert!(b.get("cryptographic_signature_valid").is_some());
    assert!(b.get("historical_consistency_score").is_some());
    assert!(b.get("expert_consensus_score").is_some());
    assert!(b.get("narrative_coherence_score").is_some());
    assert!(b.get("overall").is_none());
    assert!(b.get("").is_none());
}

#[test]
fn test_scoring_is_deterministic() {
    let guard = BasicMythosIntegrityGuard {};
    let c = claim("determinism_claim", "A policy narrative about rights.", vec![], Some("sig"));
    let s1 = guard.validate_historical_claim(&c).unwrap();
    let s2 = guard.validate_historical_claim(&c).unwrap();
    assert_eq!(s1.overall_score, s2.overall_score);
    assert_eq!(s1.confidence, s2.confidence);
    assert_eq!(s1.score_breakdown, s2.score_breakdown);
    assert_eq!(s1.validation_notes, s2.validation_notes);
}

#[test]
fn test_signature_monotonicity() {
    let guard = BasicMythosIntegrityGuard {};
    let signed = claim("mono_claim", "A narrative.", vec![], Some("sig"));
    let unsigned = claim("mono_claim", "A narrative.", vec![], None);
    let s_signed = guard.validate_historical_claim(&signed).unwrap();
    let s_unsigned = guard.validate_historical_claim(&unsigned).unwrap();
    assert_eq!(
        s_signed.score_breakdown.cryptographic_signature_valid as f64 / 1_000_000.0,
        0.95
    );
    assert_eq!(
        s_unsigned.score_breakdown.cryptographic_signature_valid as f64 / 1_000_000.0,
        0.05
    );
    assert!(s_signed.overall_score >= s_unsigned.overall_score);
    assert!(s_signed.overall_score > s_unsigned.overall_score);
}

#[test]
fn test_scenario_short_unsigned_narrative() {
    let guard = BasicMythosIntegrityGuard {};
    // "A test narrative." is 17 characters long and holds no keyword.
    let c = claim("scenario_one", "A test narrative.", vec![], None);
    let score = guard.validate_historical_claim(&c).unwrap();
    let b = &score.score_breakdown;
    assert_eq!(b.historical_consistency_score as f64 / 1_000_000.0, 0.50);
    assert_eq!(b.cryptographic_signature_valid as f64 / 1_000_000.0, 0.05);
    assert_eq!(b.narrative_coherence_score as f64 / 1_000_000.0, 0.60);
    let expected_expert = 400_000 + (stable_hash("scenario_one") % 4) as u32 * 100_000;
    assert_eq!(b.expert_consensus_score, expected_expert);
    let weighted = b.cryptographic_signature_valid * 30 + b.historical_consistency_score * 25
        + b.expert_consensus_score * 25 + b.narrative_coherence_score * 20;
    assert_eq!(score.overall_score, weighted / 100);
    assert_eq!(score.confidence, 600_000 + score.overall_score / 4);
}

#[test]
fn test_scenario_long_signed_keyword_narrative() {
    let guard = BasicMythosIntegrityGuard {};
    let narrative = "historical policy rights ".repeat(8);
    assert!(narrative.chars().count() >= 150);
    let c = claim("scenario_two", &narrative, vec![], Some("sig"));
    let score = guard.validate_historical_claim(&c).unwrap();
    let b = &score.score_breakdown;
    assert_eq!(b.historical_consistency_score as f64 / 1_000_000.0, 0.70);
    assert_eq!(b.narrative_coherence_score as f64 / 1_000_000.0, 0.75);
    assert_eq!(b.cryptographic_signature_valid as f64 / 1_000_000.0, 0.95);
}

#[test]
fn test_keywords_matched_case_insensitively() {
    let guard = BasicMythosIntegrityGuard {};
    let c = claim("keyword_case", "POLICY and RiGhTs in a HISTORICAL light", vec![], None);
    let score = guard.validate_historical_claim(&c).unwrap();
    assert_eq!(score.score_breakdown.narrative_coherence_score as f64 / 1_000_000.0, 0.75);
}

#[test]
fn test_validation_note_records_claim_id() {
    let guard = BasicMythosIntegrityGuard {};
    let score = guard.validate_historical_claim(&claim("noted_claim", "text", vec![], None)).unwrap();
    assert_eq!(score.validation_notes, vec!["Validated claim: noted_claim".to_string()]);
}

#[test]
fn test_expert_bonus_range() {
    let guard = BasicMythosIntegrityGuard {};
    for id in ["a", "b", "c", "some_longer_claim_id", ""] {
        let score = guard.validate_historical_claim(&claim(id, "text", vec![], None)).unwrap();
        let expert = score.score_breakdown.expert_consensus_score;
        assert!(expert == 400_000 || expert == 500_000 || expert == 600_000 || expert == 700_000);
    }
}

#[test]
fn test_graph_add_then_get_roundtrip() {
    let mut graph = InMemoryMythosGraph::new();
    let c = claim("roundtrip_001", "A narrative to persist.", vec!["ctx".to_string()], Some("sig"));
    let id = graph.add_historical_claim(&c).unwrap();
    assert_eq!(id, "roundtrip_001");
    let fetched = graph.get_historical_claim_by_id("roundtrip_001").unwrap().unwrap();
    assert_eq!(fetched.claim_id, c.claim_id);
    assert_eq!(fetched.narrative_content, c.narrative_content);
    assert_eq!(fetched.source_description, c.source_description);
    assert_eq!(fetched.cultural_context_tags, c.cultural_context_tags);
    assert_eq!(fetched.provenance.document_id, c.provenance.document_id);
    assert_eq!(fetched.provenance.author_id, c.provenance.author_id);
    assert_eq!(fetched.provenance.timestamp, c.provenance.timestamp);
    assert_eq!(fetched.provenance.cryptographic_signature, c.provenance.cryptographic_signature);
}

#[test]
fn test_graph_upsert_replaces_by_id() {
    let mut graph = InMemoryMythosGraph::new();
    graph.add_historical_claim(&claim("upsert_001", "First telling.", vec![], None)).unwrap();
    graph.add_historical_claim(&claim("upsert_001", "Second telling.", vec![], None)).unwrap();
    let fetched = graph.get_historical_claim_by_id("upsert_001").unwrap().unwrap();
    assert_eq!(fetched.narrative_content, "Second telling.");
}

#[test]
fn test_graph_get_unknown_claim_is_none() {
    let graph = InMemoryMythosGraph::new();
    let result = graph.get_historical_claim_by_id("unknown_claim_999");
    assert!(result.is_ok());
    assert!(result.unwrap().is_none());
}

#[test]
fn test_graph_unknown_queries_are_empty() {
    let graph = InMemoryMythosGraph::new();
    let related = graph.get_related_narratives("some_claim_id", "SUPPORTS").unwrap();
    assert!(related.is_empty());
    let tagged = graph.get_narratives_by_context_tag("some_context_tag").unwrap();
    assert!(tagged.is_empty());
}

#[test]
fn test_graph_context_tag_selects_tagged_claims() {
    let mut graph = InMemoryMythosGraph::new();
    graph
        .add_historical_claim(&claim("tagged_a", "First.", vec!["urban".to_string()], None))
        .unwrap();
    graph
        .add_historical_claim(&claim("tagged_b", "Second.", vec!["rural".to_string()], None))
        .unwrap();
    graph
        .add_historical_claim(
            &claim("tagged_c", "Third.", vec!["rural".to_string(), "urban".to_string()], None),
        )
        .unwrap();
    let urban = graph.get_narratives_by_context_tag("urban").unwrap();
    let ids: Vec<&str> = urban.iter().map(|c| c.claim_id.as_str()).collect();
    assert_eq!(ids, vec!["tagged_a", "tagged_c"]);
}

#[test]
fn test_graph_duplicate_tags_list_claim_once() {
    let mut graph = InMemoryMythosGraph::new();
    graph
        .add_historical_claim(
            &claim("dup_tags", "Text.", vec!["urban".to_string(), "urban".to_string()], None),
        )
        .unwrap();
    let urban = graph.get_narratives_by_context_tag("urban").unwrap();
    assert_eq!(urban.len(), 1);
    assert_eq!(urban[0].claim_id, "dup_tags");
}

#[test]
fn test_stable_hash_is_stable() {
    let h1 = stable_hash("test_claim_001");
    let h2 = stable_hash("test_claim_001");
    assert_eq!(h1, h2);
    // FNV-1a of the empty string is the offset basis.
    assert_eq!(stable_hash(""), 0xcbf29ce484222325);
}
