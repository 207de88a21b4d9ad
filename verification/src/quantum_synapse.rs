//! Neuro-semantic knowledge queries.
//!
//! The interface here answers knowledge-graph queries with a report
//! naming the query. Its companion capability, numeric refinement of
//! embedding vectors, is floating-point arithmetic and lives outside
//! this library.

use vstd::prelude::*;
use vstd::string::StringExecFns;

verus! {

/// The report produced for a knowledge-graph query.
pub open spec fn spec_query_report(query: Seq<char>) -> Seq<char> {
    "Mock result for knowledge graph query: "@ + query
}

/// A neuro-semantic processing unit over the knowledge graph.
pub struct QuantumSynapseInterface;

impl QuantumSynapseInterface {
    /// Answers `query` against the knowledge graph.
    pub fn query_knowledge_graph(&self, query: &str) -> (r: Result<String, String>)
        ensures
            r matches Ok(s) && s@ == spec_query_report(query@),
    {
        let mut s = "Mock result for knowledge graph query: ".to_owned();
        s.append(query);
        Ok(s)
    }
}

} // verus!
