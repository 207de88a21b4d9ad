//! Civic analysis and policy simulation.
//!
//! The engine validates its inputs — an empty corpus id or policy
//! description is rejected with a message — and otherwise answers with a
//! report naming the inputs, standing in for a full analysis pipeline.

use vstd::prelude::*;
use vstd::string::StringExecFns;

verus! {

/// The report produced for a civic-data analysis.
pub open spec fn spec_analysis_report(data_corpus_id: Seq<char>) -> Seq<char> {
    "Mock analysis report for data corpus: "@ + data_corpus_id
}

/// The report produced for a policy simulation.
pub open spec fn spec_simulation_report(policy: Seq<char>, parameters: Seq<char>) -> Seq<char> {
    "Mock simulation result for policy: '"@ + policy + "' with parameters: '"@ + parameters + "'"@
}

/// Large-scale collective intelligence for civic applications.
pub trait CivicSuperintelligence {
    /// Analyzes the civic data corpus `data_corpus_id`. An empty corpus
    /// id is rejected; any other yields the analysis report.
    fn analyze_civic_data(&self, data_corpus_id: &str) -> (r: Result<String, String>)
        ensures
            data_corpus_id@.len() == 0 ==> (r matches Err(e) && e@
                == "Data corpus ID cannot be empty"@),
            data_corpus_id@.len() > 0 ==> (r matches Ok(s) && s@ == spec_analysis_report(
                data_corpus_id@,
            )),
    ;

    /// Simulates the impact of the proposed policy. An empty policy
    /// description is rejected; any other yields the simulation report.
    fn simulate_policy_impact(&self, policy_description: &str, simulation_parameters: &str) -> (r:
        Result<String, String>)
        ensures
            policy_description@.len() == 0 ==> (r matches Err(e) && e@
                == "Policy description cannot be empty"@),
            policy_description@.len() > 0 ==> (r matches Ok(s) && s@ == spec_simulation_report(
                policy_description@,
                simulation_parameters@,
            )),
    ;
}

/// The production civic analysis engine.
pub struct Synth3sisEngine;

impl CivicSuperintelligence for Synth3sisEngine {
    fn analyze_civic_data(&self, data_corpus_id: &str) -> (r: Result<String, String>) {
        if data_corpus_id.is_empty() {
            return Err("Data corpus ID cannot be empty".to_owned());
        }
        let mut s = "Mock analysis report for data corpus: ".to_owned();
        s.append(data_corpus_id);
        Ok(s)
    }

    fn simulate_policy_impact(&self, policy_description: &str, simulation_parameters: &str) -> (r:
        Result<String, String>) {
        if policy_description.is_empty() {
            return Err("Policy description cannot be empty".to_owned());
        }
        let mut s = "Mock simulation result for policy: '".to_owned();
        s.append(policy_description);
        s.append("' with parameters: '");
        s.append(simulation_parameters);
        s.append("'");
        Ok(s)
    }
}

} // verus!
