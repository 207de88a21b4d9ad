//! Central ethical governance.
//!
//! The governing system reports the overall phase-autonomous sovereignty
//! score and accepts ethical-framework updates. Full stimulus processing
//! under ethical guidance is not wired up in this core and is reported
//! as such.

use vstd::prelude::*;
use vstd::string::StringExecFns;

use crate::recursive_cognition_engine::CognitiveState;
use crate::recursive_cognition_engine::CognitiveStateModel;
use crate::recursive_cognition_engine::spec_state_result;
use crate::recursive_cognition_engine::Stimulus;
use crate::recursive_cognition_engine::StimulusModel;
use crate::scores::Micros;

verus! {

/// The message reported while guided stimulus processing is not wired
/// up.
pub open spec fn spec_guidance_unavailable_message() -> Seq<char> {
    "AEGIS-\u{03a9} process_stimulus_with_ethical_guidance not implemented"@
}

/// The central governing intelligence. Each implementation fixes its
/// outcomes through the `*_result` relations.
pub trait AegisCore {
    /// What guided stimulus processing may return.
    spec fn guidance_result(&self, stimulus: StimulusModel, out: Result<
        CognitiveStateModel,
        Seq<char>,
    >) -> bool;

    /// What the sovereignty-score query may return.
    spec fn pas_score_result(&self, out: Result<Micros, Seq<char>>) -> bool;

    /// What a framework update may return.
    spec fn update_result(&self, configuration: Seq<char>, out: Result<(), Seq<char>>) -> bool;

    /// Processes `stimulus` through the full ethical cognition cycle.
    fn process_stimulus_with_ethical_guidance(&self, stimulus: Stimulus) -> (r: Result<
        CognitiveState,
        String,
    >)
        ensures
            self.guidance_result(stimulus@, spec_state_result(r)),
    ;

    /// The current overall phase-autonomous sovereignty score, a fixed
    /// point fraction of one (see [`crate::scores`]).
    fn get_system_pas_score(&self) -> (r: Result<Micros, String>)
        ensures
            self.pas_score_result(
                match r {
                    Ok(v) => Ok(v),
                    Err(e) => Err(e@),
                },
            ),
    ;

    /// Loads or updates ethical policies or stakeholder configuration.
    fn update_ethical_framework(&self, framework_configuration: String) -> (r: Result<(), String>)
        ensures
            self.update_result(
                framework_configuration@,
                match r {
                    Ok(v) => Ok(v),
                    Err(e) => Err(e@),
                },
            ),
    ;
}

/// The production governing system: reports a sovereignty score of
/// `0.95`, accepts every framework update, and declines guided stimulus
/// processing with a message.
pub struct AegisOmegaSystem {}

impl AegisCore for AegisOmegaSystem {
    /// Guided processing is not wired up: always the unavailable
    /// message.
    open spec fn guidance_result(&self, stimulus: StimulusModel, out: Result<
        CognitiveStateModel,
        Seq<char>,
    >) -> bool {
        out == Err::<CognitiveStateModel, Seq<char>>(spec_guidance_unavailable_message())
    }

    /// The score is always `0.95`.
    open spec fn pas_score_result(&self, out: Result<Micros, Seq<char>>) -> bool {
        out == Ok::<Micros, Seq<char>>(950_000 as Micros)
    }

    /// Updates always succeed.
    open spec fn update_result(&self, configuration: Seq<char>, out: Result<(), Seq<char>>) -> bool {
        out == Ok::<(), Seq<char>>(())
    }

    fn process_stimulus_with_ethical_guidance(&self, stimulus: Stimulus) -> (r: Result<
        CognitiveState,
        String,
    >) {
        Err("AEGIS-\u{03a9} process_stimulus_with_ethical_guidance not implemented".to_owned())
    }

    fn get_system_pas_score(&self) -> (r: Result<Micros, String>) {
        Ok(950_000)
    }

    fn update_ethical_framework(&self, framework_configuration: String) -> (r: Result<(), String>) {
        Ok(())
    }
}

} // verus!
