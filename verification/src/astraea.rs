//! Cognitive mesh coordination.
//!
//! A registry of autonomous agents keyed by agent id: agents are
//! registered once, assigned tasks, and queried for their current
//! state. Registration of a known id and lookup of an unknown id fail
//! with a message naming the agent.

use vstd::prelude::*;
use vstd::string::StringExecFns;

use crate::text;

verus! {

/// Mathematical model of [`AgentState`].
#[verifier::ext_equal]
pub ghost struct AgentModel {
    pub agent_id: Seq<char>,
    pub status: Seq<char>,
    pub current_task: Option<Seq<char>>,
    pub capabilities: Seq<Seq<char>>,
}

/// One agent in the mesh: its id, a status word, the task it is working
/// on (if any) and its capability labels.
#[derive(Debug, PartialEq)]
pub struct AgentState {
    pub agent_id: String,
    pub status: String,
    pub current_task: Option<String>,
    pub capabilities: Vec<String>,
}

impl View for AgentState {
    type V = AgentModel;

    open spec fn view(&self) -> AgentModel {
        AgentModel {
            agent_id: self.agent_id@,
            status: self.status@,
            current_task: match self.current_task {
                Some(t) => Some(t@),
                None => None,
            },
            capabilities: self.capabilities.deep_view(),
        }
    }
}

impl Clone for AgentState {
    fn clone(&self) -> (res: Self)
        ensures
            res@ == self@,
    {
        AgentState {
            agent_id: self.agent_id.clone(),
            status: self.status.clone(),
            current_task: match &self.current_task {
                Some(t) => Some(t.clone()),
                None => None,
            },
            capabilities: text::clone_strings(&self.capabilities),
        }
    }
}

/// The models of a sequence of agent states.
pub open spec fn spec_agent_models(s: Seq<AgentState>) -> Seq<AgentModel> {
    s.map_values(|a: AgentState| a@)
}

/// The position of the first agent with id `id` in `s`, or `s.len()`
/// when no agent has that id.
pub open spec fn spec_agent_index(s: Seq<AgentModel>, id: Seq<char>) -> int
    decreases s.len(),
{
    if s.len() == 0 {
        0
    } else if s[0].agent_id == id {
        0
    } else {
        1 + spec_agent_index(s.drop_first(), id)
    }
}

/// Whether some agent in `s` has id `id`.
pub open spec fn spec_has_agent(s: Seq<AgentModel>, id: Seq<char>) -> bool {
    spec_agent_index(s, id) < s.len()
}

/// `spec_agent_index` lies in `0 ..= s.len()`, points at an agent with
/// the sought id when within bounds, and nothing before it has that id.
pub proof fn lemma_agent_index_bounds(s: Seq<AgentModel>, id: Seq<char>)
    ensures
        0 <= spec_agent_index(s, id) <= s.len(),
        spec_agent_index(s, id) < s.len() ==> s[spec_agent_index(s, id)].agent_id == id,
        forall|k: int| 0 <= k < spec_agent_index(s, id) ==> s[k].agent_id != id,
    decreases s.len(),
{
    if s.len() > 0 && s[0].agent_id != id {
        lemma_agent_index_bounds(s.drop_first(), id);
        assert forall|k: int| 0 <= k < spec_agent_index(s, id) implies s[k].agent_id != id by {
            if k > 0 {
                assert(s.drop_first()[k - 1] == s[k]);
            }
        }
    }
}

/// A position whose agent has the sought id, with no earlier match, is
/// exactly `spec_agent_index`.
pub proof fn lemma_agent_index_of_first_match(s: Seq<AgentModel>, id: Seq<char>, j: int)
    requires
        0 <= j < s.len(),
        s[j].agent_id == id,
        forall|k: int| 0 <= k < j ==> s[k].agent_id != id,
    ensures
        spec_agent_index(s, id) == j,
    decreases s.len(),
{
    if j > 0 {
        lemma_agent_index_of_first_match(s.drop_first(), id, j - 1);
    }
}

/// When no agent in `s` has the sought id, `spec_agent_index` is
/// `s.len()`.
pub proof fn lemma_agent_index_of_no_match(s: Seq<AgentModel>, id: Seq<char>)
    requires
        forall|k: int| 0 <= k < s.len() ==> s[k].agent_id != id,
    ensures
        spec_agent_index(s, id) == s.len(),
    decreases s.len(),
{
    if s.len() > 0 {
        lemma_agent_index_of_no_match(s.drop_first(), id);
    }
}

/// The state a freshly registered agent starts in.
pub open spec fn spec_fresh_agent(id: Seq<char>, capabilities: Seq<Seq<char>>) -> AgentModel {
    AgentModel { agent_id: id, status: "idle"@, current_task: None, capabilities }
}

/// `a` after a task assignment: working on `task`, status `processing`.
pub open spec fn spec_assigned(a: AgentModel, task: Seq<char>) -> AgentModel {
    AgentModel { status: "processing"@, current_task: Some(task), ..a }
}

/// The message reported when `id` is registered twice.
pub open spec fn spec_already_registered_message(id: Seq<char>) -> Seq<char> {
    "Agent "@ + id + " already registered"@
}

/// The message reported when `id` is not in the mesh.
pub open spec fn spec_not_found_message(id: Seq<char>) -> Seq<char> {
    "Agent "@ + id + " not found"@
}

/// Management of a mesh of autonomous agents. Implementations expose
/// their registry through [`CognitiveMeshCoordinator::agents`]:
/// registration appends a fresh idle agent and refuses a known id, task
/// assignment updates exactly the addressed agent, and lookups never
/// mutate the registry.
pub trait CognitiveMeshCoordinator {
    /// The registered agents, in registration order.
    spec fn agents(&self) -> Seq<AgentModel>;

    /// Registers a new agent with the given capabilities; refuses an id
    /// that is already registered.
    fn register_agent(&mut self, agent_id: String, capabilities: Vec<String>) -> (r: Result<
        (),
        String,
    >)
        ensures
            spec_has_agent(old(self).agents(), agent_id@) ==> (r matches Err(e) && e@
                == spec_already_registered_message(agent_id@) && final(self).agents() == old(
                self,
            ).agents()),
            !spec_has_agent(old(self).agents(), agent_id@) ==> r is Ok && final(self).agents()
                == old(self).agents().push(spec_fresh_agent(agent_id@, capabilities.deep_view())),
    ;

    /// Hands `task_description` to the agent `agent_id`; fails when the
    /// id is unknown.
    fn assign_task_to_agent(&mut self, agent_id: &str, task_description: &str) -> (r: Result<
        (),
        String,
    >)
        ensures
            spec_has_agent(old(self).agents(), agent_id@) ==> r is Ok && final(self).agents()
                == old(self).agents().update(
                spec_agent_index(old(self).agents(), agent_id@),
                spec_assigned(
                    old(self).agents()[spec_agent_index(old(self).agents(), agent_id@)],
                    task_description@,
                ),
            ),
            !spec_has_agent(old(self).agents(), agent_id@) ==> (r matches Err(e) && e@
                == spec_not_found_message(agent_id@) && final(self).agents() == old(self).agents()),
    ;

    /// The current state of the agent `agent_id`; fails when the id is
    /// unknown.
    fn get_agent_state(&self, agent_id: &str) -> (r: Result<AgentState, String>)
        ensures
            spec_has_agent(self.agents(), agent_id@) ==> (r matches Ok(a) && a@ == self.agents()[
                spec_agent_index(self.agents(), agent_id@)
            ] && a@.agent_id == agent_id@),
            !spec_has_agent(self.agents(), agent_id@) ==> (r matches Err(e) && e@
                == spec_not_found_message(agent_id@)),
    ;

    /// Sends `message` to every agent in the mesh.
    fn broadcast_message_to_mesh(&self, message: &str) -> (r: Result<(), String>)
        ensures
            r is Ok,
    ;
}

/// The production mesh coordinator: an in-process registry of agents in
/// registration order.
pub struct AstraeaCoordinator {
    agents: Vec<AgentState>,
}

impl AstraeaCoordinator {
    /// An empty mesh.
    pub fn new() -> (c: Self)
        ensures
            c.agents() == Seq::<AgentModel>::empty(),
    {
        let c = AstraeaCoordinator { agents: Vec::new() };
        proof {
            assert(c.agents() =~= Seq::<AgentModel>::empty());
        }
        c
    }
}

fn find_agent(agents: &Vec<AgentState>, agent_id: &str) -> (i: usize)
    ensures
        i == spec_agent_index(spec_agent_models(agents@), agent_id@),
{
    let ghost models = spec_agent_models(agents@);
    let mut i: usize = 0;
    while i < agents.len()
        invariant
            models == spec_agent_models(agents@),
            models.len() == agents@.len(),
            i <= agents@.len(),
            forall|k: int| 0 <= k < i ==> models[k].agent_id != agent_id@,
        decreases agents@.len() - i,
    {
        if text::str_eq(agents[i].agent_id.as_str(), agent_id) {
            proof {
                lemma_agent_index_of_first_match(models, agent_id@, i as int);
            }
            return i;
        }
        i = i + 1;
    }
    proof {
        lemma_agent_index_of_no_match(models, agent_id@);
    }
    i
}

impl CognitiveMeshCoordinator for AstraeaCoordinator {
    closed spec fn agents(&self) -> Seq<AgentModel> {
        spec_agent_models(self.agents@)
    }

    fn register_agent(&mut self, agent_id: String, capabilities: Vec<String>) -> (r: Result<
        (),
        String,
    >) {
        let i = find_agent(&self.agents, agent_id.as_str());
        if i < self.agents.len() {
            let mut e = "Agent ".to_owned();
            e.append(agent_id.as_str());
            e.append(" already registered");
            return Err(e);
        }
        let state = AgentState {
            agent_id,
            status: "idle".to_owned(),
            current_task: None,
            capabilities,
        };
        let ghost olds = self.agents();
        let ghost fresh = state@;
        self.agents.push(state);
        proof {
            assert(self.agents() =~= olds.push(fresh));
        }
        Ok(())
    }

    fn assign_task_to_agent(&mut self, agent_id: &str, task_description: &str) -> (r: Result<
        (),
        String,
    >) {
        let i = find_agent(&self.agents, agent_id);
        if i >= self.agents.len() {
            let mut e = "Agent ".to_owned();
            e.append(agent_id);
            e.append(" not found");
            return Err(e);
        }
        let ghost olds = self.agents();
        let found = &self.agents[i];
        let updated = AgentState {
            agent_id: found.agent_id.clone(),
            status: "processing".to_owned(),
            current_task: Some(task_description.to_owned()),
            capabilities: text::clone_strings(&found.capabilities),
        };
        let ghost target = updated@;
        self.agents.set(i, updated);
        proof {
            assert(target =~= spec_assigned(olds[i as int], task_description@));
            assert(self.agents() =~= olds.update(i as int, target));
        }
        Ok(())
    }

    fn get_agent_state(&self, agent_id: &str) -> (r: Result<AgentState, String>) {
        let i = find_agent(&self.agents, agent_id);
        if i < self.agents.len() {
            proof {
                lemma_agent_index_bounds(self.agents(), agent_id@);
            }
            Ok(self.agents[i].clone())
        } else {
            let mut e = "Agent ".to_owned();
            e.append(agent_id);
            e.append(" not found");
            Err(e)
        }
    }

    fn broadcast_message_to_mesh(&self, message: &str) -> (r: Result<(), String>) {
        Ok(())
    }
}

} // verus!
