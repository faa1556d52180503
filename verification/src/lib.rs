//! Agent SDK core: typed values, agent schemas, registries, instance ids,
//! method dispatch and the import plan of the discovery linker.

use crate::agent::Agent;
use crate::schema::{AgentType, StatusUpdate};
use crate::value::{models, TypedValue};
use std::sync::Arc;
use vstd::prelude::*;

pub mod agent;
pub mod agent_construct;
pub mod agent_impl_resolver;
pub mod agent_instance_counter;
pub mod agent_instance_registry;
pub mod agent_registry;
pub mod component;
pub mod construct;
pub mod declaration;
pub mod descriptor;
pub mod dispatch;
pub mod linker;
pub mod metadata;
pub mod name_map;
pub mod naming;
pub mod remote;
pub mod schema;
pub mod text;
pub mod type_mapping;
pub mod value;

verus! {

/// An agent implementation bound to its instance id.
pub struct ResolvedAgent {
    pub agent: Arc<dyn Agent>,
    pub agent_id: String,
}

impl ResolvedAgent {
    /// The instance id.
    pub fn get_id(&self) -> (r: String)
        ensures
            r@ == self.agent_id@,
    {
        self.agent_id.clone()
    }

    /// Invokes a method of the agent: the implementation is called with the
    /// method name and the arguments as they are, and its answer is the
    /// result.
    pub fn invoke(&self, method_name: String, input: Vec<TypedValue>) -> (status: StatusUpdate)
        ensures
            self.agent.answers(method_name@, models(input@), status),
    {
        self.agent.invoke(method_name, input)
    }

    /// The schema that the implementation reports for itself.
    pub fn get_definition(&self) -> (definition: AgentType)
        ensures
            self.agent.reports_definition(definition),
    {
        self.agent.get_definition()
    }
}

} // verus!
