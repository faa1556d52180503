//! Agent schemas: what an agent type offers, and the result of invoking it.

use crate::descriptor::{descriptor_models, duplicate_descriptors, field_descriptor_models,
    DescriptorModel, TypeDescriptor};
use crate::text::{decimal, decimal_string, join_names, joined, texts};
use crate::value::TypedValue;
use vstd::prelude::*;
use vstd::string::StringExecFns;

verus! {

/// Copies of the given strings, in order.
pub fn duplicate_names(names: &Vec<String>) -> (r: Vec<String>)
    ensures
        texts(r@) == texts(names@),
{
    let mut copy: Vec<String> = Vec::new();
    let mut i: usize = 0;
    while i < names.len()
        invariant
            i <= names.len(),
            copy.len() == i,
            forall|j: int| 0 <= j < i ==> copy[j]@ == names[j]@,
        decreases names.len() - i,
    {
        copy.push(names[i].clone());
        i = i + 1;
    }
    assert(texts(copy@) =~= texts(names@));
    copy
}

/// One invocable method of an agent type.
///
/// The name is kept in canonical form; it is the token that callers pass to
/// invoke the method.
#[derive(Debug, PartialEq, Eq)]
pub struct AgentMethod {
    pub name: String,
    pub description: String,
    pub input_schema: Vec<TypeDescriptor>,
    pub output_schema: Vec<TypeDescriptor>,
}

/// What an `AgentMethod` denotes.
pub ghost struct AgentMethodView {
    pub name: Seq<char>,
    pub description: Seq<char>,
    pub input_schema: Seq<DescriptorModel>,
    pub output_schema: Seq<DescriptorModel>,
}

impl View for AgentMethod {
    type V = AgentMethodView;

    open spec fn view(&self) -> AgentMethodView {
        AgentMethodView {
            name: self.name@,
            description: self.description@,
            input_schema: descriptor_models(self.input_schema@),
            output_schema: descriptor_models(self.output_schema@),
        }
    }
}

impl AgentMethod {
    /// A deep copy of this method.
    pub fn duplicate(&self) -> (r: AgentMethod)
        ensures
            r@ == self@,
    {
        AgentMethod {
            name: self.name.clone(),
            description: self.description.clone(),
            input_schema: duplicate_descriptors(&self.input_schema),
            output_schema: duplicate_descriptors(&self.output_schema),
        }
    }
}

impl Clone for AgentMethod {
    fn clone(&self) -> (r: Self)
        ensures
            r@ == self@,
    {
        self.duplicate()
    }
}

/// The views of a list of methods, in order.
pub open spec fn method_views(methods: Seq<AgentMethod>) -> Seq<AgentMethodView> {
    Seq::new(methods.len(), |i: int| methods[i]@)
}

/// Deep copies of the given methods, in order.
pub fn duplicate_methods(methods: &Vec<AgentMethod>) -> (r: Vec<AgentMethod>)
    ensures
        method_views(r@) == method_views(methods@),
{
    let mut copy: Vec<AgentMethod> = Vec::new();
    let mut i: usize = 0;
    while i < methods.len()
        invariant
            i <= methods.len(),
            copy.len() == i,
            forall|j: int| 0 <= j < i ==> copy[j]@ == methods[j]@,
        decreases methods.len() - i,
    {
        copy.push(methods[i].duplicate());
        i = i + 1;
    }
    assert(method_views(copy@) =~= method_views(methods@));
    copy
}

/// The parameters with which an agent is constructed, in order.
#[derive(Debug, PartialEq, Eq)]
pub struct AgentConstructor {
    pub parameters: Vec<(String, TypeDescriptor)>,
}

impl View for AgentConstructor {
    type V = Seq<(Seq<char>, DescriptorModel)>;

    open spec fn view(&self) -> Seq<(Seq<char>, DescriptorModel)> {
        field_descriptor_models(self.parameters@)
    }
}

impl AgentConstructor {
    /// A deep copy of this constructor.
    pub fn duplicate(&self) -> (r: AgentConstructor)
        ensures
            r@ == self@,
    {
        let mut copy: Vec<(String, TypeDescriptor)> = Vec::new();
        let mut i: usize = 0;
        while i < self.parameters.len()
            invariant
                i <= self.parameters.len(),
                copy.len() == i,
                forall|j: int|
                    0 <= j < i ==> copy[j].0@ == self.parameters[j].0@ && copy[j].1@
                        == self.parameters[j].1@,
            decreases self.parameters.len() - i,
        {
            let parameter_type = self.parameters[i].1.duplicate();
            copy.push((self.parameters[i].0.clone(), parameter_type));
            i = i + 1;
        }
        assert(field_descriptor_models(copy@) =~= field_descriptor_models(self.parameters@));
        AgentConstructor { parameters: copy }
    }
}

impl Clone for AgentConstructor {
    fn clone(&self) -> (r: Self)
        ensures
            r@ == self@,
    {
        self.duplicate()
    }
}

/// The schema of an agent type: its name, how it is constructed, what can
/// be invoked on it, and the agent types it depends on.
#[derive(Debug, PartialEq, Eq)]
pub struct AgentType {
    pub name: String,
    pub description: String,
    pub agent_constructor: AgentConstructor,
    pub methods: Vec<AgentMethod>,
    pub requires: Vec<String>,
}

/// What an `AgentType` denotes.
pub ghost struct AgentTypeView {
    pub name: Seq<char>,
    pub description: Seq<char>,
    pub agent_constructor: Seq<(Seq<char>, DescriptorModel)>,
    pub methods: Seq<AgentMethodView>,
    pub requires: Seq<Seq<char>>,
}

impl View for AgentType {
    type V = AgentTypeView;

    open spec fn view(&self) -> AgentTypeView {
        AgentTypeView {
            name: self.name@,
            description: self.description@,
            agent_constructor: self.agent_constructor@,
            methods: method_views(self.methods@),
            requires: texts(self.requires@),
        }
    }
}

impl AgentType {
    /// A deep copy of this schema.
    pub fn duplicate(&self) -> (r: AgentType)
        ensures
            r@ == self@,
    {
        AgentType {
            name: self.name.clone(),
            description: self.description.clone(),
            agent_constructor: self.agent_constructor.duplicate(),
            methods: duplicate_methods(&self.methods),
            requires: duplicate_names(&self.requires),
        }
    }
}

impl Clone for AgentType {
    fn clone(&self) -> (r: Self)
        ensures
            r@ == self@,
    {
        self.duplicate()
    }
}

/// Why a request on the registry or on an instance failed.
#[derive(Debug, PartialEq, Eq)]
pub enum AgentError {
    /// No agent type is registered under the name.
    UnknownAgentType { agent_type: String, available: Vec<String> },
    /// The agent type is known, but no factory is registered for it.
    NoImplementation { agent_type: String },
    /// The agent type has no method of that name.
    MethodNotFound { method_name: String, agent_type: String },
    /// No argument was passed at a declared input position.
    MissingArgument { index: usize },
    /// The argument at a declared input position has another type.
    ArgumentMismatch { index: usize },
    /// No instance is registered under the id.
    UnknownInstance { agent_id: String, available: Vec<String> },
}

impl AgentError {
    /// The message of the error. Where a name was not found, the message
    /// lists the names that are there.
    pub open spec fn message_text(&self) -> Seq<char> {
        match self {
            AgentError::UnknownAgentType { agent_type, available } => {
                "Agent definition not found for agent name: "@ + agent_type@
                    + ". Available agents in this app is "@ + joined(texts(available@))
            },
            AgentError::NoImplementation { agent_type } => {
                "No agent implementation found for agent definition: "@ + agent_type@
            },
            AgentError::MethodNotFound { method_name, agent_type } => {
                "Method '"@ + method_name@ + "' not found in agent '"@ + agent_type@ + "'"@
            },
            AgentError::MissingArgument { index } => {
                "Missing argument at position "@ + decimal(*index as nat)
            },
            AgentError::ArgumentMismatch { index } => {
                "Argument of another type than declared at position "@ + decimal(*index as nat)
            },
            AgentError::UnknownInstance { agent_id, available } => {
                "Agent with id "@ + agent_id@ + " not found. Available agents: "@ + joined(
                    texts(available@),
                )
            },
        }
    }

    /// Builds the message of the error.
    pub fn message(&self) -> (r: String)
        ensures
            r@ == self.message_text(),
    {
        match self {
            AgentError::UnknownAgentType { agent_type, available } => {
                let mut m = String::from_str("Agent definition not found for agent name: ");
                m.append(agent_type.as_str());
                m.append(". Available agents in this app is ");
                m.append(join_names(available).as_str());
                m
            },
            AgentError::NoImplementation { agent_type } => {
                let mut m = String::from_str(
                    "No agent implementation found for agent definition: ",
                );
                m.append(agent_type.as_str());
                m
            },
            AgentError::MethodNotFound { method_name, agent_type } => {
                let mut m = String::from_str("Method '");
                m.append(method_name.as_str());
                m.append("' not found in agent '");
                m.append(agent_type.as_str());
                m.append("'");
                m
            },
            AgentError::MissingArgument { index } => {
                let mut m = String::from_str("Missing argument at position ");
                m.append(decimal_string(*index as u64).as_str());
                m
            },
            AgentError::ArgumentMismatch { index } => {
                let mut m = String::from_str(
                    "Argument of another type than declared at position ",
                );
                m.append(decimal_string(*index as u64).as_str());
                m
            },
            AgentError::UnknownInstance { agent_id, available } => {
                let mut m = String::from_str("Agent with id ");
                m.append(agent_id.as_str());
                m.append(" not found. Available agents: ");
                m.append(join_names(available).as_str());
                m
            },
        }
    }
}

/// The result of an invocation.
///
/// More cases may be added; match with a catch-all arm.
#[non_exhaustive]
#[derive(Debug, PartialEq, Eq)]
pub enum StatusUpdate {
    /// The invocation succeeded with this value.
    Emit(TypedValue),
    /// The invocation failed; the caller may report the failure or retry.
    Error(AgentError),
}

} // verus!
