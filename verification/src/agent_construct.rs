//! Construction of agents from their constructor arguments.

use crate::descriptor::{field_descriptor_models, DescriptorModel, TypeDescriptor};
use crate::value::TypedValue;
use vstd::prelude::*;

verus! {

/// Agent implementations that are built from positional constructor
/// arguments.
pub trait AgentConstruct: Sized {
    /// Builds the agent bound to `agent_id` from its constructor arguments.
    fn construct_from_params(params: Vec<TypedValue>, agent_id: String) -> Self;

    /// Whether `params` are the constructor parameters that the
    /// implementation names. An implementation that does not say leaves it
    /// open.
    open spec fn names_params(params: Seq<(Seq<char>, DescriptorModel)>) -> bool {
        true
    }

    /// The constructor parameters, in order: name and type.
    fn get_params() -> (params: Vec<(String, TypeDescriptor)>)
        ensures
            Self::names_params(field_descriptor_models(params@)),
    ;

    /// The names of the agent types this implementation depends on.
    fn get_agent_dependencies() -> Vec<String>;
}

} // verus!
