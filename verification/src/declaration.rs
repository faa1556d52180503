//! From the declaration of an agent to its schema.

use crate::agent_construct::AgentConstruct;
use crate::agent_registry::{get_generic_agent_type_by_name, register_agent_type, AgentRegistry,
    GenericAgentType, RegistryView};
use crate::descriptor::{descriptor_models, DescriptorModel, TypeDescriptor};
use crate::naming::{kebab_case, to_kebab_case};
use crate::schema::{AgentConstructor, AgentError, AgentMethod, AgentMethodView,
    AgentTypeView};
use crate::text::texts;
use crate::type_mapping::ToWitType;
use vstd::prelude::*;

verus! {

/// A method as the declaration of an agent states it: under its identifier,
/// with the types of its parameters and of what it returns.
#[derive(Debug, PartialEq, Eq)]
pub struct MethodDeclaration {
    pub name: String,
    pub description: String,
    pub inputs: Vec<TypeDescriptor>,
    pub output: Option<TypeDescriptor>,
}

/// The schema of a declared method: the name in canonical form, the inputs
/// as declared, and one output unless the method returns nothing.
pub open spec fn described(method: MethodDeclaration) -> AgentMethodView {
    AgentMethodView {
        name: kebab_case(method.name@),
        description: method.description@,
        input_schema: descriptor_models(method.inputs@),
        output_schema: match method.output {
            Some(output) => seq![output@],
            None => Seq::empty(),
        },
    }
}

/// The schemas of the declared methods, in order.
pub open spec fn described_methods(methods: Seq<MethodDeclaration>) -> Seq<AgentMethodView> {
    Seq::new(methods.len(), |i: int| described(methods[i]))
}

/// Describes one declared method.
pub fn describe_method(method: MethodDeclaration) -> (r: AgentMethod)
    ensures
        r@ == described(method),
{
    let name = to_kebab_case(method.name.as_str());
    let mut output_schema: Vec<TypeDescriptor> = Vec::new();
    match method.output {
        Some(output) => {
            output_schema.push(output);
            assert(descriptor_models(output_schema@) =~= seq![output@]);
        },
        None => {
            assert(descriptor_models(output_schema@) =~= Seq::<DescriptorModel>::empty());
        },
    }
    AgentMethod {
        name,
        description: method.description,
        input_schema: method.inputs,
        output_schema,
    }
}

/// Describes a declared agent: its name and the names of its methods are
/// brought into canonical form, once, here. The description is empty and
/// nothing is required.
pub fn get_agent_type(declared_name: &str, methods: Vec<MethodDeclaration>) -> (r:
    GenericAgentType)
    ensures
        r@.name == kebab_case(declared_name@),
        r@.description == Seq::<char>::empty(),
        r@.methods == described_methods(methods@),
        r@.requires == Seq::<Seq<char>>::empty(),
{
    let ghost all = methods@;
    let mut described_so_far: Vec<AgentMethod> = Vec::new();
    for method in it: methods
        invariant
            it.seq() == all,
            described_so_far.len() == it.index(),
            forall|j: int|
                0 <= j < it.index() ==> (#[trigger] described_so_far[j])@ == described(all[j]),
    {
        described_so_far.push(describe_method(method));
    }
    let r = GenericAgentType {
        name: to_kebab_case(declared_name),
        description: String::new(),
        methods: described_so_far,
        requires: Vec::new(),
    };
    proof {
        assert(r@.methods =~= described_methods(all));
        assert(r@.requires =~= Seq::<Seq<char>>::empty());
    }
    r
}

/// The descriptor that stands for a native type, by the name of the type.
pub open spec fn wit_type_of(name: Seq<char>) -> Option<DescriptorModel> {
    if name == "String"@ {
        Some(DescriptorModel::Str)
    } else if name == "bool"@ {
        Some(DescriptorModel::Bool)
    } else if name == "u64"@ {
        Some(DescriptorModel::U64)
    } else if name == "i64"@ {
        Some(DescriptorModel::S64)
    } else if name == "f64"@ {
        Some(DescriptorModel::Float64)
    } else {
        None
    }
}

/// The descriptor that stands for the native type named `name`, for the
/// types that have one.
pub fn get_wit_type(name: &str) -> (r: Option<TypeDescriptor>)
    ensures
        match r {
            Some(d) => wit_type_of(name@) == Some(d@),
            None => wit_type_of(name@) is None,
        },
{
    let wanted = name.to_owned();
    if wanted == "String".to_owned() {
        Some(TypeDescriptor::Str)
    } else if wanted == "bool".to_owned() {
        Some(TypeDescriptor::Bool)
    } else if wanted == "u64".to_owned() {
        Some(TypeDescriptor::U64)
    } else if wanted == "i64".to_owned() {
        Some(TypeDescriptor::S64)
    } else if wanted == "f64".to_owned() {
        Some(TypeDescriptor::Float64)
    } else {
        None
    }
}

/// The descriptor found by the name of a native type is the descriptor
/// that the native type names itself.
pub proof fn lemma_named_types_agree()
    ensures
        wit_type_of("String"@) == Some(String::shape()),
        wit_type_of("bool"@) == Some(bool::shape()),
        wit_type_of("u64"@) == Some(u64::shape()),
        wit_type_of("i64"@) == Some(i64::shape()),
{
    reveal_strlit("String");
    reveal_strlit("bool");
    reveal_strlit("u64");
    reveal_strlit("i64");
    reveal_strlit("f64");
    assert("bool"@.len() != "String"@.len());
    assert("u64"@.len() != "String"@.len());
    assert("i64"@.len() != "String"@.len());
    assert("u64"@.len() != "bool"@.len());
    assert("i64"@.len() != "bool"@.len());
    assert("i64"@[0] != "u64"@[0]);
}

/// Registers the schema of an implementation of the declared agent type
/// `agent_type_name`: the declared type together with the constructor
/// parameters that the implementation names.
///
/// The declared type must have been registered before; otherwise the
/// registry is left as it was and the error lists the declared types.
pub fn register_agent_implementation<C: AgentConstruct>(
    registry: &mut AgentRegistry,
    agent_type_name: &str,
) -> (r: Result<(), AgentError>)
    ensures
        match r {
            Ok(_) => {
                &&& old(registry)@.generic_types.contains_key(agent_type_name@)
                &&& final(registry)@.definitions.dom() == old(registry)@.definitions.dom().insert(
                    agent_type_name@,
                )
                &&& completes(
                    final(registry)@.definitions[agent_type_name@]@,
                    old(registry)@.generic_types[agent_type_name@],
                )
                &&& C::names_params(
                    final(registry)@.definitions[agent_type_name@]@.agent_constructor,
                )
                &&& final(registry)@ == (RegistryView {
                    definitions: old(registry)@.definitions.insert(
                        agent_type_name@,
                        final(registry)@.definitions[agent_type_name@],
                    ),
                    ..old(registry)@
                })
            },
            Err(AgentError::UnknownAgentType { agent_type, available }) => {
                &&& !old(registry)@.generic_types.contains_key(agent_type_name@)
                &&& agent_type@ == agent_type_name@
                &&& texts(available@) == old(registry).generic_type_order()
                &&& final(registry)@ == old(registry)@
            },
            Err(_) => false,
        },
{
    match get_generic_agent_type_by_name(registry, agent_type_name) {
        Some(declared) => {
            let agent_constructor = AgentConstructor { parameters: C::get_params() };
            let agent_type = declared.to_agent_type(agent_constructor);
            register_agent_type(registry, agent_type_name.to_owned(), agent_type);
            Ok(())
        },
        None => {
            let available = crate::agent_registry::known_generic_agent_types(registry);
            Err(AgentError::UnknownAgentType { agent_type: agent_type_name.to_owned(), available })
        },
    }
}

/// Whether the schema `full` has everything of the declared type
/// `declared`: name, description, methods and dependencies.
pub open spec fn completes(full: AgentTypeView, declared: GenericAgentType) -> bool {
    full.name == declared@.name && full.description == declared@.description && full.methods
        == declared@.methods && full.requires == declared@.requires
}

} // verus!
