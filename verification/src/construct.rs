//! The constructor of an agent implementation, derived from the fields of
//! the struct that implements the agent.
//!
//! The field `agent_id` holds the instance id and is filled in by the
//! library; every other field is a constructor parameter. A field whose
//! type is a generic parameter bound by an agent declaration is a
//! dependency on another agent.

use crate::text::{pair_texts, texts};
use vstd::prelude::*;
use vstd::string::StringExecFns;

verus! {

/// A field as the struct declares it.
#[derive(Debug, PartialEq, Eq)]
pub struct FieldDeclaration {
    /// The name of the field.
    pub name: String,
    /// The type of the field as it is written.
    pub ty: String,
    /// The identifiers of the segments of the type where the type is a path
    /// (`std::vec::Vec<T>` has the three segments `std`, `vec`, `Vec`); empty
    /// for any other type.
    pub path: Vec<String>,
}

/// What kind of generic parameter a parameter is.
#[derive(Debug, PartialEq, Eq)]
pub enum ParameterKind {
    Type,
    Lifetime,
    Const,
}

/// A generic parameter of the struct.
#[derive(Debug, PartialEq, Eq)]
pub struct GenericParameter {
    pub kind: ParameterKind,
    /// The name of the parameter.
    pub name: String,
    /// The names of the traits that bound the parameter: the last segment of
    /// the path of each, in order.
    pub bounds: Vec<String>,
}

/// What a derive input declares.
#[derive(Debug, PartialEq, Eq)]
pub enum DataShape {
    /// A struct with named fields.
    NamedStruct(Vec<FieldDeclaration>),
    /// A tuple struct or a unit struct.
    OtherStruct,
    /// An enum or a union.
    NotStruct,
}

/// The name of the field that holds the instance id.
pub open spec fn agent_id_field() -> Seq<char> {
    "agent_id"@
}

/// Whether `name` is among `names`.
pub fn contains_name(names: &Vec<String>, name: &str) -> (r: bool)
    ensures
        r == texts(names@).contains(name@),
{
    let wanted = name.to_owned();
    let mut i: usize = 0;
    while i < names.len()
        invariant
            i <= names.len(),
            wanted@ == name@,
            forall|j: int| 0 <= j < i ==> texts(names@)[j] != name@,
        decreases names.len() - i,
    {
        if names[i] == wanted {
            assert(texts(names@)[i as int] == name@);
            return true;
        }
        assert(texts(names@)[i as int] != name@);
        i = i + 1;
    }
    false
}

/// The generic parameters that stand for agents: those bounded by one of
/// the agent declarations `agent_traits`. Where the struct has a generic
/// parameter that is not a type, there are none.
pub open spec fn is_generic_agent_type(
    params: Seq<GenericParameter>,
    agent_traits: Seq<Seq<char>>,
    name: Seq<char>,
) -> bool {
    &&& forall|p: int| 0 <= p < params.len() ==> (#[trigger] params[p]).kind is Type
    &&& exists|p: int, b: int|
        0 <= p < params.len() && 0 <= b < params[p].bounds.len() && params[p].name@ == name
            && agent_traits.contains(#[trigger] params[p].bounds[b]@)
}

/// Whether every generic parameter is a type.
pub fn all_type_parameters(params: &Vec<GenericParameter>) -> (r: bool)
    ensures
        r == forall|p: int| 0 <= p < params.len() ==> (#[trigger] params[p]).kind is Type,
{
    let mut i: usize = 0;
    while i < params.len()
        invariant
            i <= params.len(),
            forall|p: int| 0 <= p < i ==> (#[trigger] params[p]).kind is Type,
        decreases params.len() - i,
    {
        match params[i].kind {
            ParameterKind::Type => {},
            _ => {
                return false;
            },
        }
        i = i + 1;
    }
    true
}

/// Whether one of the bounds of `param` is an agent declaration.
pub fn has_agent_bound(param: &GenericParameter, agent_traits: &Vec<String>) -> (r: bool)
    ensures
        r == exists|b: int|
            0 <= b < param.bounds.len() && texts(agent_traits@).contains(
                #[trigger] param.bounds[b]@,
            ),
{
    let mut b: usize = 0;
    while b < param.bounds.len()
        invariant
            b <= param.bounds.len(),
            forall|k: int|
                0 <= k < b ==> !texts(agent_traits@).contains(#[trigger] param.bounds[k]@),
        decreases param.bounds.len() - b,
    {
        if contains_name(agent_traits, param.bounds[b].as_str()) {
            return true;
        }
        b = b + 1;
    }
    false
}

/// The names of the generic parameters that stand for agents, each once.
pub fn extract_generic_agent_types(
    params: &Vec<GenericParameter>,
    agent_traits: &Vec<String>,
) -> (r: Vec<String>)
    ensures
        texts(r@).no_duplicates(),
        forall|name: Seq<char>|
            texts(r@).contains(name) <==> is_generic_agent_type(
                params@,
                texts(agent_traits@),
                name,
            ),
{
    let mut found: Vec<String> = Vec::new();
    if !all_type_parameters(params) {
        assert(texts(found@) =~= Seq::<Seq<char>>::empty());
        return found;
    }
    let mut p: usize = 0;
    assert(texts(found@) =~= Seq::<Seq<char>>::empty());
    while p < params.len()
        invariant
            p <= params.len(),
            forall|k: int| 0 <= k < params.len() ==> (#[trigger] params[k]).kind is Type,
            texts(found@).no_duplicates(),
            forall|name: Seq<char>|
                texts(found@).contains(name) <==> exists|k: int, b: int|
                    0 <= k < p && 0 <= b < params[k].bounds.len() && params[k].name@ == name
                        && texts(agent_traits@).contains(#[trigger] params[k].bounds[b]@),
        decreases params.len() - p,
    {
        let ghost before = texts(found@);
        if has_agent_bound(&params[p], agent_traits) {
            if !contains_name(&found, params[p].name.as_str()) {
                found.push(params[p].name.clone());
                proof {
                    assert(texts(found@) =~= before.push(params[p as int].name@));
                }
            }
        }
        proof {
            let now = texts(found@);
            let here = params[p as int];
            assert forall|name: Seq<char>| now.contains(name) <==> exists|k: int, b: int|
                0 <= k < p + 1 && 0 <= b < params[k].bounds.len() && params[k].name@ == name
                    && texts(agent_traits@).contains(#[trigger] params[k].bounds[b]@) by {
                if now.contains(name) {
                    if before.contains(name) {
                        let (k, b) = choose|k: int, b: int|
                            0 <= k < p && 0 <= b < params[k].bounds.len() && params[k].name@
                                == name && texts(agent_traits@).contains(
                                #[trigger] params[k].bounds[b]@,
                            );
                        assert(0 <= k < p + 1);
                    } else {
                        let i = choose|i: int| 0 <= i < now.len() && now[i] == name;
                        if i < before.len() {
                            assert(before[i] == name);
                        }
                        assert(name == here.name@);
                        let b = choose|b: int|
                            0 <= b < here.bounds.len() && texts(agent_traits@).contains(
                                #[trigger] here.bounds[b]@,
                            );
                        assert(texts(agent_traits@).contains(params[p as int].bounds[b]@));
                    }
                }
                if exists|k: int, b: int|
                    0 <= k < p + 1 && 0 <= b < params[k].bounds.len() && params[k].name@ == name
                        && texts(agent_traits@).contains(#[trigger] params[k].bounds[b]@) {
                    let (k, b) = choose|k: int, b: int|
                        0 <= k < p + 1 && 0 <= b < params[k].bounds.len() && params[k].name@
                            == name && texts(agent_traits@).contains(
                            #[trigger] params[k].bounds[b]@,
                        );
                    if k < p {
                        assert(before.contains(name));
                        let i = choose|i: int| 0 <= i < before.len() && before[i] == name;
                        assert(now[i] == name);
                    } else {
                        assert(texts(agent_traits@).contains(here.bounds[b]@));
                        if before.contains(name) {
                            let i = choose|i: int| 0 <= i < before.len() && before[i] == name;
                            assert(now[i] == name);
                        } else {
                            assert(now[now.len() - 1] == name);
                        }
                    }
                }
            }
        }
        p = p + 1;
    }
    found
}

/// The message for a derive input that is a struct without named fields.
pub open spec fn unnamed_fields_message() -> Seq<char> {
    "AgentConstruct only supports named-field structs"@
}

/// The message for a derive input that is no struct.
pub open spec fn not_a_struct_message() -> Seq<char> {
    "AgentConstruct can only be derived for structs"@
}

/// The named fields of the struct that a derive input declares.
pub fn get_named_fields(input: DataShape) -> (r: Result<Vec<FieldDeclaration>, String>)
    ensures
        match (input, r) {
            (DataShape::NamedStruct(fields), Ok(found)) => found == fields,
            (DataShape::OtherStruct, Err(message)) => message@ == unnamed_fields_message(),
            (DataShape::NotStruct, Err(message)) => message@ == not_a_struct_message(),
            _ => false,
        },
{
    match input {
        DataShape::NamedStruct(fields) => Ok(fields),
        DataShape::OtherStruct => Err(
            String::from_str("AgentConstruct only supports named-field structs"),
        ),
        DataShape::NotStruct => Err(
            String::from_str("AgentConstruct can only be derived for structs"),
        ),
    }
}

/// Whether the type of the field is one of the generic parameters that
/// stand for agents, written as that parameter and nothing else.
pub open spec fn is_plain_agent_field(
    field: FieldDeclaration,
    agent_types: Seq<Seq<char>>,
) -> bool {
    field.path.len() == 1 && agent_types.contains(field.path[0]@)
}

/// Whether the field is recorded in the constructor metadata: every field
/// but the instance id and the fields that are agents.
pub open spec fn is_recorded(field: FieldDeclaration, agent_types: Seq<Seq<char>>) -> bool {
    field.name@ != agent_id_field() && !is_plain_agent_field(field, agent_types)
}

/// The constructor metadata of the fields: the name and the written type of
/// each recorded field, in order.
pub open spec fn recorded_fields(
    fields: Seq<FieldDeclaration>,
    agent_types: Seq<Seq<char>>,
) -> Seq<(Seq<char>, Seq<char>)>
    decreases fields.len(),
{
    if fields.len() == 0 {
        Seq::empty()
    } else {
        let before = recorded_fields(fields.drop_last(), agent_types);
        if is_recorded(fields.last(), agent_types) {
            before.push((fields.last().name@, fields.last().ty@))
        } else {
            before
        }
    }
}

/// The constructor metadata of a struct: name and written type of every
/// field but the instance id and the fields that are agents.
pub fn extract_constructor_fields(
    fields: &Vec<FieldDeclaration>,
    generic_agent_types: &Vec<String>,
) -> (r: Vec<(String, String)>)
    ensures
        pair_texts(r@) == recorded_fields(fields@, texts(generic_agent_types@)),
{
    let mut recorded: Vec<(String, String)> = Vec::new();
    let mut i: usize = 0;
    proof {
        assert(fields@.take(0) =~= Seq::<FieldDeclaration>::empty());
        assert(pair_texts(recorded@) =~= Seq::<(Seq<char>, Seq<char>)>::empty());
    }
    while i < fields.len()
        invariant
            i <= fields.len(),
            pair_texts(recorded@) == recorded_fields(
                fields@.take(i as int),
                texts(generic_agent_types@),
            ),
        decreases fields.len() - i,
    {
        proof {
            assert(fields@.take(i + 1).drop_last() =~= fields@.take(i as int));
            assert(fields@.take(i + 1).last() == fields[i as int]);
        }
        let field = &fields[i];
        let is_agent = field.path.len() == 1 && contains_name(
            generic_agent_types,
            field.path[0].as_str(),
        );
        if field.name != "agent_id".to_owned() && !is_agent {
            let ghost before = recorded@;
            recorded.push((field.name.clone(), field.ty.clone()));
            assert(pair_texts(recorded@) =~= pair_texts(before).push((field.name@, field.ty@)));
        }
        i = i + 1;
    }
    proof {
        assert(fields@.take(fields.len() as int) =~= fields@);
    }
    recorded
}

/// What the construction of an agent from its constructor arguments
/// consists of.
#[derive(Debug, PartialEq, Eq)]
pub struct ConstructorCode {
    /// The constructor parameters, in order: name and written type. The
    /// argument at place `i` is decoded into the parameter at place `i`.
    pub parameters: Vec<(String, String)>,
    /// The fields that the construction fills, in order; the instance id is
    /// one of them where the struct has the field.
    pub construct_fields: Vec<String>,
    /// The names of the fields that depend on another agent.
    pub agent_dependencies: Vec<String>,
}

/// Whether the field depends on another agent: its type is a path that
/// ends in one of the generic parameters that stand for agents.
pub open spec fn is_agent_dependency(field: FieldDeclaration, agent_types: Seq<Seq<char>>) -> bool {
    field.path.len() > 0 && agent_types.contains(field.path[field.path.len() - 1]@)
}

/// The constructor parameters: name and written type of every field but
/// the instance id, in order.
pub open spec fn parameters_of(fields: Seq<FieldDeclaration>) -> Seq<(Seq<char>, Seq<char>)>
    decreases fields.len(),
{
    if fields.len() == 0 {
        Seq::empty()
    } else {
        let before = parameters_of(fields.drop_last());
        if fields.last().name@ != agent_id_field() {
            before.push((fields.last().name@, fields.last().ty@))
        } else {
            before
        }
    }
}

/// The names of the fields, in order.
pub open spec fn field_names(fields: Seq<FieldDeclaration>) -> Seq<Seq<char>> {
    Seq::new(fields.len(), |i: int| fields[i].name@)
}

/// The names of the fields that depend on another agent, in order.
pub open spec fn dependencies_of(
    fields: Seq<FieldDeclaration>,
    agent_types: Seq<Seq<char>>,
) -> Seq<Seq<char>>
    decreases fields.len(),
{
    if fields.len() == 0 {
        Seq::empty()
    } else {
        let before = dependencies_of(fields.drop_last(), agent_types);
        if is_agent_dependency(fields.last(), agent_types) {
            before.push(fields.last().name@)
        } else {
            before
        }
    }
}

/// Plans the construction of an agent from its constructor arguments:
/// which fields are parameters, in which order, and which depend on another
/// agent.
pub fn build_constructor_code(
    fields: &Vec<FieldDeclaration>,
    generic_agent_types: &Vec<String>,
) -> (r: ConstructorCode)
    ensures
        pair_texts(r.parameters@) == parameters_of(fields@),
        texts(r.construct_fields@) == field_names(fields@),
        texts(r.agent_dependencies@) == dependencies_of(fields@, texts(generic_agent_types@)),
{
    let mut parameters: Vec<(String, String)> = Vec::new();
    let mut construct_fields: Vec<String> = Vec::new();
    let mut agent_dependencies: Vec<String> = Vec::new();
    let mut i: usize = 0;
    proof {
        assert(fields@.take(0) =~= Seq::<FieldDeclaration>::empty());
        assert(pair_texts(parameters@) =~= Seq::<(Seq<char>, Seq<char>)>::empty());
        assert(texts(construct_fields@) =~= field_names(fields@.take(0)));
        assert(texts(agent_dependencies@) =~= Seq::<Seq<char>>::empty());
    }
    while i < fields.len()
        invariant
            i <= fields.len(),
            pair_texts(parameters@) == parameters_of(fields@.take(i as int)),
            texts(construct_fields@) == field_names(fields@.take(i as int)),
            texts(agent_dependencies@) == dependencies_of(
                fields@.take(i as int),
                texts(generic_agent_types@),
            ),
        decreases fields.len() - i,
    {
        proof {
            assert(fields@.take(i + 1).drop_last() =~= fields@.take(i as int));
            assert(fields@.take(i + 1).last() == fields[i as int]);
        }
        let field = &fields[i];
        let n = field.path.len();
        let is_agent_dep = n > 0 && contains_name(generic_agent_types, field.path[n - 1].as_str());
        if is_agent_dep {
            let ghost before = agent_dependencies@;
            agent_dependencies.push(field.name.clone());
            assert(texts(agent_dependencies@) =~= texts(before).push(field.name@));
        }
        let ghost filled = construct_fields@;
        construct_fields.push(field.name.clone());
        proof {
            assert(texts(construct_fields@) =~= texts(filled).push(field.name@));
            assert(field_names(fields@.take(i + 1)) =~= field_names(fields@.take(i as int)).push(
                field.name@,
            ));
        }
        if field.name != "agent_id".to_owned() {
            let ghost before = parameters@;
            parameters.push((field.name.clone(), field.ty.clone()));
            assert(pair_texts(parameters@) =~= pair_texts(before).push((field.name@, field.ty@)));
        }
        i = i + 1;
    }
    proof {
        assert(fields@.take(fields.len() as int) =~= fields@);
    }
    ConstructorCode { parameters, construct_fields, agent_dependencies }
}

} // verus!
