//! The import plan of the discovery linker.
//!
//! To ask an unknown component for its agent types, a host instantiates it
//! with stand-ins for what it imports. This module decides, for one imported
//! interface, what the host has to install: nothing where the runtime
//! implements the interface itself, otherwise one opaque resource type for
//! each resource of the interface and one failing stub for each function.

use crate::text::{starts_with, texts};
use vstd::prelude::*;
use vstd::string::StringExecFns;

verus! {

/// What the function name parser made of a fully qualified function name.
#[derive(Debug, PartialEq, Eq)]
pub struct ParsedFunction {
    /// The name under which the function is linked.
    pub function_name: String,
    /// The resource that the function belongs to, if it is a constructor, a
    /// method, a static method or the destructor of one.
    pub resource_name: Option<String>,
    /// The readable form of the fully qualified name.
    pub display: String,
}

/// One item that an imported interface exports.
#[derive(Debug, PartialEq, Eq)]
pub enum ImportItem {
    /// A function, with the outcome of parsing its fully qualified name: the
    /// parsed name, or the parser's message.
    Function { name: String, parsed: Result<ParsedFunction, String> },
    /// A resource type.
    Resource { name: String },
    /// Anything else; it needs no stand-in.
    Other,
}

/// A stand-in for one imported function. It is never meant to run: if it is
/// called, it fails with `failure_message`.
#[derive(Debug, PartialEq, Eq)]
pub struct FunctionStub {
    /// The name under which the stub is linked.
    pub name: String,
    /// The readable form of the fully qualified name of the function.
    pub display: String,
}

/// The stand-ins to install for one imported interface.
#[derive(Debug, PartialEq, Eq)]
pub struct LinkPlan {
    /// The resource types to register, each once.
    pub resources: Vec<String>,
    /// The function stubs to register, in the order of the exports.
    pub functions: Vec<FunctionStub>,
}

/// What to do about one imported interface.
#[derive(Debug, PartialEq, Eq)]
pub enum ImportPlan {
    /// The runtime implements the interface; nothing is installed.
    Native,
    /// The host installs these stand-ins.
    Stubs(LinkPlan),
}

/// A failure of the linking pass. It aborts the pass.
#[derive(Debug, PartialEq, Eq)]
pub enum LinkError {
    /// The fully qualified name of an imported function could not be parsed.
    MalformedFunctionName { name: String, reason: String },
}

/// The fully qualified name of the export `export` of the interface
/// `interface`: `{interface}.{{export}}`.
pub open spec fn qualified_name(interface: Seq<char>, export: Seq<char>) -> Seq<char> {
    interface + seq!['.', '{'] + export + seq!['}']
}

/// Builds the fully qualified name of an export of an interface.
pub fn qualified_function_name(interface: &str, export: &str) -> (r: String)
    ensures
        r@ == qualified_name(interface@, export@),
{
    proof {
        reveal_strlit(".{");
        reveal_strlit("}");
        assert(".{"@ =~= seq!['.', '{']);
        assert("}"@ =~= seq!['}']);
    }
    let mut name = String::from_str(interface);
    name.append(".{");
    name.append(export);
    name.append("}");
    name
}

/// Whether the runtime implements the interface `name` itself: its name
/// begins with one of the system namespaces.
pub open spec fn is_system_interface(name: Seq<char>) -> bool {
    ||| "wasi:cli"@.is_prefix_of(name)
    ||| "wasi:clocks"@.is_prefix_of(name)
    ||| "wasi:filesystem"@.is_prefix_of(name)
    ||| "wasi:io"@.is_prefix_of(name)
    ||| "wasi:random"@.is_prefix_of(name)
    ||| "wasi:sockets"@.is_prefix_of(name)
}

/// Decides whether the runtime implements the interface `name` itself.
pub fn is_native_interface(name: &str) -> (r: bool)
    ensures
        r == is_system_interface(name@),
{
    starts_with(name, "wasi:cli") || starts_with(name, "wasi:clocks") || starts_with(
        name,
        "wasi:filesystem",
    ) || starts_with(name, "wasi:io") || starts_with(name, "wasi:random") || starts_with(
        name,
        "wasi:sockets",
    )
}

/// The resource that an export calls for, if any: a resource type itself,
/// or the resource that a parsed function belongs to.
pub open spec fn resource_mention(item: ImportItem) -> Option<Seq<char>> {
    match item {
        ImportItem::Resource { name } => Some(name@),
        ImportItem::Function { name, parsed: Ok(function) } => match function.resource_name {
            Some(resource) => Some(resource@),
            None => None,
        },
        _ => None,
    }
}

/// The resource types to register for the exports: every resource that an
/// export calls for, once, in the order of first mention.
pub open spec fn plan_resources(exports: Seq<ImportItem>) -> Seq<Seq<char>>
    decreases exports.len(),
{
    if exports.len() == 0 {
        Seq::empty()
    } else {
        let before = plan_resources(exports.drop_last());
        match resource_mention(exports.last()) {
            Some(resource) => if before.contains(resource) {
                before
            } else {
                before.push(resource)
            },
            None => before,
        }
    }
}

/// The stubs to register for the exports: one for each function, in order,
/// as the pair of the name it is linked under and its readable name.
pub open spec fn plan_functions(exports: Seq<ImportItem>) -> Seq<(Seq<char>, Seq<char>)>
    decreases exports.len(),
{
    if exports.len() == 0 {
        Seq::empty()
    } else {
        let before = plan_functions(exports.drop_last());
        match exports.last() {
            ImportItem::Function { name, parsed: Ok(function) } => before.push(
                (function.function_name@, function.display@),
            ),
            _ => before,
        }
    }
}

/// Whether the export is a function whose name could not be parsed.
pub open spec fn is_malformed(item: ImportItem) -> bool {
    item matches ImportItem::Function { name, parsed: Err(_) }
}

/// Whether the name of every function among the exports was parsed.
pub open spec fn well_formed(exports: Seq<ImportItem>) -> bool {
    forall|i: int| 0 <= i < exports.len() ==> !is_malformed(#[trigger] exports[i])
}

/// Whether the export at place `i` is the first function whose name could
/// not be parsed, `qualified` is its fully qualified name on the interface
/// `interface`, and `reason` is the parser's message.
pub open spec fn is_first_malformed(
    exports: Seq<ImportItem>,
    i: int,
    interface: Seq<char>,
    qualified: Seq<char>,
    reason: Seq<char>,
) -> bool {
    &&& 0 <= i < exports.len()
    &&& well_formed(exports.take(i))
    &&& exports[i] matches ImportItem::Function { name: export, parsed: Err(message) }
    &&& qualified == qualified_name(interface, export@)
    &&& reason == message@
}

/// Whether `qualified` and `reason` describe the first function among the
/// exports whose name could not be parsed.
pub open spec fn reports_malformed(
    exports: Seq<ImportItem>,
    interface: Seq<char>,
    qualified: Seq<char>,
    reason: Seq<char>,
) -> bool {
    exists|i: int| #[trigger] is_first_malformed(exports, i, interface, qualified, reason)
}

/// The names and readable names of a list of stubs.
pub open spec fn stub_texts(stubs: Seq<FunctionStub>) -> Seq<(Seq<char>, Seq<char>)> {
    Seq::new(stubs.len(), |i: int| (stubs[i].name@, stubs[i].display@))
}

/// The number of functions among the exports.
pub open spec fn function_count(exports: Seq<ImportItem>) -> nat
    decreases exports.len(),
{
    if exports.len() == 0 {
        0
    } else {
        function_count(exports.drop_last()) + if exports.last() is Function {
            1nat
        } else {
            0nat
        }
    }
}

/// A plan registers no resource type twice, registers every resource that
/// an export calls for, and nothing else.
pub proof fn lemma_resources_once(exports: Seq<ImportItem>)
    ensures
        plan_resources(exports).no_duplicates(),
        forall|i: int|
            0 <= i < exports.len() && resource_mention(#[trigger] exports[i]) is Some
                ==> plan_resources(exports).contains(resource_mention(exports[i])->Some_0),
        forall|r: Seq<char>|
            plan_resources(exports).contains(r) ==> exists|i: int|
                0 <= i < exports.len() && resource_mention(#[trigger] exports[i]) == Some(r),
    decreases exports.len(),
{
    if exports.len() > 0 {
        let rest = exports.drop_last();
        let before = plan_resources(rest);
        let now = plan_resources(exports);
        lemma_resources_once(rest);
        assert forall|i: int|
            0 <= i < exports.len() && resource_mention(
                #[trigger] exports[i],
            ) is Some implies now.contains(resource_mention(exports[i])->Some_0) by {
            let r = resource_mention(exports[i])->Some_0;
            if i < rest.len() {
                assert(rest[i] == exports[i]);
                assert(before.contains(r));
                let k = choose|k: int| 0 <= k < before.len() && before[k] == r;
                assert(now[k] == r);
            } else if before.contains(r) {
            } else {
                assert(now[now.len() - 1] == r);
            }
        }
        assert forall|r: Seq<char>| now.contains(r) implies exists|i: int|
            0 <= i < exports.len() && resource_mention(#[trigger] exports[i]) == Some(r) by {
            let k = choose|k: int| 0 <= k < now.len() && now[k] == r;
            if k < before.len() {
                assert(before[k] == r);
                assert(before.contains(r));
                let i = choose|i: int|
                    0 <= i < rest.len() && resource_mention(#[trigger] rest[i]) == Some(r);
                assert(exports[i] == rest[i]);
            } else {
                assert(resource_mention(exports[exports.len() - 1]) == Some(r));
            }
        }
    }
}

/// Where every function name was parsed, a plan holds one stub for each
/// function among the exports.
pub proof fn lemma_one_stub_per_function(exports: Seq<ImportItem>)
    requires
        well_formed(exports),
    ensures
        plan_functions(exports).len() == function_count(exports),
    decreases exports.len(),
{
    if exports.len() > 0 {
        let rest = exports.drop_last();
        assert forall|i: int| 0 <= i < rest.len() implies !is_malformed(#[trigger] rest[i]) by {
            assert(rest[i] == exports[i]);
        }
        lemma_one_stub_per_function(rest);
        assert(!is_malformed(exports[exports.len() - 1]));
    }
}

/// Plans the stand-ins for the imported interface `name`, which exports
/// `exports`.
///
/// A system interface needs none. For any other interface, a function whose
/// name could not be parsed aborts the plan with the error for the first
/// such function; otherwise the plan registers each resource once and one
/// stub for each function.
pub fn dynamic_import(name: &str, exports: Vec<ImportItem>) -> (r: Result<ImportPlan, LinkError>)
    ensures
        match r {
            Ok(ImportPlan::Native) => is_system_interface(name@),
            Ok(ImportPlan::Stubs(plan)) => {
                &&& !is_system_interface(name@)
                &&& well_formed(exports@)
                &&& texts(plan.resources@) == plan_resources(exports@)
                &&& stub_texts(plan.functions@) == plan_functions(exports@)
            },
            Err(LinkError::MalformedFunctionName { name: qualified, reason }) => {
                &&& !is_system_interface(name@)
                &&& reports_malformed(exports@, name@, qualified@, reason@)
            },
        },
{
    if is_native_interface(name) {
        return Ok(ImportPlan::Native);
    }
    let ghost all = exports@;
    let mut plan = LinkPlan { resources: Vec::new(), functions: Vec::new() };
    proof {
        assert(all.take(0) =~= Seq::<ImportItem>::empty());
        assert(texts(plan.resources@) =~= plan_resources(all.take(0)));
        assert(stub_texts(plan.functions@) =~= plan_functions(all.take(0)));
    }
    for item in it: exports
        invariant
            it.seq() == all,
            all == exports@,
            !is_system_interface(name@),
            well_formed(all.take(it.index() as int)),
            texts(plan.resources@) == plan_resources(all.take(it.index() as int)),
            stub_texts(plan.functions@) == plan_functions(all.take(it.index() as int)),
    {
        let ghost seen = all.take(it.index() as int);
        let ghost now = all.take(it.index() + 1);
        proof {
            assert(now.drop_last() =~= seen);
            assert(now.last() == item);
            assert(!is_malformed(item) ==> well_formed(now)) by {
                if !is_malformed(item) {
                    assert forall|j: int| 0 <= j < now.len() implies !is_malformed(
                        #[trigger] now[j],
                    ) by {
                        if j < seen.len() {
                            assert(seen[j] == now[j]);
                        }
                    }
                }
            }
        }
        match item {
            ImportItem::Function { name: export, parsed } => {
                match parsed {
                    Ok(function) => {
                        match function.resource_name {
                            Some(resource) => {
                                note_resource(&mut plan.resources, resource);
                            },
                            None => {},
                        }
                        let ghost before = plan.functions@;
                        plan.functions.push(
                            FunctionStub {
                                name: function.function_name,
                                display: function.display,
                            },
                        );
                        proof {
                            assert(stub_texts(plan.functions@) =~= stub_texts(before).push(
                                (function.function_name@, function.display@),
                            ));
                        }
                    },
                    Err(reason) => {
                        let qualified = qualified_function_name(name, export.as_str());
                        assert(all[it.index() as int] == item);
                        assert(is_first_malformed(
                            all,
                            it.index() as int,
                            name@,
                            qualified@,
                            reason@,
                        ));
                        return Err(LinkError::MalformedFunctionName { name: qualified, reason });
                    },
                }
            },
            ImportItem::Resource { name: resource } => {
                note_resource(&mut plan.resources, resource);
            },
            ImportItem::Other => {},
        }
    }
    proof {
        assert(all.take(all.len() as int) =~= all);
    }
    Ok(ImportPlan::Stubs(plan))
}

/// Adds `resource` to the resources to register unless it is among them.
pub fn note_resource(resources: &mut Vec<String>, resource: String)
    ensures
        texts(final(resources)@) == if texts(old(resources)@).contains(resource@) {
            texts(old(resources)@)
        } else {
            texts(old(resources)@).push(resource@)
        },
{
    let mut i: usize = 0;
    while i < resources.len()
        invariant
            i <= resources.len(),
            *resources == *old(resources),
            forall|j: int| 0 <= j < i ==> texts(resources@)[j] != resource@,
        decreases resources.len() - i,
    {
        if resources[i] == resource {
            assert(texts(resources@)[i as int] == resource@);
            return ;
        }
        assert(texts(resources@)[i as int] != resource@);
        i = i + 1;
    }
    let ghost before = resources@;
    resources.push(resource);
    assert(texts(resources@) =~= texts(before).push(resource@));
}

impl FunctionStub {
    /// The message with which the stub fails if it is ever called.
    pub fn failure_message(&self) -> (r: String)
        ensures
            r@ == "External function called in get-agent-definitions: "@ + self.display@,
    {
        let mut message = String::from_str("External function called in get-agent-definitions: ");
        message.append(self.display.as_str());
        message
    }
}

impl LinkError {
    /// The message of the error.
    pub fn message(&self) -> (r: String)
        ensures
            match self {
                LinkError::MalformedFunctionName { name, reason } => r@
                    == "Unexpected linking error: "@ + name@ + " is not a valid function name: "@
                    + reason@,
            },
    {
        match self {
            LinkError::MalformedFunctionName { name, reason } => {
                let mut message = String::from_str("Unexpected linking error: ");
                message.append(name.as_str());
                message.append(" is not a valid function name: ");
                message.append(reason.as_str());
                message
            },
        }
    }
}

} // verus!
