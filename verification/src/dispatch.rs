//! The invocation dispatcher: from a method name and encoded arguments to a
//! call of the bound implementation and an encoded result.

use crate::descriptor::{conforms, descriptor_models, has_type, DescriptorModel};
use crate::schema::{AgentError, AgentMethod, AgentMethodView, AgentType, StatusUpdate};
use crate::value::{models, TypedValue, ValueModel};
use vstd::prelude::*;

verus! {

/// Whether `i` is the place of the first method named `name`. Names are
/// compared exactly.
pub open spec fn is_method_at(methods: Seq<AgentMethodView>, name: Seq<char>, i: int) -> bool {
    &&& 0 <= i < methods.len()
    &&& methods[i].name == name
    &&& forall|j: int| 0 <= j < i ==> (#[trigger] methods[j]).name != name
}

/// Whether a method is named `name`.
pub open spec fn has_method(methods: Seq<AgentMethodView>, name: Seq<char>) -> bool {
    exists|i: int| 0 <= i < methods.len() && (#[trigger] methods[i]).name == name
}

/// Finds the method named `method_name`, comparing names exactly.
pub fn find_method(agent_type: &AgentType, method_name: &str) -> (r: Option<usize>)
    ensures
        match r {
            Some(i) => is_method_at(agent_type@.methods, method_name@, i as int),
            None => !has_method(agent_type@.methods, method_name@),
        },
{
    let wanted = method_name.to_owned();
    let mut i: usize = 0;
    while i < agent_type.methods.len()
        invariant
            i <= agent_type.methods.len(),
            wanted@ == method_name@,
            forall|j: int| 0 <= j < i ==> (#[trigger] agent_type@.methods[j]).name != method_name@,
        decreases agent_type.methods.len() - i,
    {
        if agent_type.methods[i].name == wanted {
            assert(agent_type@.methods[i as int].name == method_name@);
            return Some(i);
        }
        assert(agent_type@.methods[i as int].name != method_name@);
        i = i + 1;
    }
    None
}

/// What is wrong with the arguments of a call.
pub ghost enum ArgumentFault {
    /// No argument at the declared input position `index`.
    Missing { index: int },
    /// The argument at the declared input position `index` does not have the
    /// declared type.
    Mismatch { index: int },
}

/// The first fault at or after the input position `at`, going through the
/// declared input positions in order, or `None` where every declared
/// position from `at` on holds an argument of the declared type. Arguments
/// beyond the declared positions are not looked at.
pub open spec fn argument_fault_from(
    inputs: Seq<DescriptorModel>,
    args: Seq<ValueModel>,
    at: int,
) -> Option<ArgumentFault>
    decreases inputs.len() - at,
{
    if at < 0 || at >= inputs.len() {
        None
    } else if at >= args.len() {
        Some(ArgumentFault::Missing { index: at })
    } else if !has_type(args[at], inputs[at]) {
        Some(ArgumentFault::Mismatch { index: at })
    } else {
        argument_fault_from(inputs, args, at + 1)
    }
}

/// The first fault of the arguments `args` against the declared inputs.
pub open spec fn argument_fault(inputs: Seq<DescriptorModel>, args: Seq<ValueModel>) -> Option<
    ArgumentFault,
> {
    argument_fault_from(inputs, args, 0)
}

/// Whether the argument at the declared input position `i` is there and
/// has the declared type.
pub open spec fn fits(inputs: Seq<DescriptorModel>, args: Seq<ValueModel>, i: int) -> bool {
    i < args.len() && has_type(args[i], inputs[i])
}

/// The arguments are without fault from the position `at` on exactly when
/// every declared input position from there on holds an argument of the
/// declared type.
pub proof fn lemma_faultless_from(inputs: Seq<DescriptorModel>, args: Seq<ValueModel>, at: int)
    requires
        0 <= at <= inputs.len(),
    ensures
        argument_fault_from(inputs, args, at) is None <==> forall|i: int|
            at <= i < inputs.len() ==> #[trigger] fits(inputs, args, i),
    decreases inputs.len() - at,
{
    if at < inputs.len() {
        lemma_faultless_from(inputs, args, at + 1);
        if argument_fault_from(inputs, args, at) is None {
            assert(fits(inputs, args, at));
            assert(argument_fault_from(inputs, args, at + 1) is None);
            assert forall|i: int| at <= i < inputs.len() implies #[trigger] fits(
                inputs,
                args,
                i,
            ) by {
                if i > at {
                    assert(at + 1 <= i);
                }
            }
        }
        if forall|i: int| at <= i < inputs.len() ==> #[trigger] fits(inputs, args, i) {
            assert(fits(inputs, args, at));
            assert forall|i: int| at + 1 <= i < inputs.len() implies #[trigger] fits(
                inputs,
                args,
                i,
            ) by {
                assert(at <= i);
            }
        }
    }
}

/// Arguments without fault hold, at every declared input position, an
/// argument of the declared type; so a handler can decode them by position.
pub proof fn lemma_faultless(inputs: Seq<DescriptorModel>, args: Seq<ValueModel>)
    ensures
        argument_fault(inputs, args) is None <==> forall|i: int|
            0 <= i < inputs.len() ==> #[trigger] fits(inputs, args, i),
{
    lemma_faultless_from(inputs, args, 0);
}

/// Whether the error `e` reports the fault `fault`.
pub open spec fn reports(e: AgentError, fault: ArgumentFault) -> bool {
    match fault {
        ArgumentFault::Missing { index } => e matches AgentError::MissingArgument { index: at }
            && at == index,
        ArgumentFault::Mismatch { index } => e matches AgentError::ArgumentMismatch { index: at }
            && at == index,
    }
}

/// Checks the arguments of a call against the declared inputs of the
/// method, position by position.
pub fn check_arguments(method: &AgentMethod, args: &Vec<TypedValue>) -> (r: Result<(), AgentError>)
    ensures
        match r {
            Ok(_) => argument_fault(method@.input_schema, models(args@)) is None,
            Err(e) => argument_fault(method@.input_schema, models(args@)) matches Some(fault)
                && reports(e, fault),
        },
{
    let ghost inputs = descriptor_models(method.input_schema@);
    let ghost given = models(args@);
    let mut i: usize = 0;
    while i < method.input_schema.len()
        invariant
            i <= method.input_schema.len(),
            inputs == descriptor_models(method.input_schema@),
            given == models(args@),
            argument_fault(inputs, given) == argument_fault_from(inputs, given, i as int),
        decreases method.input_schema.len() - i,
    {
        if i >= args.len() {
            return Err(AgentError::MissingArgument { index: i });
        }
        if !conforms(&args[i], &method.input_schema[i]) {
            return Err(AgentError::ArgumentMismatch { index: i });
        }
        i = i + 1;
    }
    Ok(())
}

/// Whether the error `e` reports the first fault of the arguments `args`
/// against the declared inputs of the first method named `name`.
pub open spec fn reports_fault(
    e: AgentError,
    methods: Seq<AgentMethodView>,
    name: Seq<char>,
    args: Seq<ValueModel>,
) -> bool {
    exists|i: int|
        #![trigger is_method_at(methods, name, i)]
        is_method_at(methods, name, i) && argument_fault(methods[i].input_schema, args) is Some
            && reports(e, argument_fault(methods[i].input_schema, args)->Some_0)
}

/// The error for a method name that the agent type does not have.
pub open spec fn is_method_not_found(e: AgentError, method_name: Seq<char>, agent_type: Seq<char>)
    -> bool {
    e matches AgentError::MethodNotFound { method_name: m, agent_type: t } && m@ == method_name
        && t@ == agent_type
}

/// Decides what a call amounts to: the place of the method to run, or the
/// error to report.
pub fn resolve_call(agent_type: &AgentType, method_name: &str, input: &Vec<TypedValue>) -> (r:
    Result<usize, AgentError>)
    ensures
        match r {
            Ok(i) => is_method_at(agent_type@.methods, method_name@, i as int) && argument_fault(
                agent_type@.methods[i as int].input_schema,
                models(input@),
            ) is None,
            Err(e) => if has_method(agent_type@.methods, method_name@) {
                reports_fault(e, agent_type@.methods, method_name@, models(input@))
            } else {
                is_method_not_found(e, method_name@, agent_type@.name)
            },
        },
{
    match find_method(agent_type, method_name) {
        None => Err(
            AgentError::MethodNotFound {
                method_name: method_name.to_owned(),
                agent_type: agent_type.name.clone(),
            },
        ),
        Some(i) => {
            assert(agent_type@.methods[i as int] == agent_type.methods[i as int]@);
            match check_arguments(&agent_type.methods[i], input) {
                Ok(_) => Ok(i),
                Err(e) => Err(e),
            }
        },
    }
}

/// The status that stands for an answer of the implementation: a value is
/// emitted, an error is reported.
pub open spec fn status(outcome: Result<TypedValue, AgentError>) -> StatusUpdate {
    match outcome {
        Ok(value) => StatusUpdate::Emit(value),
        Err(e) => StatusUpdate::Error(e),
    }
}

/// Whether `r` is the status of an answer of `handler` to a call with the
/// place `method` of a method and the arguments `args`.
pub open spec fn is_answer_of<H: FnOnce(usize, Vec<TypedValue>) -> Result<TypedValue, AgentError>>(
    handler: H,
    method: usize,
    args: Vec<TypedValue>,
    r: StatusUpdate,
) -> bool {
    exists|outcome: Result<TypedValue, AgentError>|
        #![trigger call_ensures(handler, (method, args), outcome)]
        call_ensures(handler, (method, args), outcome) && r == status(outcome)
}

/// Wraps what the implementation returned: a value is emitted, an error is
/// reported.
pub fn status_of(outcome: Result<TypedValue, AgentError>) -> (r: StatusUpdate)
    ensures
        r == status(outcome),
{
    match outcome {
        Ok(value) => StatusUpdate::Emit(value),
        Err(e) => StatusUpdate::Error(e),
    }
}

/// Invokes the method `method_name` of an agent of type `agent_type` on the
/// encoded arguments `input`. The implementation is `handler`: it is called
/// with the place of the method in the schema and the arguments.
///
/// A name that the agent type does not have, a missing argument and an
/// argument of another type than declared are reported as errors, and the
/// implementation is not called. Otherwise the implementation runs the first
/// method of that name on the arguments as they were passed, and its answer
/// is the result: a value is emitted, an error is reported.
pub fn invoke<H: FnOnce(usize, Vec<TypedValue>) -> Result<TypedValue, AgentError>>(
    agent_type: &AgentType,
    handler: H,
    method_name: String,
    input: Vec<TypedValue>,
) -> (r: StatusUpdate)
    requires
        forall|method: usize, args: Vec<TypedValue>| call_requires(handler, (method, args)),
    ensures
        !has_method(agent_type@.methods, method_name@) ==> (r matches StatusUpdate::Error(e)
            && is_method_not_found(e, method_name@, agent_type@.name)),
        forall|i: int|
            #![trigger is_method_at(agent_type@.methods, method_name@, i)]
            is_method_at(agent_type@.methods, method_name@, i) && argument_fault(
                agent_type@.methods[i].input_schema,
                models(input@),
            ) is Some ==> (r matches StatusUpdate::Error(e) && reports(
                e,
                argument_fault(agent_type@.methods[i].input_schema, models(input@))->Some_0,
            )),
        forall|i: int|
            #![trigger is_method_at(agent_type@.methods, method_name@, i)]
            is_method_at(agent_type@.methods, method_name@, i) && argument_fault(
                agent_type@.methods[i].input_schema,
                models(input@),
            ) is None ==> is_answer_of(handler, i as usize, input, r),
        r is Emit || r is Error,
{
    match resolve_call(agent_type, method_name.as_str(), &input) {
        Err(e) => {
            proof {
                lemma_first_method_unique(agent_type@.methods, method_name@);
            }
            StatusUpdate::Error(e)
        },
        Ok(i) => {
            proof {
                lemma_first_method_unique(agent_type@.methods, method_name@);
            }
            let outcome = handler(i, input);
            assert(call_ensures(handler, (i, input), outcome));
            status_of(outcome)
        },
    }
}

/// There is at most one first method of a name, and there is one exactly
/// when there is a method of that name.
pub proof fn lemma_first_method_unique(methods: Seq<AgentMethodView>, name: Seq<char>)
    ensures
        forall|i: int, j: int|
            is_method_at(methods, name, i) && is_method_at(methods, name, j) ==> i == j,
        forall|i: int| is_method_at(methods, name, i) ==> has_method(methods, name),
{
    assert forall|i: int, j: int|
        is_method_at(methods, name, i) && is_method_at(methods, name, j) implies i == j by {
        if i < j {
            assert(methods[i].name != name);
        }
        if j < i {
            assert(methods[j].name != name);
        }
    }
}

} // verus!
