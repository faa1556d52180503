//! The client side of a remote agent: the names under which its functions
//! are called and the decoding of what comes back.
//!
//! A response is a tuple whose first item is the answer. The answer to an
//! invocation is a status, encoded as a variant; the case at index 2 is the
//! emitted value. An agent reference crosses the boundary as a record of
//! its id, the name of its agent type and its handle number.

use crate::agent::{agent_id_parts, parse_agent_id};
use crate::text::{chars_of, string_of};
use crate::agent_registry::AgentRef;
use crate::descriptor::{has_type, DescriptorModel, TypeDescriptor};
use crate::type_mapping::{field_from_value, record_fields, record_refusal, AgentArg,
    ConversionError, ConversionFailure, FromValue, ToValue, ToWitType};
use crate::value::{lemma_model_of_items, models, TypedValue, ValueModel};
use vstd::prelude::*;
use vstd::string::StringExecFns;

verus! {

/// Why a response could not be decoded.
#[derive(Debug, PartialEq, Eq)]
pub enum RemoteError {
    /// The response is no tuple.
    NotATuple,
    /// The response is a tuple without items.
    EmptyTuple,
    /// The answer to an invocation is no variant.
    NotAStatus,
    /// The status is another case than the emitted value.
    NotEmitted { case_idx: u32 },
    /// The status is the emitted value, but carries none.
    MissingValue,
    /// The emitted value is not of the expected type.
    Conversion(ConversionError),
    /// The answer is no handle.
    NotAHandle,
    /// The answer is no record of an instance id, an agent type name and a
    /// handle number.
    NotAnAgentRecord,
    /// The instance id of the answer has fewer than three parts.
    InvalidAgentId { agent_id: String },
}

/// The index of the case of a status that carries the emitted value.
pub const EMIT_CASE: u32 = 2;

/// The name under which the method `method_name` of the agent type
/// `agent_type` is called remotely.
pub fn remote_method_name(agent_type: &str, method_name: &str) -> (r: String)
    ensures
        r@ == "golem:simulated-agentic/simulated-agent.{[method]"@ + agent_type@ + "."@
            + method_name@ + "}"@,
{
    let mut name = String::from_str("golem:simulated-agentic/simulated-agent.{[method]");
    name.append(agent_type);
    name.append(".");
    name.append(method_name);
    name.append("}");
    name
}

/// The name under which an agent of the type `agent_type` is created
/// remotely.
pub fn remote_constructor_name(agent_type: &str) -> (r: String)
    ensures
        r@ == "golem:simulated-agentic/simulated-agent.{"@ + agent_type@ + ".new}"@,
{
    let mut name = String::from_str("golem:simulated-agentic/simulated-agent.{");
    name.append(agent_type);
    name.append(".new}");
    name
}

/// The answer that a response carries: the first item of the tuple.
pub open spec fn answer_of(response: ValueModel) -> Option<ValueModel> {
    match response {
        ValueModel::Tuple(items) => if items.len() > 0 {
            Some(items[0])
        } else {
            None
        },
        _ => None,
    }
}

/// Takes the answer out of a response.
pub fn first_of_response(response: TypedValue) -> (r: Result<TypedValue, RemoteError>)
    ensures
        match r {
            Ok(answer) => answer_of(response@) == Some(answer@),
            Err(RemoteError::NotATuple) => !(response@ is Tuple),
            Err(RemoteError::EmptyTuple) => response@ is Tuple && answer_of(response@) is None,
            Err(_) => false,
        },
{
    proof {
        lemma_model_of_items(response);
    }
    match response {
        TypedValue::Tuple(mut items) => {
            if items.len() == 0 {
                Err(RemoteError::EmptyTuple)
            } else {
                let ghost all = models(items@);
                let answer = items.swap_remove(0);
                assert(answer@ == all[0]);
                Ok(answer)
            }
        },
        _ => Err(RemoteError::NotATuple),
    }
}

/// What is wrong with an answer to an invocation.
pub ghost enum StatusFault {
    NotAStatus,
    NotEmitted { case_idx: u32 },
    MissingValue,
}

/// The value that a status emits, or what is wrong with the status.
pub open spec fn emitted_by(status: ValueModel) -> Result<ValueModel, StatusFault> {
    match status {
        ValueModel::Variant { case_idx, case_value } => if case_idx != EMIT_CASE {
            Err(StatusFault::NotEmitted { case_idx })
        } else {
            match case_value {
                Some(value) => Ok(*value),
                None => Err(StatusFault::MissingValue),
            }
        },
        _ => Err(StatusFault::NotAStatus),
    }
}

/// Whether the error `e` reports the fault `fault`.
pub open spec fn reports_status_fault(e: RemoteError, fault: StatusFault) -> bool {
    match fault {
        StatusFault::NotAStatus => e is NotAStatus,
        StatusFault::NotEmitted { case_idx } => e matches RemoteError::NotEmitted { case_idx: i }
            && i == case_idx,
        StatusFault::MissingValue => e is MissingValue,
    }
}

/// Takes the emitted value out of a status.
pub fn emitted_value(status: TypedValue) -> (r: Result<TypedValue, RemoteError>)
    ensures
        match r {
            Ok(value) => emitted_by(status@) == Ok::<ValueModel, StatusFault>(value@),
            Err(e) => emitted_by(status@) matches Err(fault) && reports_status_fault(e, fault),
        },
{
    match status {
        TypedValue::Variant { case_idx, case_value } => {
            if case_idx != EMIT_CASE {
                Err(RemoteError::NotEmitted { case_idx })
            } else {
                match case_value {
                    Some(value) => Ok(*value),
                    None => Err(RemoteError::MissingValue),
                }
            }
        },
        _ => Err(RemoteError::NotAStatus),
    }
}

/// The value that the response to an invocation emits, where it emits one.
pub open spec fn emitted_in(response: ValueModel) -> Option<ValueModel> {
    match answer_of(response) {
        Some(status) => match emitted_by(status) {
            Ok(value) => Some(value),
            Err(_) => None,
        },
        None => None,
    }
}

/// Decodes the response to an invocation into the native result of the
/// method.
pub fn decode_emitted<T: FromValue>(response: TypedValue) -> (r: Result<T, RemoteError>)
    ensures
        match r {
            Ok(out) => emitted_in(response@) matches Some(value) && T::refusal(value) is None
                && T::decodes(value, out),
            Err(RemoteError::NotATuple) => !(response@ is Tuple),
            Err(RemoteError::EmptyTuple) => response@ is Tuple && answer_of(response@) is None,
            Err(RemoteError::Conversion(e)) => emitted_in(response@) matches Some(value)
                && T::refusal(value) == Some(e@),
            Err(e) => answer_of(response@) matches Some(status) && emitted_by(status) matches Err(
                fault,
            ) && reports_status_fault(e, fault),
        },
{
    let status = match first_of_response(response) {
        Ok(status) => status,
        Err(e) => {
            return Err(e);
        },
    };
    let value = match emitted_value(status) {
        Ok(value) => value,
        Err(e) => {
            return Err(e);
        },
    };
    match T::from_value(value) {
        Ok(out) => Ok(out),
        Err(e) => Err(RemoteError::Conversion(e)),
    }
}

/// The part of `s` after its last `/`; all of `s` where it has none.
pub open spec fn last_segment(s: Seq<char>) -> Seq<char>
    decreases s.len(),
{
    if s.len() == 0 {
        s
    } else if s.last() == '/' {
        Seq::empty()
    } else {
        last_segment(s.drop_last()).push(s.last())
    }
}

proof fn lemma_last_segment(s: Seq<char>, start: int)
    requires
        0 <= start <= s.len(),
        start > 0 ==> s[start - 1] == '/',
        forall|j: int| start <= j < s.len() ==> s[j] != '/',
    ensures
        last_segment(s) == s.subrange(start, s.len() as int),
    decreases s.len() - start,
{
    if start == s.len() {
        if s.len() > 0 {
            assert(s.last() == '/');
        }
        assert(s.subrange(start, s.len() as int) =~= Seq::<char>::empty());
    } else {
        let rest = s.drop_last();
        assert(s.last() != '/');
        assert forall|j: int| start <= j < rest.len() implies rest[j] != '/' by {
            assert(rest[j] == s[j]);
        }
        if start > 0 {
            assert(rest[start - 1] == s[start - 1]);
        }
        lemma_last_segment(rest, start);
        assert(rest.subrange(start, rest.len() as int).push(s.last()) =~= s.subrange(
            start,
            s.len() as int,
        ));
    }
}

/// The name of the worker that the resource at `uri` lives on: what follows
/// the last `/` of the address.
pub fn worker_name_of_uri(uri: &str) -> (r: String)
    ensures
        r@ == last_segment(uri@),
{
    let text = chars_of(uri);
    let mut start: usize = text.len();
    while start > 0 && text[start - 1] != '/'
        invariant
            start <= text.len(),
            forall|j: int| start <= j < text.len() ==> text@[j] != '/',
        decreases start,
    {
        start = start - 1;
    }
    proof {
        lemma_last_segment(text@, start as int);
    }
    string_of(&text, start, text.len())
}

/// The worker that a handle lives on.
pub fn worker_of_handle(handle: &TypedValue) -> (r: Result<String, RemoteError>)
    ensures
        match r {
            Ok(worker) => handle@ matches ValueModel::Handle { resource_id, uri } && worker@
                == last_segment(uri),
            Err(e) => e is NotAHandle && !(handle@ is Handle),
        },
{
    match handle {
        TypedValue::Handle { resource_id, uri } => Ok(worker_name_of_uri(uri.as_str())),
        _ => Err(RemoteError::NotAHandle),
    }
}

/// The address of the worker `worker_name` of the component
/// `component_id`.
pub open spec fn worker_uri(component_id: Seq<char>, worker_name: Seq<char>) -> Seq<char> {
    "urn:worker:"@ + component_id + "/"@ + worker_name
}

/// The instance id and the handle number of an agent record: its first and
/// its third field.
pub open spec fn agent_record(answer: ValueModel) -> Option<(Seq<char>, u32)> {
    match answer {
        ValueModel::Record(fields) => if fields.len() >= 3 {
            match (fields[0].1, fields[2].1) {
                (ValueModel::Str(agent_id), ValueModel::U32(handle)) => Some((agent_id, handle)),
                _ => None,
            }
        } else {
            None
        },
        _ => None,
    }
}

/// The handle of the agent that an agent record describes: the resource
/// with the handle number of the record on the worker that the instance id
/// names, in the component `component_id`.
pub fn handle_of_agent_record(answer: &TypedValue, component_id: &str) -> (r: Result<
    TypedValue,
    RemoteError,
>)
    ensures
        match r {
            Ok(handle) => agent_record(answer@) matches Some((agent_id, number))
                && agent_id_parts(agent_id) matches Some((worker, _, _)) && handle@
                == (ValueModel::Handle {
                resource_id: number as u64,
                uri: worker_uri(component_id@, worker),
            }),
            Err(RemoteError::NotAnAgentRecord) => agent_record(answer@) is None,
            Err(RemoteError::InvalidAgentId { agent_id }) => agent_record(answer@) matches Some(
                (id, _),
            ) && id == agent_id@ && agent_id_parts(id) is None,
            Err(_) => false,
        },
{
    proof {
        lemma_model_of_items(*answer);
    }
    match answer {
        TypedValue::Record(fields) => {
            if fields.len() < 3 {
                return Err(RemoteError::NotAnAgentRecord);
            }
            proof {
                let all = crate::value::field_models(fields@);
                assert(all[0].1 == fields[0].1@);
                assert(all[2].1 == fields[2].1@);
            }
            match (&fields[0].1, &fields[2].1) {
                (TypedValue::Str(agent_id), TypedValue::U32(number)) => {
                    match parse_agent_id(agent_id.as_str()) {
                        Ok(info) => {
                            let mut uri = String::from_str("urn:worker:");
                            uri.append(component_id);
                            uri.append("/");
                            uri.append(info.worker_name.as_str());
                            Ok(TypedValue::Handle { resource_id: *number as u64, uri })
                        },
                        Err(_) => Err(RemoteError::InvalidAgentId { agent_id: agent_id.clone() }),
                    }
                },
                _ => Err(RemoteError::NotAnAgentRecord),
            }
        },
        _ => Err(RemoteError::NotAnAgentRecord),
    }
}

/// The names of the fields of the record that stands for an agent
/// reference, in order.
pub open spec fn agent_ref_fields() -> Seq<Seq<char>> {
    seq!["agent-id"@, "agent-name"@, "agent-handle"@]
}

impl ToValue for AgentRef {
    /// An agent reference is a record of its id, the name of its agent type
    /// and its handle number.
    open spec fn encoded(&self) -> ValueModel {
        ValueModel::Record(
            seq![
                ("agent-id"@, ValueModel::Str(self.agent_id@)),
                ("agent-name"@, ValueModel::Str(self.agent_name@)),
                ("agent-handle"@, ValueModel::U32(self.agent_handle)),
            ],
        )
    }

    fn to_value(&self) -> (r: TypedValue) {
        let mut fields: Vec<(String, TypedValue)> = Vec::new();
        fields.push(("agent-id".to_owned(), self.agent_id.to_value()));
        fields.push(("agent-name".to_owned(), self.agent_name.to_value()));
        fields.push(("agent-handle".to_owned(), self.agent_handle.to_value()));
        let r = TypedValue::Record(fields);
        proof {
            lemma_model_of_items(r);
            assert(crate::value::field_models(fields@) =~= self.encoded()->Record_0);
        }
        r
    }
}

impl FromValue for AgentRef {
    open spec fn refusal(value: ValueModel) -> Option<ConversionFailure> {
        match record_refusal(value, 3) {
            Some(failure) => Some(failure),
            None => {
                let fields = value->Record_0;
                if String::refusal(fields[0].1) is Some {
                    Some(ConversionFailure::FieldConversionFailure { field: "agent-id"@ })
                } else if String::refusal(fields[1].1) is Some {
                    Some(ConversionFailure::FieldConversionFailure { field: "agent-name"@ })
                } else if u32::refusal(fields[2].1) is Some {
                    Some(ConversionFailure::FieldConversionFailure { field: "agent-handle"@ })
                } else {
                    None
                }
            },
        }
    }

    open spec fn decodes(value: ValueModel, out: Self) -> bool {
        &&& value matches ValueModel::Record(fields)
        &&& fields.len() == 3
        &&& fields[0].1 == ValueModel::Str(out.agent_id@)
        &&& fields[1].1 == ValueModel::Str(out.agent_name@)
        &&& fields[2].1 == ValueModel::U32(out.agent_handle)
    }

    fn from_value(value: TypedValue) -> (r: Result<Self, ConversionError>) {
        let mut values = match record_fields(value, 3) {
            Ok(values) => values,
            Err(e) => {
                return Err(e);
            },
        };
        let ghost all = models(values@);
        assert(all.len() == 3);
        let handle_value = values.remove(2);
        let name_value = values.remove(1);
        let id_value = values.remove(0);
        assert(id_value@ == all[0] && name_value@ == all[1] && handle_value@ == all[2]);
        let agent_id: String = match field_from_value(id_value, "agent-id") {
            Ok(agent_id) => agent_id,
            Err(e) => {
                return Err(e);
            },
        };
        let agent_name: String = match field_from_value(name_value, "agent-name") {
            Ok(agent_name) => agent_name,
            Err(e) => {
                return Err(e);
            },
        };
        let agent_handle: u32 = match field_from_value(handle_value, "agent-handle") {
            Ok(agent_handle) => agent_handle,
            Err(e) => {
                return Err(e);
            },
        };
        Ok(AgentRef { agent_id, agent_name, agent_handle })
    }
}

impl AgentArg for AgentRef {
    proof fn round_trip(&self) {
        let fields = self.encoded()->Record_0;
        assert(fields.len() == 3);
        assert(fields[0].1 == ValueModel::Str(self.agent_id@));
        assert(fields[1].1 == ValueModel::Str(self.agent_name@));
        assert(fields[2].1 == ValueModel::U32(self.agent_handle));
        assert forall|out: Self| Self::decodes(self.encoded(), out) implies out.encoded()
            == self.encoded() by {
            assert(out.encoded()->Record_0 =~= fields);
        }
    }
}

impl ToWitType for AgentRef {
    open spec fn shape() -> DescriptorModel {
        DescriptorModel::Record(
            seq![
                ("agent-id"@, DescriptorModel::Str),
                ("agent-name"@, DescriptorModel::Str),
                ("agent-handle"@, DescriptorModel::U32),
            ],
        )
    }

    fn get_wit_type() -> (d: TypeDescriptor) {
        let mut fields: Vec<(String, TypeDescriptor)> = Vec::new();
        fields.push(("agent-id".to_owned(), TypeDescriptor::Str));
        fields.push(("agent-name".to_owned(), TypeDescriptor::Str));
        fields.push(("agent-handle".to_owned(), TypeDescriptor::U32));
        let d = TypeDescriptor::Record(fields);
        proof {
            crate::descriptor::lemma_model_of_parts(d);
            assert(crate::descriptor::field_descriptor_models(fields@) =~= Self::shape()->Record_0);
        }
        d
    }

    proof fn encoding_has_shape(&self) {
        let fields = self.encoded()->Record_0;
        let types = Self::shape()->Record_0;
        assert(fields.len() == 3 && types.len() == 3);
        assert(has_type(fields[0].1, types[0].1));
        assert(has_type(fields[1].1, types[1].1));
        assert(has_type(fields[2].1, types[2].1));
    }

    proof fn shaped_values_decode(value: ValueModel) {
        let types = Self::shape()->Record_0;
        assert(types.len() == 3);
        assert(types[0].1 == DescriptorModel::Str);
        assert(types[1].1 == DescriptorModel::Str);
        assert(types[2].1 == DescriptorModel::U32);
        match value {
            ValueModel::Record(fields) => {
                assert(has_type(fields[0].1, types[0].1));
                assert(has_type(fields[1].1, types[1].1));
                assert(has_type(fields[2].1, types[2].1));
            },
            _ => {},
        }
    }
}

} // verus!
