//! Agents and their instance ids.
//!
//! An instance id has the form `{worker}--{agent-type}--{n}`.

use crate::text::{chars_of, decimal, decimal_string, find_separator, first_separator, is_digit,
    lemma_decimal_digits, lemma_decimal_injective, lemma_first_separator, string_of};
use crate::schema::{AgentType, StatusUpdate};
use crate::value::{models, TypedValue, ValueModel};
use vstd::prelude::*;
use vstd::string::StringExecFns;

verus! {

/// A live agent: the concrete implementation behind an instance.
///
/// Implementations answer `invoke` by dispatching on the method name; see
/// `crate::dispatch`.
///
/// The three relations say what the implementation may answer. An
/// implementation that does not state them leaves its answers open.
pub trait Agent: Send + Sync {
    /// Whether `id` is the id that the agent reports.
    open spec fn reports_id(&self, id: Seq<char>) -> bool {
        true
    }

    /// Whether `status` is an answer to the invocation of `method_name` on
    /// the arguments `input`.
    open spec fn answers(
        &self,
        method_name: Seq<char>,
        input: Seq<ValueModel>,
        status: StatusUpdate,
    ) -> bool {
        true
    }

    /// Whether `definition` is the schema that the agent reports.
    open spec fn reports_definition(&self, definition: AgentType) -> bool {
        true
    }

    fn get_id(&self) -> (id: String)
        ensures
            self.reports_id(id@),
    ;

    fn invoke(&self, method_name: String, input: Vec<TypedValue>) -> (status: StatusUpdate)
        ensures
            self.answers(method_name@, models(input@), status),
    ;

    fn get_definition(&self) -> (definition: AgentType)
        ensures
            self.reports_definition(definition),
    ;
}

/// Agent implementations that can name the id of their next instance.
pub trait GetAgentId {
    fn get_agent_id() -> String;
}

/// The parts of an instance id.
#[derive(Debug, PartialEq, Eq)]
pub struct AgentInfo {
    pub agent_name: String,
    pub worker_name: String,
    pub instance_number: String,
}

impl Clone for AgentInfo {
    fn clone(&self) -> (r: Self)
        ensures
            r.agent_name@ == self.agent_name@,
            r.worker_name@ == self.worker_name@,
            r.instance_number@ == self.instance_number@,
    {
        AgentInfo {
            agent_name: self.agent_name.clone(),
            worker_name: self.worker_name.clone(),
            instance_number: self.instance_number.clone(),
        }
    }
}

/// The first three `--`-separated parts of `id`: worker, agent type and
/// instance number, or `None` when `id` has fewer than three parts.
///
/// Separators are found from left to right and do not overlap; anything
/// after a third separator is ignored.
pub open spec fn agent_id_parts(id: Seq<char>) -> Option<(Seq<char>, Seq<char>, Seq<char>)> {
    let a = first_separator(id, 0);
    if a >= id.len() {
        None
    } else {
        let b = first_separator(id, a + 2);
        if b >= id.len() {
            None
        } else {
            let c = first_separator(id, b + 2);
            Some((id.subrange(0, a), id.subrange(a + 2, b), id.subrange(b + 2, c)))
        }
    }
}

/// The message reported for an id with fewer than three parts.
pub open spec fn invalid_agent_id_message(id: Seq<char>) -> Seq<char> {
    "Invalid agent_id format: "@ + id
        + ". Expected format is {worker_name}-{agent_name}-{instance_number}"@
}

/// Splits an instance id into worker name, agent type name and instance
/// number.
pub fn parse_agent_id(agent_id: &str) -> (r: Result<AgentInfo, String>)
    ensures
        match r {
            Ok(info) => agent_id_parts(agent_id@) == Some(
                (info.worker_name@, info.agent_name@, info.instance_number@),
            ),
            Err(message) => agent_id_parts(agent_id@) is None && message@
                == invalid_agent_id_message(agent_id@),
        },
{
    let text = chars_of(agent_id);
    let n = text.len();
    let a = find_separator(&text, 0);
    if a < n {
        proof {
            lemma_first_separator(text@, 0);
        }
        let b = find_separator(&text, a + 2);
        if b < n {
            proof {
                lemma_first_separator(text@, a + 2);
            }
            let c = find_separator(&text, b + 2);
            let worker_name = string_of(&text, 0, a);
            let agent_name = string_of(&text, a + 2, b);
            let instance = string_of(&text, b + 2, c);
            return Ok(AgentInfo { agent_name, worker_name, instance_number: instance });
        }
    }
    let mut message = String::from_str("Invalid agent_id format: ");
    message.append(agent_id);
    message.append(". Expected format is {worker_name}-{agent_name}-{instance_number}");
    Err(message)
}

/// The separator between the parts of an instance id.
pub open spec fn separator() -> Seq<char> {
    seq!['-', '-']
}

/// The id of the `n`-th instance of `agent_name` on `worker`.
pub open spec fn agent_id_text(worker: Seq<char>, agent_name: Seq<char>, n: nat) -> Seq<char> {
    worker + separator() + agent_name + separator() + decimal(n)
}

/// Builds the id `{worker}--{agent_name}--{count}`.
pub fn format_agent_id(worker_name: &str, agent_name: &str, count: u64) -> (r: String)
    ensures
        r@ == agent_id_text(worker_name@, agent_name@, count as nat),
{
    proof {
        reveal_strlit("--");
        assert("--"@ =~= separator());
    }
    let digits = decimal_string(count);
    let mut id = String::from_str(worker_name);
    id.append("--");
    id.append(agent_name);
    id.append("--");
    id.append(digits.as_str());
    id
}

/// On one worker, the id determines the agent type and the instance number:
/// two ids are equal only if both agree.
pub proof fn lemma_agent_id_injective(
    worker: Seq<char>,
    name1: Seq<char>,
    n1: nat,
    name2: Seq<char>,
    n2: nat,
)
    requires
        agent_id_text(worker, name1, n1) == agent_id_text(worker, name2, n2),
    ensures
        name1 == name2,
        n1 == n2,
{
    let d1 = decimal(n1);
    let d2 = decimal(n2);
    lemma_decimal_digits(n1);
    lemma_decimal_digits(n2);
    let head = worker + separator();
    let t1 = name1 + separator() + d1;
    let t2 = name2 + separator() + d2;
    let id1 = agent_id_text(worker, name1, n1);
    let id2 = agent_id_text(worker, name2, n2);
    assert(id1 =~= head + t1);
    assert(id2 =~= head + t2);
    assert(t1 =~= (head + t1).subrange(head.len() as int, (head + t1).len() as int));
    assert(t2 =~= (head + t2).subrange(head.len() as int, (head + t2).len() as int));
    assert(t1 == t2);
    let total = t1.len() as int;
    assert(total == name1.len() + 2 + d1.len());
    assert(total == name2.len() + 2 + d2.len());
    if d1.len() < d2.len() {
        let k = total - d1.len() - 1;
        assert(t1[k] == '-');
        assert(t2[k] == d2[k - (name2.len() + 2)]);
        assert(is_digit(d2[k - (name2.len() + 2)]));
        assert(false);
    }
    if d2.len() < d1.len() {
        let k = total - d2.len() - 1;
        assert(t2[k] == '-');
        assert(t1[k] == d1[k - (name1.len() + 2)]);
        assert(is_digit(d1[k - (name1.len() + 2)]));
        assert(false);
    }
    assert(d1 =~= t1.subrange(total - d1.len(), total));
    assert(d2 =~= t2.subrange(total - d2.len(), total));
    assert(name1 =~= t1.subrange(0, name1.len() as int));
    assert(name2 =~= t2.subrange(0, name2.len() as int));
    lemma_decimal_injective(n1, n2);
}

} // verus!
