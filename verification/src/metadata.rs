//! Constructor metadata as it is kept between builds: where it is stored
//! and how it is written down.
//!
//! The metadata of an implementation is the list of its constructor
//! parameters, each as the pair of its name and its written type. It is
//! stored as JSON, in a file named after the implementing struct, below the
//! cache directory of the user.

use crate::text::pair_texts;
use vstd::prelude::*;
use vstd::string::StringExecFns;

verus! {

/// The JSON text that `serde_json::to_string` makes of a list of pairs of
/// strings.
pub uninterp spec fn json_of_pairs(pairs: Seq<(Seq<char>, Seq<char>)>) -> Seq<char>;

/// The list of pairs of strings that `serde_json::from_str` reads from a
/// text, or `None` where it refuses the text.
pub uninterp spec fn pairs_of_json(json: Seq<char>) -> Option<Seq<(Seq<char>, Seq<char>)>>;

/// The error type of `serde_json`. It is carried through as it is; nothing
/// is known of its contents.
#[verifier::external_type_specification]
#[verifier::external_body]
pub struct ExJsonError(serde_json::Error);

/// Trusted: the body is `serde_json::to_string` on a list of pairs of
/// strings. The text it returns depends on the list alone; the contract
/// gives that text its name and does not say when the call succeeds.
#[verifier::external_body]
fn pairs_to_json(pairs: &Vec<(String, String)>) -> (r: Result<String, serde_json::Error>)
    ensures
        r matches Ok(json) ==> json@ == json_of_pairs(pair_texts(pairs@)),
{
    serde_json::to_string(pairs)
}

/// Trusted: the body is `serde_json::from_str`, reading a list of pairs of
/// strings. Whether it accepts the text, and what it reads, depends on the
/// text alone; the contract gives that outcome its name.
#[verifier::external_body]
fn json_to_pairs(json: &str) -> (r: Result<Vec<(String, String)>, serde_json::Error>)
    ensures
        match r {
            Ok(pairs) => pairs_of_json(json@) == Some(pair_texts(pairs@)),
            Err(_) => pairs_of_json(json@) is None,
        },
{
    serde_json::from_str(json)
}

/// The message for metadata that could not be written down, given the
/// reason.
pub fn serialization_failure(reason: &str) -> (r: String)
    ensures
        r@ == "Failed to serialize constructor fields: "@ + reason@,
{
    let mut message = String::from_str("Failed to serialize constructor fields: ");
    message.append(reason);
    message
}

/// The message for metadata that could not be read, given the reason.
pub fn parse_failure(reason: &str) -> (r: String)
    ensures
        r@ == "Failed to parse constructor metadata JSON: "@ + reason@,
{
    let mut message = String::from_str("Failed to parse constructor metadata JSON: ");
    message.append(reason);
    message
}

/// Whether `message` is `head` followed by some reason.
pub open spec fn is_failure(message: Seq<char>, head: Seq<char>) -> bool {
    head.is_prefix_of(message)
}

/// Writes constructor metadata down as JSON.
pub fn encode_constructor_metadata(constructor_fields: &Vec<(String, String)>) -> (r: Result<
    String,
    String,
>)
    ensures
        match r {
            Ok(json) => json@ == json_of_pairs(pair_texts(constructor_fields@)),
            Err(message) => is_failure(message@, "Failed to serialize constructor fields: "@),
        },
{
    match pairs_to_json(constructor_fields) {
        Ok(json) => Ok(json),
        Err(error) => {
            let reason = error.to_string();
            let message = serialization_failure(reason.as_str());
            proof {
                let head = "Failed to serialize constructor fields: "@;
                assert(message@.subrange(0, head.len() as int) =~= head);
            }
            Err(message)
        },
    }
}

/// Reads constructor metadata from its JSON form.
pub fn decode_constructor_metadata(json: &str) -> (r: Result<Vec<(String, String)>, String>)
    ensures
        match r {
            Ok(fields) => pairs_of_json(json@) == Some(pair_texts(fields@)),
            Err(message) => pairs_of_json(json@) is None && is_failure(
                message@,
                "Failed to parse constructor metadata JSON: "@,
            ),
        },
{
    match json_to_pairs(json) {
        Ok(fields) => Ok(fields),
        Err(error) => {
            let reason = error.to_string();
            let message = parse_failure(reason.as_str());
            proof {
                let head = "Failed to parse constructor metadata JSON: "@;
                assert(message@.subrange(0, head.len() as int) =~= head);
            }
            Err(message)
        },
    }
}

/// The file of the constructor metadata of the struct `struct_name`,
/// relative to the cache directory.
pub fn constructor_metadata_file(struct_name: &str) -> (r: String)
    ensures
        r@ == "golem-agentic/constructors/"@ + struct_name@ + ".json"@,
{
    let mut path = String::from_str("golem-agentic/constructors/");
    path.append(struct_name);
    path.append(".json");
    path
}

/// The file in which the constructor metadata of the implementation of the
/// agent declaration `trait_name` is looked for, relative to the cache
/// directory: the implementation of `WeatherAgent` is the struct
/// `WeatherAgentImpl`.
pub fn declared_constructor_file(trait_name: &str) -> (r: String)
    ensures
        r@ == "golem-agentic/constructors/"@ + trait_name@ + "Impl.json"@,
{
    let mut path = String::from_str("golem-agentic/constructors/");
    path.append(trait_name);
    path.append("Impl.json");
    path
}

/// The file whose presence marks the trait `trait_name` as an agent
/// declaration, relative to the cache directory.
pub fn agent_trait_marker(trait_name: &str) -> (r: String)
    ensures
        r@ == "golem-agentic/agent-traits/"@ + trait_name@ + ".trait"@,
{
    let mut path = String::from_str("golem-agentic/agent-traits/");
    path.append(trait_name);
    path.append(".trait");
    path
}

} // verus!
