//! Resolution of agent implementations by name.

use crate::ResolvedAgent;
use vstd::prelude::*;

verus! {

/// A source of agent implementations.
pub trait Resolver: Send + Sync {
    fn resolve_agent_impl(&self, agent_name: String) -> ResolvedAgent;
}

} // verus!
