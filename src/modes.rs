//! How one process of the agent runs: which roles it takes, and whether it
//! serves one tenant or many.
use vstd::prelude::*;
use crate::text::str_eq;

verus! {

/// Operational role of one agent process.
#[derive(Debug, Clone, Copy, PartialEq, Eq, Structural)]
pub enum AgentMode {
    /// Only process the crawl queue, serve no HTTP API.
    Worker,
    /// Only manage the cluster, process no queue.
    Manager,
    /// Both roles.
    All,
}

impl AgentMode {
    /// The configuration word for this mode.
    pub open spec fn name(self) -> Seq<char> {
        match self {
            AgentMode::Worker => "worker"@,
            AgentMode::Manager => "manager"@,
            AgentMode::All => "all"@,
        }
    }

    /// Reads a mode from its configuration word; any other word is refused
    /// by the caller before this is reached.
    pub fn parse(mode: &str) -> (r: Self)
        requires
            mode@ == "worker"@ || mode@ == "manager"@ || mode@ == "all"@,
        ensures
            r.name() == mode@,
    {
        if str_eq(mode, "worker") {
            AgentMode::Worker
        } else if str_eq(mode, "manager") {
            AgentMode::Manager
        } else {
            AgentMode::All
        }
    }

    /// Whether `mode` is one of the configuration words `parse` reads.
    pub fn is_known(mode: &str) -> (r: bool)
        ensures
            r == (mode@ == "worker"@ || mode@ == "manager"@ || mode@ == "all"@),
    {
        str_eq(mode, "worker") || str_eq(mode, "manager") || str_eq(mode, "all")
    }

    pub fn should_process_queue(&self) -> (r: bool)
        ensures
            r == (*self == AgentMode::Worker || *self == AgentMode::All),
    {
        match self {
            AgentMode::Worker | AgentMode::All => true,
            AgentMode::Manager => false,
        }
    }

    pub fn should_manage_cluster(&self) -> (r: bool)
        ensures
            r == (*self == AgentMode::Manager || *self == AgentMode::All),
    {
        match self {
            AgentMode::Manager | AgentMode::All => true,
            AgentMode::Worker => false,
        }
    }

    /// The configuration word, as text.
    pub fn to_string(&self) -> (r: String)
        ensures
            r@ == self.name(),
    {
        match self {
            AgentMode::Worker => String::from_str("worker"),
            AgentMode::Manager => String::from_str("manager"),
            AgentMode::All => String::from_str("all"),
        }
    }
}

/// Reading back the word that names a mode gives that mode.
pub proof fn lemma_agent_mode_round_trip(m: AgentMode, w: Seq<char>)
    requires
        w == m.name(),
    ensures
        w == "worker"@ || w == "manager"@ || w == "all"@,
        forall|r: AgentMode| r.name() == w ==> r == m,
{
    reveal_strlit("worker");
    reveal_strlit("manager");
    reveal_strlit("all");
    assert("worker"@.len() == 6 && "manager"@.len() == 7 && "all"@.len() == 3);
}

/// Single-tenant or multi-tenant operation.
#[derive(Debug, Clone, Copy, PartialEq, Eq, Structural)]
pub enum DeploymentMode {
    /// One installation, one keyspace.
    SingleTenant,
    /// One keyspace per tenant; requests are scoped by the session's tenant.
    MultiTenant,
}

impl DeploymentMode {
    pub open spec fn name(self) -> Seq<char> {
        match self {
            DeploymentMode::SingleTenant => "single_tenant"@,
            DeploymentMode::MultiTenant => "multi_tenant"@,
        }
    }

    pub fn parse(mode: &str) -> (r: Self)
        requires
            mode@ == "single_tenant"@ || mode@ == "multi_tenant"@,
        ensures
            r.name() == mode@,
    {
        if str_eq(mode, "single_tenant") {
            DeploymentMode::SingleTenant
        } else {
            DeploymentMode::MultiTenant
        }
    }

    /// Whether `mode` is one of the configuration words `parse` reads.
    pub fn is_known(mode: &str) -> (r: bool)
        ensures
            r == (mode@ == "single_tenant"@ || mode@ == "multi_tenant"@),
    {
        str_eq(mode, "single_tenant") || str_eq(mode, "multi_tenant")
    }

    pub fn is_multi_tenant(&self) -> (r: bool)
        ensures
            r == (*self == DeploymentMode::MultiTenant),
    {
        match self {
            DeploymentMode::MultiTenant => true,
            DeploymentMode::SingleTenant => false,
        }
    }

    pub fn to_string(&self) -> (r: String)
        ensures
            r@ == self.name(),
    {
        match self {
            DeploymentMode::SingleTenant => String::from_str("single_tenant"),
            DeploymentMode::MultiTenant => String::from_str("multi_tenant"),
        }
    }
}

} // verus!
