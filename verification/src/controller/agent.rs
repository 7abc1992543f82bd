//! Node-agent mode: the settings it needs before it can mark its Pod ready.

use vstd::prelude::*;

verus! {

/// Label set on the agent Pod when it is ready to accept work on its node.
pub const AGENT_READY_LABEL: &'static str = "proteus.io/agent-ready";

/// Env var injected by the DaemonSet (`spec.nodeName`).
pub const NODE_NAME_ENV: &'static str = "NODE_NAME";

/// Env var for this Pod's name (downward API).
pub const POD_NAME_ENV: &'static str = "POD_NAME";

/// Env var for this Pod's namespace (downward API).
pub const POD_NAMESPACE_ENV: &'static str = "POD_NAMESPACE";

/// Seconds between two readiness heartbeats.
pub const HEARTBEAT_SECS: u64 = 30;

/// Where the agent runs, read from its environment.
#[derive(Clone, Debug)]
pub struct AgentSettings {
    pub node_name: String,
    pub pod_name: String,
    pub pod_namespace: String,
}

/// The agent needs its node name; a missing pod name is empty and a missing namespace is
/// `proteus-system`.
pub fn agent_settings(node_name: Option<String>, pod_name: Option<String>, pod_namespace: Option<
    String,
>) -> (r: Result<AgentSettings, String>)
    ensures
        match node_name {
            Some(n) if n@.len() > 0 => r matches Ok(s) && {
                &&& s.node_name@ == n@
                &&& s.pod_name@ == match pod_name {
                    Some(p) => p@,
                    None => Seq::empty(),
                }
                &&& s.pod_namespace@ == match pod_namespace {
                    Some(p) => p@,
                    None => "proteus-system"@,
                }
            },
            _ => r matches Err(m) && m@
                == "NODE_NAME is required for agent mode (DaemonSet downward API)"@,
        },
{
    let node_name = match node_name {
        Some(n) => n,
        None => String::new(),
    };
    if node_name.as_str().unicode_len() == 0 {
        return Err(
            String::from_str("NODE_NAME is required for agent mode (DaemonSet downward API)"),
        );
    }
    Ok(
        AgentSettings {
            node_name,
            pod_name: match pod_name {
                Some(p) => p,
                None => String::new(),
            },
            pod_namespace: match pod_namespace {
                Some(p) => p,
                None => String::from_str("proteus-system"),
            },
        },
    )
}

/// The readiness heartbeat is sent only when the Pod's name is known.
pub fn should_mark_ready(settings: &AgentSettings) -> (r: bool)
    ensures
        r == (settings.pod_name@.len() > 0),
{
    settings.pod_name.as_str().unicode_len() > 0
}

} // verus!
