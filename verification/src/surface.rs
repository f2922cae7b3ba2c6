//! Who a terminal belongs to: a workspace (a worktree path) or a member of
//! the agent team.
use vstd::prelude::*;
use crate::text::{chars_of, decimal, push_decimal, string_of};

verus! {

#[derive(Debug, Clone, Copy, PartialEq, Eq, Hash, Structural)]
pub enum Role {
    Pm,
    Orchestrator,
    Architect,
    Recon,
    Engineer,
}

/// The stable text of each role.
pub open spec fn role_str(r: Role) -> Seq<char> {
    match r {
        Role::Pm => "pm"@,
        Role::Orchestrator => "orchestrator"@,
        Role::Architect => "architect"@,
        Role::Recon => "recon"@,
        Role::Engineer => "engineer"@,
    }
}

impl Role {
    pub fn as_str(&self) -> (s: &'static str)
        ensures
            s@ == role_str(*self),
    {
        match self {
            Role::Pm => "pm",
            Role::Orchestrator => "orchestrator",
            Role::Architect => "architect",
            Role::Recon => "recon",
            Role::Engineer => "engineer",
        }
    }
}

#[derive(Debug, Clone, Copy, PartialEq, Eq, Hash, Structural)]
pub struct MemberId {
    pub role: Role,
    pub instance: u32,
}

/// The display label of a member: `engineer-<n>` for engineers, the role
/// text for every other role.
pub open spec fn label_of(id: MemberId) -> Seq<char> {
    match id.role {
        Role::Engineer => "engineer-"@ + decimal(id.instance as nat),
        _ => role_str(id.role),
    }
}

impl MemberId {
    pub fn singleton(role: Role) -> (r: Self)
        ensures
            r == (MemberId { role, instance: 0 }),
    {
        MemberId { role, instance: 0 }
    }

    pub fn engineer(instance: u32) -> (r: Self)
        ensures
            r == (MemberId { role: Role::Engineer, instance }),
    {
        MemberId { role: Role::Engineer, instance }
    }

    /// Stable display label (e.g. "pm", "engineer-1"). Singleton roles drop
    /// the instance.
    pub fn label(&self) -> (s: String)
        ensures
            s@ == label_of(*self),
    {
        match self.role {
            Role::Engineer => {
                let mut v = chars_of("engineer-");
                push_decimal(&mut v, self.instance);
                string_of(&v)
            },
            _ => String::from_str(self.role.as_str()),
        }
    }
}

/// The surface a terminal is bound to.
#[derive(Debug, Clone, PartialEq, Eq, Hash)]
pub enum Surface {
    Workspace(String),
    Member(MemberId),
}

impl Surface {
    /// A copy of this surface.
    pub fn copied(&self) -> (r: Surface)
        ensures
            r == *self,
    {
        match self {
            Surface::Workspace(p) => Surface::Workspace(p.clone()),
            Surface::Member(id) => Surface::Member(*id),
        }
    }

    pub fn workspace_path(&self) -> (r: Option<&String>)
        ensures
            match *self {
                Surface::Workspace(p) => r == Some(&p),
                Surface::Member(_) => r is None,
            },
    {
        match self {
            Surface::Workspace(p) => Some(p),
            Surface::Member(_) => None,
        }
    }
}

} // verus!
