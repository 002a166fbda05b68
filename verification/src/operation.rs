//! The operations a caller can ask for and the requests they are made of.
//!
//! An operation is either a single request whose answer is the result, or a
//! read-modify-write: it fetches a record, changes one field of it, and sends
//! the record back.

use vstd::prelude::*;
use crate::flags::{toggled, NetworkFlag, NetworkFlags};
use crate::records::{
    CentralNetwork,
    CentralNetworkView,
    Member,
    MemberConfig,
    MemberView,
    Record,
    RecordView,
};

verus! {

/// The two services an operation can be addressed to.
#[derive(Clone, Copy, Debug, PartialEq, Eq, Structural)]
pub enum Target {
    /// The agent on this host, which joins and leaves networks.
    LocalAgent,
    /// The management service, which holds networks and their members.
    Central,
}

/// One thing a caller can ask for.
#[derive(Clone, Debug, PartialEq, Eq)]
pub enum Operation {
    /// List the networks this host has joined.
    GetNetworks,
    /// Join a network.
    JoinNetwork { network_id: String },
    /// Leave a network.
    LeaveNetwork { network_id: String },
    /// Toggle one policy setting of a joined network.
    ToggleFlag { network_id: String, flag: NetworkFlag },
    /// List the members of a network.
    GetMembers { network_id: String },
    /// Give a member a new name.
    UpdateMemberName { network_id: String, member_id: String, name: String },
    /// Admit a member to a network, or take the admission back.
    MemberAuth { network_id: String, member_id: String, authorized: bool },
    /// Remove a member from a network.
    DeleteMember { network_id: String, member_id: String },
    /// Fetch a network from the management service.
    GetNetwork { network_id: String },
    /// Replace the rules of a network.
    ApplyNetworkRules { network_id: String, rules: String },
}

/// An [`Operation`] with its strings as character sequences.
pub enum OperationView {
    GetNetworks,
    JoinNetwork { network_id: Seq<char> },
    LeaveNetwork { network_id: Seq<char> },
    ToggleFlag { network_id: Seq<char>, flag: NetworkFlag },
    GetMembers { network_id: Seq<char> },
    UpdateMemberName { network_id: Seq<char>, member_id: Seq<char>, name: Seq<char> },
    MemberAuth { network_id: Seq<char>, member_id: Seq<char>, authorized: bool },
    DeleteMember { network_id: Seq<char>, member_id: Seq<char> },
    GetNetwork { network_id: Seq<char> },
    ApplyNetworkRules { network_id: Seq<char>, rules: Seq<char> },
}

impl View for Operation {
    type V = OperationView;

    open spec fn view(&self) -> OperationView {
        match *self {
            Operation::GetNetworks => OperationView::GetNetworks,
            Operation::JoinNetwork { network_id } => OperationView::JoinNetwork {
                network_id: network_id@,
            },
            Operation::LeaveNetwork { network_id } => OperationView::LeaveNetwork {
                network_id: network_id@,
            },
            Operation::ToggleFlag { network_id, flag } => OperationView::ToggleFlag {
                network_id: network_id@,
                flag,
            },
            Operation::GetMembers { network_id } => OperationView::GetMembers {
                network_id: network_id@,
            },
            Operation::UpdateMemberName {
                network_id,
                member_id,
                name,
            } => OperationView::UpdateMemberName {
                network_id: network_id@,
                member_id: member_id@,
                name: name@,
            },
            Operation::MemberAuth { network_id, member_id, authorized } => OperationView::MemberAuth {
                network_id: network_id@,
                member_id: member_id@,
                authorized,
            },
            Operation::DeleteMember { network_id, member_id } => OperationView::DeleteMember {
                network_id: network_id@,
                member_id: member_id@,
            },
            Operation::GetNetwork { network_id } => OperationView::GetNetwork {
                network_id: network_id@,
            },
            Operation::ApplyNetworkRules { network_id, rules } => OperationView::ApplyNetworkRules {
                network_id: network_id@,
                rules: rules@,
            },
        }
    }
}

/// One request to one of the two services.
#[derive(Clone, Debug, PartialEq, Eq)]
pub enum Request {
    /// Ask the local agent for the networks it has joined.
    ListNetworks,
    /// Ask the local agent for one joined network.
    GetNetwork { network_id: String },
    /// Send the local agent the record of a network. For a network that is
    /// not joined yet this joins it.
    UpdateNetwork { network_id: String, body: NetworkFlags },
    /// Tell the local agent to leave a network.
    DeleteNetwork { network_id: String },
    /// Ask the management service for the members of a network.
    ListMembers { network_id: String },
    /// Ask the management service for one member.
    GetMember { network_id: String, member_id: String },
    /// Send the management service the record of a member.
    UpdateMember { network_id: String, member_id: String, body: Member },
    /// Tell the management service to remove a member.
    DeleteMember { network_id: String, member_id: String },
    /// Ask the management service for a network.
    GetCentralNetwork { network_id: String },
    /// Send the management service the record of a network.
    UpdateCentralNetwork { network_id: String, body: CentralNetwork },
}

/// A [`Request`] with its strings as character sequences.
pub enum RequestView {
    ListNetworks,
    GetNetwork { network_id: Seq<char> },
    UpdateNetwork { network_id: Seq<char>, body: NetworkFlags },
    DeleteNetwork { network_id: Seq<char> },
    ListMembers { network_id: Seq<char> },
    GetMember { network_id: Seq<char>, member_id: Seq<char> },
    UpdateMember { network_id: Seq<char>, member_id: Seq<char>, body: MemberView },
    DeleteMember { network_id: Seq<char>, member_id: Seq<char> },
    GetCentralNetwork { network_id: Seq<char> },
    UpdateCentralNetwork { network_id: Seq<char>, body: CentralNetworkView },
}

impl View for Request {
    type V = RequestView;

    open spec fn view(&self) -> RequestView {
        match *self {
            Request::ListNetworks => RequestView::ListNetworks,
            Request::GetNetwork { network_id } => RequestView::GetNetwork {
                network_id: network_id@,
            },
            Request::UpdateNetwork { network_id, body } => RequestView::UpdateNetwork {
                network_id: network_id@,
                body,
            },
            Request::DeleteNetwork { network_id } => RequestView::DeleteNetwork {
                network_id: network_id@,
            },
            Request::ListMembers { network_id } => RequestView::ListMembers {
                network_id: network_id@,
            },
            Request::GetMember { network_id, member_id } => RequestView::GetMember {
                network_id: network_id@,
                member_id: member_id@,
            },
            Request::UpdateMember { network_id, member_id, body } => RequestView::UpdateMember {
                network_id: network_id@,
                member_id: member_id@,
                body: body@,
            },
            Request::DeleteMember { network_id, member_id } => RequestView::DeleteMember {
                network_id: network_id@,
                member_id: member_id@,
            },
            Request::GetCentralNetwork { network_id } => RequestView::GetCentralNetwork {
                network_id: network_id@,
            },
            Request::UpdateCentralNetwork { network_id, body } => RequestView::UpdateCentralNetwork {
                network_id: network_id@,
                body: body@,
            },
        }
    }
}

/// An optional request with its strings as character sequences.
pub open spec fn request_view(request: Option<Request>) -> Option<RequestView> {
    match request {
        Some(r) => Some(r@),
        None => None,
    }
}

impl RequestView {
    /// Whether the request changes anything at the service it goes to.
    pub open spec fn writes(self) -> bool {
        match self {
            RequestView::ListNetworks => false,
            RequestView::GetNetwork { .. } => false,
            RequestView::ListMembers { .. } => false,
            RequestView::GetMember { .. } => false,
            RequestView::GetCentralNetwork { .. } => false,
            _ => true,
        }
    }

    /// The service the request goes to.
    pub open spec fn target(self) -> Target {
        match self {
            RequestView::ListNetworks => Target::LocalAgent,
            RequestView::GetNetwork { .. } => Target::LocalAgent,
            RequestView::UpdateNetwork { .. } => Target::LocalAgent,
            RequestView::DeleteNetwork { .. } => Target::LocalAgent,
            _ => Target::Central,
        }
    }
}

impl OperationView {
    /// The service the operation is addressed to.
    pub open spec fn target(self) -> Target {
        match self {
            OperationView::GetNetworks => Target::LocalAgent,
            OperationView::JoinNetwork { .. } => Target::LocalAgent,
            OperationView::LeaveNetwork { .. } => Target::LocalAgent,
            OperationView::ToggleFlag { .. } => Target::LocalAgent,
            _ => Target::Central,
        }
    }

    /// Whether the operation fetches a record, changes it and sends it back.
    pub open spec fn is_read_modify_write(self) -> bool {
        match self {
            OperationView::ToggleFlag { .. } => true,
            OperationView::UpdateMemberName { .. } => true,
            OperationView::MemberAuth { .. } => true,
            OperationView::ApplyNetworkRules { .. } => true,
            _ => false,
        }
    }

    /// The request the operation starts with: the fetch of a
    /// read-modify-write, and otherwise the only request there is.
    pub open spec fn opening_request(self) -> RequestView {
        match self {
            OperationView::GetNetworks => RequestView::ListNetworks,
            OperationView::JoinNetwork { network_id } => RequestView::UpdateNetwork {
                network_id,
                body: NetworkFlags::unset(),
            },
            OperationView::LeaveNetwork { network_id } => RequestView::DeleteNetwork { network_id },
            OperationView::ToggleFlag { network_id, flag } => RequestView::GetNetwork {
                network_id,
            },
            OperationView::GetMembers { network_id } => RequestView::ListMembers { network_id },
            OperationView::UpdateMemberName { network_id, member_id, name } => RequestView::GetMember {
                network_id,
                member_id,
            },
            OperationView::MemberAuth { network_id, member_id, authorized } => RequestView::GetMember {
                network_id,
                member_id,
            },
            OperationView::DeleteMember { network_id, member_id } => RequestView::DeleteMember {
                network_id,
                member_id,
            },
            OperationView::GetNetwork { network_id } => RequestView::GetCentralNetwork {
                network_id,
            },
            OperationView::ApplyNetworkRules { network_id, rules } => RequestView::GetCentralNetwork {
                network_id,
            },
        }
    }

    /// The request that sends `fetched` back with the one change the
    /// operation is there to make.
    ///
    /// There is none when the operation is no read-modify-write, when the
    /// record is of another kind than the one it fetches, and when a member
    /// whose admission is to be changed came without its `config` part.
    pub open spec fn write_request(self, fetched: RecordView) -> Option<RequestView> {
        match (self, fetched) {
            (
                OperationView::ToggleFlag { network_id, flag },
                RecordView::Network(flags),
            ) => Some(RequestView::UpdateNetwork { network_id, body: flags.with_toggled(flag) }),
            (
                OperationView::UpdateMemberName { network_id, member_id, name },
                RecordView::Member(member),
            ) => Some(
                RequestView::UpdateMember {
                    network_id,
                    member_id,
                    body: MemberView { name: Some(name), ..member },
                },
            ),
            (
                OperationView::MemberAuth { network_id, member_id, authorized },
                RecordView::Member(member),
            ) => match member.config {
                Some(config) => Some(
                    RequestView::UpdateMember {
                        network_id,
                        member_id,
                        body: MemberView {
                            config: Some(MemberConfig { authorized: Some(authorized), ..config }),
                            ..member
                        },
                    },
                ),
                None => None,
            },
            (
                OperationView::ApplyNetworkRules { network_id, rules },
                RecordView::CentralNetwork(network),
            ) => Some(
                RequestView::UpdateCentralNetwork {
                    network_id,
                    body: CentralNetworkView { rules_source: Some(rules), ..network },
                },
            ),
            _ => None,
        }
    }
}

impl Operation {
    /// Tells which service the operation is addressed to.
    pub fn target(&self) -> (target: Target)
        ensures
            target == self@.target(),
    {
        match self {
            Operation::GetNetworks => Target::LocalAgent,
            Operation::JoinNetwork { .. } => Target::LocalAgent,
            Operation::LeaveNetwork { .. } => Target::LocalAgent,
            Operation::ToggleFlag { .. } => Target::LocalAgent,
            _ => Target::Central,
        }
    }

    /// Tells whether the operation fetches a record, changes it and sends it
    /// back.
    pub fn is_read_modify_write(&self) -> (yes: bool)
        ensures
            yes == self@.is_read_modify_write(),
    {
        match self {
            Operation::ToggleFlag { .. } => true,
            Operation::UpdateMemberName { .. } => true,
            Operation::MemberAuth { .. } => true,
            Operation::ApplyNetworkRules { .. } => true,
            _ => false,
        }
    }

    /// Builds the request the operation starts with.
    pub fn opening_request(&self) -> (request: Request)
        ensures
            request@ == self@.opening_request(),
    {
        match self {
            Operation::GetNetworks => Request::ListNetworks,
            Operation::JoinNetwork { network_id } => Request::UpdateNetwork {
                network_id: network_id.clone(),
                body: NetworkFlags::new(),
            },
            Operation::LeaveNetwork { network_id } => Request::DeleteNetwork {
                network_id: network_id.clone(),
            },
            Operation::ToggleFlag { network_id, .. } => Request::GetNetwork {
                network_id: network_id.clone(),
            },
            Operation::GetMembers { network_id } => Request::ListMembers {
                network_id: network_id.clone(),
            },
            Operation::UpdateMemberName { network_id, member_id, .. } => Request::GetMember {
                network_id: network_id.clone(),
                member_id: member_id.clone(),
            },
            Operation::MemberAuth { network_id, member_id, .. } => Request::GetMember {
                network_id: network_id.clone(),
                member_id: member_id.clone(),
            },
            Operation::DeleteMember { network_id, member_id } => Request::DeleteMember {
                network_id: network_id.clone(),
                member_id: member_id.clone(),
            },
            Operation::GetNetwork { network_id } => Request::GetCentralNetwork {
                network_id: network_id.clone(),
            },
            Operation::ApplyNetworkRules { network_id, .. } => Request::GetCentralNetwork {
                network_id: network_id.clone(),
            },
        }
    }

    /// Builds the request that sends `fetched` back with the one change the
    /// operation is there to make, if there is such a request.
    pub fn write_request(&self, fetched: Record) -> (request: Option<Request>)
        ensures
            request_view(request) == self@.write_request(fetched@),
    {
        match self {
            Operation::ToggleFlag { network_id, flag } => match fetched {
                Record::Network(flags) => {
                    let mut body = flags;
                    body.toggle(*flag);
                    Some(Request::UpdateNetwork { network_id: network_id.clone(), body })
                },
                _ => None,
            },
            Operation::UpdateMemberName { network_id, member_id, name } => match fetched {
                Record::Member(member) => Some(
                    Request::UpdateMember {
                        network_id: network_id.clone(),
                        member_id: member_id.clone(),
                        body: Member { name: Some(name.clone()), config: member.config },
                    },
                ),
                _ => None,
            },
            Operation::MemberAuth { network_id, member_id, authorized } => match fetched {
                Record::Member(member) => match member.config {
                    Some(_) => Some(
                        Request::UpdateMember {
                            network_id: network_id.clone(),
                            member_id: member_id.clone(),
                            body: Member {
                                name: member.name,
                                config: Some(MemberConfig { authorized: Some(*authorized) }),
                            },
                        },
                    ),
                    None => None,
                },
                _ => None,
            },
            Operation::ApplyNetworkRules { network_id, rules } => match fetched {
                Record::CentralNetwork(_) => Some(
                    Request::UpdateCentralNetwork {
                        network_id: network_id.clone(),
                        body: CentralNetwork { rules_source: Some(rules.clone()) },
                    },
                ),
                _ => None,
            },
            _ => None,
        }
    }
}

impl Request {
    /// Tells whether the request changes anything at the service it goes to.
    pub fn writes(&self) -> (yes: bool)
        ensures
            yes == self@.writes(),
    {
        match self {
            Request::ListNetworks => false,
            Request::GetNetwork { .. } => false,
            Request::ListMembers { .. } => false,
            Request::GetMember { .. } => false,
            Request::GetCentralNetwork { .. } => false,
            _ => true,
        }
    }

    /// Tells which service the request goes to.
    pub fn target(&self) -> (target: Target)
        ensures
            target == self@.target(),
    {
        match self {
            Request::ListNetworks => Target::LocalAgent,
            Request::GetNetwork { .. } => Target::LocalAgent,
            Request::UpdateNetwork { .. } => Target::LocalAgent,
            Request::DeleteNetwork { .. } => Target::LocalAgent,
            _ => Target::Central,
        }
    }
}

/// Toggling a setting sends the fetched network back with that setting
/// toggled and the other three as they were fetched.
pub proof fn toggle_write_changes_one_flag(
    network_id: Seq<char>,
    flag: NetworkFlag,
    fetched: NetworkFlags,
)
    ensures
        (OperationView::ToggleFlag { network_id, flag }).write_request(RecordView::Network(fetched))
            matches Some(RequestView::UpdateNetwork { network_id: to, body }) && {
            &&& to == network_id
            &&& body.value_of(flag) == toggled(fetched.value_of(flag))
            &&& forall|other: NetworkFlag|
                other != flag ==> #[trigger] body.value_of(other) == fetched.value_of(other)
        },
{
}

/// Renaming a member sends the fetched member back with the new name and
/// everything else as it was fetched.
pub proof fn rename_write_changes_the_name(
    network_id: Seq<char>,
    member_id: Seq<char>,
    name: Seq<char>,
    fetched: MemberView,
)
    ensures
        (OperationView::UpdateMemberName { network_id, member_id, name }).write_request(
            RecordView::Member(fetched),
        ) == Some(
            RequestView::UpdateMember {
                network_id,
                member_id,
                body: MemberView { name: Some(name), config: fetched.config },
            },
        ),
{
}

/// Changing a member's admission sends the fetched member back with the
/// admission set and everything else as it was fetched. A member that came
/// without its `config` part is not sent back at all.
pub proof fn auth_write_changes_the_admission(
    network_id: Seq<char>,
    member_id: Seq<char>,
    authorized: bool,
    fetched: MemberView,
)
    ensures
        fetched.config is Some ==> (OperationView::MemberAuth {
            network_id,
            member_id,
            authorized,
        }).write_request(RecordView::Member(fetched)) == Some(
            RequestView::UpdateMember {
                network_id,
                member_id,
                body: MemberView {
                    name: fetched.name,
                    config: Some(MemberConfig { authorized: Some(authorized) }),
                },
            },
        ),
        fetched.config is None ==> (OperationView::MemberAuth {
            network_id,
            member_id,
            authorized,
        }).write_request(RecordView::Member(fetched)) is None,
{
}

/// Applying rules sends the fetched network back with the new rules and
/// everything else as it was fetched.
pub proof fn rules_write_changes_the_rules(
    network_id: Seq<char>,
    rules: Seq<char>,
    fetched: CentralNetworkView,
)
    ensures
        (OperationView::ApplyNetworkRules { network_id, rules }).write_request(
            RecordView::CentralNetwork(fetched),
        ) == Some(
            RequestView::UpdateCentralNetwork {
                network_id,
                body: CentralNetworkView { rules_source: Some(rules) },
            },
        ),
{
}

/// Only a read-modify-write has a write, and it is one: a request that
/// changes something, addressed to the service the operation is addressed
/// to. What such an operation starts with changes nothing.
pub proof fn only_read_modify_write_writes(operation: OperationView, fetched: RecordView)
    ensures
        operation.write_request(fetched) is Some ==> operation.is_read_modify_write(),
        operation.write_request(fetched) matches Some(request) ==> request.writes()
            && request.target() == operation.target(),
        operation.is_read_modify_write() ==> !operation.opening_request().writes(),
        operation.opening_request().target() == operation.target(),
{
}

} // verus!
