//! The calls this crate offers, each as what a blocking caller runs: an
//! operation that has not started yet, and the wait that goes with it.
//!
//! Operations on the local agent set their client up themselves, from the
//! secret that the agent keeps at its default place on this platform, so
//! they are only to be had on a platform that has such a place. Operations
//! on the management service use a client the caller brings along.

use vstd::prelude::*;
use crate::bridge::{Bridge, DEADLINE_NANOS, POLL_INTERVAL_NANOS};
use crate::call::{ClientSource, ClientSourceView, Phase, RemoteCall, RemoteCallView};
use crate::config::{authtoken_path, authtoken_path_known, default_authtoken_path, Platform};
use crate::flags::NetworkFlag;
use crate::operation::{Operation, OperationView, RequestView};
use crate::records::{MemberConfig, MemberView, RecordView};

verus! {

/// An operation that has not started, and how long to wait for it.
#[derive(Clone, Debug, PartialEq, Eq)]
pub struct SyncCall {
    /// The wait.
    pub bridge: Bridge,
    /// The operation.
    pub call: RemoteCall,
}

/// A [`SyncCall`] with its strings as character sequences.
pub struct SyncCallView {
    pub bridge: Bridge,
    pub call: RemoteCallView,
}

impl View for SyncCall {
    type V = SyncCallView;

    open spec fn view(&self) -> SyncCallView {
        SyncCallView { bridge: self.bridge, call: self.call@ }
    }
}

/// The call for an operation on the local agent that has not started: it
/// will read the secret from the platform's default place.
pub open spec fn local_call(operation: OperationView, platform: Platform) -> RemoteCallView {
    RemoteCallView {
        operation,
        client: ClientSourceView::CredentialFile { path: default_authtoken_path(platform) },
        phase: Phase::Ready,
    }
}

/// The call for an operation on the management service that has not
/// started.
pub open spec fn central_call(operation: OperationView) -> RemoteCallView {
    RemoteCallView { operation, client: ClientSourceView::Supplied, phase: Phase::Ready }
}

/// A call together with the wait that every call of this crate uses.
pub open spec fn bridged(call: RemoteCallView) -> SyncCallView {
    SyncCallView {
        bridge: Bridge {
            deadline_nanos: DEADLINE_NANOS,
            poll_interval_nanos: POLL_INTERVAL_NANOS,
        },
        call,
    }
}

fn on_local_agent(operation: Operation, platform: Platform) -> (call: RemoteCall)
    requires
        authtoken_path_known(None, platform),
    ensures
        call@ == local_call(operation@, platform),
{
    RemoteCall::local(operation, authtoken_path(None, platform).to_owned())
}

fn with_standard_wait(call: RemoteCall) -> (sync: SyncCall)
    ensures
        sync@ == bridged(call@),
{
    SyncCall { bridge: Bridge::standard(), call }
}

/// The operation that lists the networks this host has joined, without a
/// wait: for a caller that runs it on a runtime of its own.
pub fn get_networks(platform: Platform) -> (call: RemoteCall)
    requires
        authtoken_path_known(None, platform),
    ensures
        call@ == local_call(OperationView::GetNetworks, platform),
{
    on_local_agent(Operation::GetNetworks, platform)
}

/// Leaves the network `network_id`.
pub fn leave_network(network_id: String, platform: Platform) -> (sync: SyncCall)
    requires
        authtoken_path_known(None, platform),
    ensures
        sync@ == bridged(
            local_call(OperationView::LeaveNetwork { network_id: network_id@ }, platform),
        ),
{
    with_standard_wait(on_local_agent(Operation::LeaveNetwork { network_id }, platform))
}

/// Joins the network `network_id`, by sending the agent a record for it on
/// which nothing is configured.
pub fn join_network(network_id: String, platform: Platform) -> (sync: SyncCall)
    requires
        authtoken_path_known(None, platform),
    ensures
        sync@ == bridged(
            local_call(OperationView::JoinNetwork { network_id: network_id@ }, platform),
        ),
{
    with_standard_wait(on_local_agent(Operation::JoinNetwork { network_id }, platform))
}

/// Lists the networks this host has joined.
pub fn sync_get_networks(platform: Platform) -> (sync: SyncCall)
    requires
        authtoken_path_known(None, platform),
    ensures
        sync@ == bridged(local_call(OperationView::GetNetworks, platform)),
{
    with_standard_wait(get_networks(platform))
}

/// Lists the members of the network `id`.
pub fn sync_get_members(id: String) -> (sync: SyncCall)
    ensures
        sync@ == bridged(central_call(OperationView::GetMembers { network_id: id@ })),
{
    with_standard_wait(RemoteCall::central(Operation::GetMembers { network_id: id }))
}

/// Gives the member `id` of the network `network_id` the name `name`.
pub fn sync_update_member_name(network_id: String, id: String, name: String) -> (sync: SyncCall)
    ensures
        sync@ == bridged(
            central_call(
                OperationView::UpdateMemberName {
                    network_id: network_id@,
                    member_id: id@,
                    name: name@,
                },
            ),
        ),
{
    with_standard_wait(
        RemoteCall::central(Operation::UpdateMemberName { network_id, member_id: id, name }),
    )
}

/// Admits the member `id` to the network `network_id` if `auth` is set, and
/// takes the admission back if it is not.
pub fn sync_member_auth(network_id: String, id: String, auth: bool) -> (sync: SyncCall)
    ensures
        sync@ == bridged(
            central_call(
                OperationView::MemberAuth {
                    network_id: network_id@,
                    member_id: id@,
                    authorized: auth,
                },
            ),
        ),
{
    with_standard_wait(
        RemoteCall::central(Operation::MemberAuth { network_id, member_id: id, authorized: auth }),
    )
}

/// Takes the admission of the member `id` to the network `network_id` back.
pub fn sync_deauthorize_member(network_id: String, id: String) -> (sync: SyncCall)
    ensures
        sync@ == bridged(
            central_call(
                OperationView::MemberAuth {
                    network_id: network_id@,
                    member_id: id@,
                    authorized: false,
                },
            ),
        ),
{
    sync_member_auth(network_id, id, false)
}

/// Admits the member `id` to the network `network_id`.
pub fn sync_authorize_member(network_id: String, id: String) -> (sync: SyncCall)
    ensures
        sync@ == bridged(
            central_call(
                OperationView::MemberAuth {
                    network_id: network_id@,
                    member_id: id@,
                    authorized: true,
                },
            ),
        ),
{
    sync_member_auth(network_id, id, true)
}

/// Removes the member `id` from the network `network_id`.
pub fn sync_delete_member(network_id: String, id: String) -> (sync: SyncCall)
    ensures
        sync@ == bridged(
            central_call(OperationView::DeleteMember { network_id: network_id@, member_id: id@ }),
        ),
{
    with_standard_wait(RemoteCall::central(Operation::DeleteMember { network_id, member_id: id }))
}

/// Toggles the setting `flag` of the joined network `id`.
pub fn toggle_flag(id: String, flag: NetworkFlag, platform: Platform) -> (sync: SyncCall)
    requires
        authtoken_path_known(None, platform),
    ensures
        sync@ == bridged(local_call(OperationView::ToggleFlag { network_id: id@, flag }, platform)),
{
    with_standard_wait(on_local_agent(Operation::ToggleFlag { network_id: id, flag }, platform))
}

/// Fetches the network `network_id` from the management service.
pub fn sync_get_network(network_id: String) -> (sync: SyncCall)
    ensures
        sync@ == bridged(central_call(OperationView::GetNetwork { network_id: network_id@ })),
{
    with_standard_wait(RemoteCall::central(Operation::GetNetwork { network_id }))
}

/// Replaces the rules of the network `network_id` by `rules`.
pub fn sync_apply_network_rules(network_id: String, rules: String) -> (sync: SyncCall)
    ensures
        sync@ == bridged(
            central_call(
                OperationView::ApplyNetworkRules { network_id: network_id@, rules: rules@ },
            ),
        ),
{
    with_standard_wait(RemoteCall::central(Operation::ApplyNetworkRules { network_id, rules }))
}

/// Admitting a member and taking the admission back go the same way: both
/// fetch the member with the same request, and what they send back differs
/// in the admission alone.
pub proof fn admission_calls_differ_in_the_value_only(
    network_id: Seq<char>,
    member_id: Seq<char>,
    fetched: MemberView,
)
    requires
        fetched.config is Some,
    ensures
        ({
            let grant = OperationView::MemberAuth { network_id, member_id, authorized: true };
            let revoke = OperationView::MemberAuth { network_id, member_id, authorized: false };
            &&& grant.is_read_modify_write()
            &&& revoke.is_read_modify_write()
            &&& grant.opening_request() == revoke.opening_request()
            &&& grant.write_request(RecordView::Member(fetched)) == Some(
                RequestView::UpdateMember {
                    network_id,
                    member_id,
                    body: MemberView {
                        name: fetched.name,
                        config: Some(MemberConfig { authorized: Some(true) }),
                    },
                },
            )
            &&& revoke.write_request(RecordView::Member(fetched)) == Some(
                RequestView::UpdateMember {
                    network_id,
                    member_id,
                    body: MemberView {
                        name: fetched.name,
                        config: Some(MemberConfig { authorized: Some(false) }),
                    },
                },
            )
        }),
{
}

} // verus!
