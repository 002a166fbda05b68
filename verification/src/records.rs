//! The records that the read-modify-write operations fetch, change and send
//! back, reduced to the fields that an operation reads or writes. Whoever
//! talks to the service keeps the rest of a fetched record and lays these
//! fields over it before sending.

use vstd::prelude::*;
use crate::flags::NetworkFlags;

verus! {

/// An optional string as an optional character sequence.
pub open spec fn text_view(text: Option<String>) -> Option<Seq<char>> {
    match text {
        Some(s) => Some(s@),
        None => None,
    }
}

/// The part of a member's record that says what the member may do.
#[derive(Clone, Copy, Debug, PartialEq, Eq, Structural)]
pub struct MemberConfig {
    /// Whether the member is admitted to the network.
    pub authorized: Option<bool>,
}

/// A member of a network as the management service knows it.
#[derive(Clone, Debug, PartialEq, Eq)]
pub struct Member {
    /// The name shown for the member.
    pub name: Option<String>,
    /// `None` when the service sent the record without this part.
    pub config: Option<MemberConfig>,
}

/// A [`Member`] with its name as a character sequence.
pub struct MemberView {
    pub name: Option<Seq<char>>,
    pub config: Option<MemberConfig>,
}

impl View for Member {
    type V = MemberView;

    open spec fn view(&self) -> MemberView {
        MemberView { name: text_view(self.name), config: self.config }
    }
}

/// A network as the management service holds it.
#[derive(Clone, Debug, PartialEq, Eq)]
pub struct CentralNetwork {
    /// The source text of the network's rules.
    pub rules_source: Option<String>,
}

/// A [`CentralNetwork`] with its rules as a character sequence.
pub struct CentralNetworkView {
    pub rules_source: Option<Seq<char>>,
}

impl View for CentralNetwork {
    type V = CentralNetworkView;

    open spec fn view(&self) -> CentralNetworkView {
        CentralNetworkView { rules_source: text_view(self.rules_source) }
    }
}

/// A record that a read-modify-write operation has fetched.
#[derive(Clone, Debug, PartialEq, Eq)]
pub enum Record {
    /// A joined network, from the local agent.
    Network(NetworkFlags),
    /// A member, from the management service.
    Member(Member),
    /// A network, from the management service.
    CentralNetwork(CentralNetwork),
}

/// A [`Record`] with its strings as character sequences.
pub enum RecordView {
    Network(NetworkFlags),
    Member(MemberView),
    CentralNetwork(CentralNetworkView),
}

impl View for Record {
    type V = RecordView;

    open spec fn view(&self) -> RecordView {
        match *self {
            Record::Network(flags) => RecordView::Network(flags),
            Record::Member(member) => RecordView::Member(member@),
            Record::CentralNetwork(network) => RecordView::CentralNetwork(network@),
        }
    }
}

} // verus!
