use zerotier_bridge::bridge::{Bridge, BridgeError, Decision, Observation};
use zerotier_bridge::call::{Action, ClientSource, Event, Phase, RemoteCall};
use zerotier_bridge::config::{ClientConfig, ConfigError, Platform};
use zerotier_bridge::flags::{NetworkFlag, NetworkFlags};
use zerotier_bridge::operation::{Operation, Request, Target};
use zerotier_bridge::records::{CentralNetwork, Member, MemberConfig, Record};
use zerotier_bridge::sync::{
    get_networks, join_network, leave_network, sync_apply_network_rules, sync_authorize_member,
    sync_deauthorize_member, sync_delete_member, sync_get_members, sync_get_network,
    sync_get_networks, sync_member_auth, sync_update_member_name, toggle_flag, SyncCall,
};

type Ev = Event<String, String>;
type Act = Action<String, String>;

const LINUX_SECRET: &str = "/var/lib/zerotier-one/authtoken.secret";

/// Feeds the events to the call one after the other and collects what the
/// task is told to do.
fn drive(call: RemoteCall, events: Vec<Ev>) -> (RemoteCall, Vec<Act>) {
    let mut call = call;
    let mut actions = Vec::new();
    for event in events {
        let (next, action) = call.advance(event);
        call = next;
        actions.push(action);
    }
    (call, actions)
}

fn requests(actions: &[Act]) -> Vec<Request> {
    actions
        .iter()
        .filter_map(|action| match action {
            Action::Fetch(request) | Action::Call(request) => Some(request.clone()),
            _ => None,
        })
        .collect()
}

fn local_config(secret: &str) -> ClientConfig {
    ClientConfig {
        base_url: "http://127.0.0.1:9993".to_string(),
        https_only: false,
        header_name: "X-ZT1-Auth".to_string(),
        header_value: secret.to_string(),
    }
}

fn flags_with_dns(allow_dns: Option<bool>) -> NetworkFlags {
    NetworkFlags {
        allow_default: Some(true),
        allow_dns,
        allow_global: None,
        allow_managed: Some(false),
    }
}

fn member(name: Option<&str>, authorized: Option<bool>) -> Member {
    Member { name: name.map(|n| n.to_string()), config: Some(MemberConfig { authorized }) }
}

fn local_calls() -> Vec<RemoteCall> {
    vec![
        get_networks(Platform::Linux),
        sync_get_networks(Platform::Linux).call,
        join_network("net1".to_string(), Platform::Linux).call,
        leave_network("net1".to_string(), Platform::Linux).call,
        toggle_flag("net1".to_string(), NetworkFlag::AllowDNS, Platform::Linux).call,
    ]
}

fn read_modify_write_calls() -> Vec<(RemoteCall, Record)> {
    vec![
        (
            RemoteCall::central(Operation::ToggleFlag {
                network_id: "net1".to_string(),
                flag: NetworkFlag::AllowGlobal,
            }),
            Record::Network(flags_with_dns(None)),
        ),
        (
            sync_update_member_name("net1".to_string(), "m1".to_string(), "laptop".to_string()).call,
            Record::Member(member(Some("old"), Some(false))),
        ),
        (
            sync_member_auth("net1".to_string(), "m1".to_string(), true).call,
            Record::Member(member(Some("old"), Some(false))),
        ),
        (
            sync_apply_network_rules("net1".to_string(), "accept;".to_string()).call,
            Record::CentralNetwork(CentralNetwork { rules_source: Some("drop;".to_string()) }),
        ),
    ]
}

#[test]
fn toggling_dns_on_a_network_where_it_is_unset_sends_off() {
    let sync = toggle_flag("net1".to_string(), NetworkFlag::AllowDNS, Platform::Linux);
    let (call, actions) = drive(
        sync.call,
        vec![
            Event::Begin,
            Event::Credentials(Some("s3cr3t".to_string())),
            Event::Connected,
            Event::Fetched(Ok(Record::Network(flags_with_dns(None)))),
        ],
    );
    assert_eq!(call.phase, Phase::AwaitingReply);
    assert_eq!(
        actions,
        vec![
            Action::ReadCredentials { path: LINUX_SECRET.to_string() },
            Action::Connect(local_config("s3cr3t")),
            Action::Fetch(Request::GetNetwork { network_id: "net1".to_string() }),
            Action::Call(Request::UpdateNetwork {
                network_id: "net1".to_string(),
                body: flags_with_dns(Some(false)),
            }),
        ]
    );
}

#[test]
fn toggling_dns_again_on_a_network_where_it_is_off_sends_on() {
    let sync = toggle_flag("net1".to_string(), NetworkFlag::AllowDNS, Platform::Linux);
    let (_, actions) = drive(
        sync.call,
        vec![
            Event::Begin,
            Event::Credentials(Some("s3cr3t".to_string())),
            Event::Connected,
            Event::Fetched(Ok(Record::Network(flags_with_dns(Some(false))))),
            Event::Replied(Ok("updated".to_string())),
        ],
    );
    assert_eq!(
        actions[3],
        Action::Call(Request::UpdateNetwork {
            network_id: "net1".to_string(),
            body: flags_with_dns(Some(true)),
        })
    );
    assert_eq!(actions[4], Action::Deliver(Ok("updated".to_string())));
}

#[test]
fn each_flag_is_toggled_in_its_own_field() {
    let fetched = NetworkFlags {
        allow_default: None,
        allow_dns: Some(true),
        allow_global: Some(false),
        allow_managed: None,
    };
    let expected = [
        (NetworkFlag::AllowDNS, NetworkFlags { allow_dns: Some(false), ..fetched }),
        (NetworkFlag::AllowGlobal, NetworkFlags { allow_global: Some(true), ..fetched }),
        (NetworkFlag::AllowManaged, NetworkFlags { allow_managed: Some(false), ..fetched }),
        (NetworkFlag::AllowDefault, NetworkFlags { allow_default: Some(false), ..fetched }),
    ];
    for (flag, body) in expected {
        let operation = Operation::ToggleFlag { network_id: "net1".to_string(), flag };
        assert_eq!(
            operation.write_request(Record::Network(fetched)),
            Some(Request::UpdateNetwork { network_id: "net1".to_string(), body })
        );
    }
}

#[test]
fn authorize_and_deauthorize_go_through_member_auth() {
    assert_eq!(
        sync_authorize_member("net1".to_string(), "m1".to_string()),
        sync_member_auth("net1".to_string(), "m1".to_string(), true)
    );
    assert_eq!(
        sync_deauthorize_member("net1".to_string(), "m1".to_string()),
        sync_member_auth("net1".to_string(), "m1".to_string(), false)
    );
    assert_ne!(
        sync_authorize_member("net1".to_string(), "m1".to_string()),
        sync_deauthorize_member("net1".to_string(), "m1".to_string())
    );
}

#[test]
fn authorize_and_deauthorize_are_one_fetch_and_one_update_each() {
    for (sync, value) in [
        (sync_authorize_member("net1".to_string(), "m1".to_string()), true),
        (sync_deauthorize_member("net1".to_string(), "m1".to_string()), false),
    ] {
        let (call, actions) = drive(
            sync.call,
            vec![
                Event::Begin,
                Event::Fetched(Ok(Record::Member(member(Some("laptop"), Some(!value))))),
                Event::Replied(Ok("done".to_string())),
            ],
        );
        assert_eq!(call.phase, Phase::Finished);
        assert_eq!(
            requests(&actions),
            vec![
                Request::GetMember { network_id: "net1".to_string(), member_id: "m1".to_string() },
                Request::UpdateMember {
                    network_id: "net1".to_string(),
                    member_id: "m1".to_string(),
                    body: member(Some("laptop"), Some(value)),
                },
            ]
        );
        assert_eq!(actions[2], Action::Deliver(Ok("done".to_string())));
        assert_eq!(actions.len(), 3);
    }
}

#[test]
fn unreadable_secret_fails_every_local_call_before_any_request() {
    for call in local_calls() {
        assert_eq!(call.operation.target(), Target::LocalAgent);
        let (call, actions) = drive(call, vec![Event::Begin, Event::Credentials(None)]);
        assert_eq!(call.phase, Phase::Finished);
        assert_eq!(
            actions,
            vec![
                Action::ReadCredentials { path: LINUX_SECRET.to_string() },
                Action::Deliver(Err(BridgeError::Configuration(ConfigError::CredentialsUnreadable))),
            ]
        );
        assert!(requests(&actions).is_empty());
    }
}

#[test]
fn malformed_secret_fails_every_local_call_before_any_request() {
    for call in local_calls() {
        let (call, actions) =
            drive(call, vec![Event::Begin, Event::Credentials(Some("s3cr3t\n".to_string()))]);
        assert_eq!(call.phase, Phase::Finished);
        assert_eq!(
            actions[1],
            Action::Deliver(Err(BridgeError::Configuration(ConfigError::MalformedHeaderValue)))
        );
        assert!(requests(&actions).is_empty());
    }
}

#[test]
fn configuration_error_reaches_the_waiting_caller() {
    let sync = leave_network("net1".to_string(), Platform::Linux);
    let (_, mut actions) = drive(sync.call, vec![Event::Begin, Event::Credentials(None)]);
    let delivered = match actions.pop() {
        Some(Action::Deliver(outcome)) => outcome,
        other => panic!("expected a delivery, got {:?}", other),
    };
    assert_eq!(
        sync.bridge.decide(Observation::Received(delivered)),
        Decision::Finish(Err(BridgeError::Configuration(ConfigError::CredentialsUnreadable)))
    );
}

#[test]
fn failed_fetch_is_reported_and_nothing_is_written() {
    for (call, record) in read_modify_write_calls() {
        assert!(call.operation.is_read_modify_write());
        let (call, actions) = drive(
            call,
            vec![
                Event::Begin,
                Event::Fetched(Err("404".to_string())),
                Event::Fetched(Ok(record)),
                Event::Replied(Ok("late".to_string())),
                Event::Connected,
            ],
        );
        assert_eq!(call.phase, Phase::Finished);
        assert!(matches!(actions[0], Action::Fetch(_)));
        assert_eq!(actions[1], Action::Deliver(Err(BridgeError::Remote("404".to_string()))));
        assert_eq!(&actions[2..], &[Action::Halt, Action::Halt, Action::Halt][..]);
        let sent = requests(&actions);
        assert_eq!(sent.len(), 1);
        assert!(!sent[0].writes());
    }
}

#[test]
fn successful_fetch_is_followed_by_exactly_one_write() {
    for (call, record) in read_modify_write_calls() {
        let target = call.operation.target();
        let (call, actions) = drive(
            call,
            vec![Event::Begin, Event::Fetched(Ok(record)), Event::Replied(Err("500".to_string()))],
        );
        assert_eq!(call.phase, Phase::Finished);
        let sent = requests(&actions);
        assert_eq!(sent.len(), 2);
        assert!(!sent[0].writes());
        assert!(sent[1].writes());
        assert_eq!(sent[0].target(), target);
        assert_eq!(sent[1].target(), target);
        assert_eq!(actions[2], Action::Deliver(Err(BridgeError::Remote("500".to_string()))));
    }
}

#[test]
fn renaming_a_member_changes_the_name_only() {
    let sync = sync_update_member_name("net1".to_string(), "m1".to_string(), "laptop".to_string());
    for fetched in [
        member(Some("old"), Some(true)),
        member(None, None),
        Member { name: Some("old".to_string()), config: None },
    ] {
        let expected = Member { name: Some("laptop".to_string()), config: fetched.config };
        assert_eq!(
            sync.call.operation.write_request(Record::Member(fetched)),
            Some(Request::UpdateMember {
                network_id: "net1".to_string(),
                member_id: "m1".to_string(),
                body: expected,
            })
        );
    }
}

#[test]
fn changing_the_admission_keeps_the_name() {
    let operation = Operation::MemberAuth {
        network_id: "net1".to_string(),
        member_id: "m1".to_string(),
        authorized: true,
    };
    assert_eq!(
        operation.write_request(Record::Member(member(Some("laptop"), None))),
        Some(Request::UpdateMember {
            network_id: "net1".to_string(),
            member_id: "m1".to_string(),
            body: member(Some("laptop"), Some(true)),
        })
    );
}

#[test]
fn member_without_config_ends_the_call_in_silence() {
    let sync = sync_authorize_member("net1".to_string(), "m1".to_string());
    let (call, actions) = drive(
        sync.call,
        vec![
            Event::Begin,
            Event::Fetched(Ok(Record::Member(Member { name: Some("x".to_string()), config: None }))),
        ],
    );
    assert_eq!(call.phase, Phase::Finished);
    assert!(call.is_finished());
    assert_eq!(actions[1], Action::Halt);
    assert_eq!(requests(&actions).len(), 1);
}

#[test]
fn applying_rules_replaces_the_rules() {
    let sync = sync_apply_network_rules("net1".to_string(), "accept;".to_string());
    let (_, actions) = drive(
        sync.call,
        vec![
            Event::Begin,
            Event::Fetched(Ok(Record::CentralNetwork(CentralNetwork { rules_source: None }))),
        ],
    );
    assert_eq!(
        actions,
        vec![
            Action::Fetch(Request::GetCentralNetwork { network_id: "net1".to_string() }),
            Action::Call(Request::UpdateCentralNetwork {
                network_id: "net1".to_string(),
                body: CentralNetwork { rules_source: Some("accept;".to_string()) },
            }),
        ]
    );
}

#[test]
fn record_of_the_wrong_kind_is_not_written_back() {
    let toggle = Operation::ToggleFlag { network_id: "n".to_string(), flag: NetworkFlag::AllowDNS };
    assert_eq!(toggle.write_request(Record::Member(member(None, None))), None);
    let rules = Operation::ApplyNetworkRules { network_id: "n".to_string(), rules: "r".to_string() };
    assert_eq!(rules.write_request(Record::Network(NetworkFlags::new())), None);
    let rename = Operation::UpdateMemberName {
        network_id: "n".to_string(),
        member_id: "m".to_string(),
        name: "x".to_string(),
    };
    assert_eq!(rename.write_request(Record::CentralNetwork(CentralNetwork { rules_source: None })), None);
    assert_eq!(Operation::GetNetworks.write_request(Record::Network(NetworkFlags::new())), None);
}

#[test]
fn joining_sends_a_record_with_nothing_configured() {
    let sync = join_network("net1".to_string(), Platform::MacOs);
    let (call, actions) = drive(
        sync.call,
        vec![
            Event::Begin,
            Event::Credentials(Some("s3cr3t".to_string())),
            Event::Connected,
            Event::Replied(Ok("joined".to_string())),
        ],
    );
    assert_eq!(call.phase, Phase::Finished);
    assert_eq!(
        actions,
        vec![
            Action::ReadCredentials {
                path: "/Library/Application Support/ZeroTier/One/authtoken.secret".to_string(),
            },
            Action::Connect(local_config("s3cr3t")),
            Action::Call(Request::UpdateNetwork {
                network_id: "net1".to_string(),
                body: NetworkFlags {
                    allow_default: None,
                    allow_dns: None,
                    allow_global: None,
                    allow_managed: None,
                },
            }),
            Action::Deliver(Ok("joined".to_string())),
        ]
    );
}

#[test]
fn single_request_operations_send_their_request_and_forward_the_answer() {
    let cases: Vec<(SyncCall, Request)> = vec![
        (sync_get_members("net1".to_string()), Request::ListMembers { network_id: "net1".to_string() }),
        (
            sync_delete_member("net1".to_string(), "m1".to_string()),
            Request::DeleteMember { network_id: "net1".to_string(), member_id: "m1".to_string() },
        ),
        (
            sync_get_network("net1".to_string()),
            Request::GetCentralNetwork { network_id: "net1".to_string() },
        ),
    ];
    for (sync, request) in cases {
        assert_eq!(sync.bridge, Bridge::standard());
        assert_eq!(sync.call.client, ClientSource::Supplied);
        assert_eq!(sync.call.phase, Phase::Ready);
        assert_eq!(sync.call.operation.target(), Target::Central);
        assert!(!sync.call.operation.is_read_modify_write());
        assert_eq!(sync.call.operation.opening_request(), request);
        let (call, actions) =
            drive(sync.call, vec![Event::Begin, Event::Replied(Err("boom".to_string()))]);
        assert_eq!(call.phase, Phase::Finished);
        assert_eq!(
            actions,
            vec![Action::Call(request), Action::Deliver(Err(BridgeError::Remote("boom".to_string())))]
        );
    }
}

#[test]
fn local_single_request_operations() {
    let cases: Vec<(SyncCall, Request)> = vec![
        (sync_get_networks(Platform::Windows), Request::ListNetworks),
        (
            leave_network("net1".to_string(), Platform::Windows),
            Request::DeleteNetwork { network_id: "net1".to_string() },
        ),
    ];
    for (sync, request) in cases {
        assert_eq!(sync.bridge, Bridge::standard());
        assert_eq!(
            sync.call.client,
            ClientSource::CredentialFile {
                path: "C:/ProgramData/ZeroTier/One/authtoken.secret".to_string(),
            }
        );
        let (_, actions) = drive(
            sync.call,
            vec![
                Event::Begin,
                Event::Credentials(Some("tok".to_string())),
                Event::Connected,
                Event::Replied(Ok("fine".to_string())),
            ],
        );
        assert_eq!(actions[2], Action::Call(request));
        assert_eq!(actions[3], Action::Deliver(Ok("fine".to_string())));
    }
}

#[test]
fn get_networks_is_the_operation_behind_sync_get_networks() {
    assert_eq!(get_networks(Platform::Linux), sync_get_networks(Platform::Linux).call);
    assert_eq!(
        get_networks(Platform::Linux),
        RemoteCall::local(Operation::GetNetworks, LINUX_SECRET.to_string())
    );
}

#[test]
fn event_out_of_turn_ends_the_call_in_silence() {
    let out_of_turn: Vec<(Vec<Ev>, Ev)> = vec![
        (vec![], Event::Connected),
        (vec![], Event::Replied(Ok("x".to_string()))),
        (vec![Event::Begin], Event::Begin),
        (vec![Event::Begin], Event::Replied(Ok("x".to_string()))),
        (vec![Event::Begin, Event::Credentials(Some("tok".to_string()))], Event::Credentials(None)),
        (
            vec![Event::Begin, Event::Credentials(Some("tok".to_string())), Event::Connected],
            Event::Replied(Ok("x".to_string())),
        ),
    ];
    for (prefix, event) in out_of_turn {
        let sync = toggle_flag("net1".to_string(), NetworkFlag::AllowManaged, Platform::Linux);
        let (call, _) = drive(sync.call, prefix);
        assert_ne!(call.phase, Phase::Finished);
        let (call, action) = call.advance(event);
        assert_eq!(action, Action::Halt);
        assert_eq!(call.phase, Phase::Finished);
    }
}

#[test]
fn finished_call_asks_for_nothing_more() {
    let sync = sync_get_network("net1".to_string());
    let (call, _) = drive(sync.call, vec![Event::Begin, Event::Replied(Ok("net".to_string()))]);
    assert!(call.is_finished());
    let (call, actions) = drive(
        call,
        vec![Event::Begin, Event::Connected, Event::Replied(Ok("again".to_string()))],
    );
    assert!(call.is_finished());
    assert_eq!(actions, vec![Action::Halt, Action::Halt, Action::Halt]);
}

#[test]
fn no_request_goes_out_twice_whatever_is_reported() {
    let reports: Vec<Vec<Ev>> = vec![
        vec![Event::Begin, Event::Begin, Event::Begin],
        vec![
            Event::Begin,
            Event::Fetched(Ok(Record::Member(member(None, Some(true))))),
            Event::Fetched(Ok(Record::Member(member(None, Some(true))))),
            Event::Replied(Ok("x".to_string())),
        ],
        vec![
            Event::Begin,
            Event::Fetched(Ok(Record::Member(member(None, Some(true))))),
            Event::Begin,
            Event::Fetched(Ok(Record::Member(member(None, Some(true))))),
        ],
        vec![
            Event::Begin,
            Event::Connected,
            Event::Fetched(Err("x".to_string())),
            Event::Begin,
        ],
    ];
    for events in reports {
        let sync = sync_member_auth("net1".to_string(), "m1".to_string(), false);
        let (_, actions) = drive(sync.call, events);
        let fetches = actions.iter().filter(|action| matches!(action, Action::Fetch(_))).count();
        let calls = actions.iter().filter(|action| matches!(action, Action::Call(_))).count();
        assert!(fetches <= 1);
        assert!(calls <= 1);
        assert!(calls <= fetches);
    }
}
