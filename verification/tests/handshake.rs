use bank_scraper::gocardless::config::{
    ConfigArg, HttpListenerConfig, NamedProvider, ProviderConfig, ProviderState, RetryConfig,
    ScraperConfig,
};
use bank_scraper::gocardless::connect::{
    auth_url, consent_reply, handle_redirect, handle_requisition, requisition_path,
    requisitions_path, CallbackStep, Cmd, LinkAction, LinkError, LinkEvent, LinkFlow, LinkStage,
    Listener, Reply, Requisition, RequisitionStatus,
};

const HS_ID: u128 = 0x67e55044_10b1_426f_9247_bb680e5fe0c8;
const HS_OTHER: u128 = 0x67e55044_10b1_426f_9247_bb680e5fe0c9;
const HS_LINK: &str = "https://ob.example.com/psd2/start/67e55044/SANDBOX";

fn hs_requisition(id: u128, status: RequisitionStatus, link: &str) -> Requisition {
    Requisition {
        id,
        link: link.to_owned(),
        status,
        accounts: vec![1, 2],
        other: serde_json::Value::Null,
    }
}

fn hs_config() -> ScraperConfig {
    ScraperConfig {
        provider: vec![
            NamedProvider {
                name: "first".to_owned(),
                config: ProviderConfig {
                    institution_id: "BANK_ONE".to_owned(),
                    output: "out/one".to_owned(),
                    history_days: None,
                    state: "one.json".to_owned(),
                },
            },
            NamedProvider {
                name: "second".to_owned(),
                config: ProviderConfig {
                    institution_id: "BANK_TWO".to_owned(),
                    output: "out/two".to_owned(),
                    history_days: Some(30),
                    state: "two.json".to_owned(),
                },
            },
        ],
        retries: RetryConfig { delay_s: None, max_delay_s: None, max_retries: None },
        http: HttpListenerConfig { bind_address: "127.0.0.1:3000".to_owned() },
    }
}

fn hs_cmd(provider: &str) -> Cmd {
    Cmd { config: ConfigArg { config: "config.toml".to_owned() }, provider: provider.to_owned() }
}

#[test]
fn foreign_ref_is_not_found_and_does_not_cancel() {
    let listener = Listener::new(HS_ID);
    let step = handle_redirect(&listener, HS_OTHER);
    assert!(matches!(step, CallbackStep::Respond(Reply::NotFound)));
    assert_eq!(listener, Listener { expected_requisition_id: HS_ID, cancelled: false });
    if let CallbackStep::Respond(reply) = step {
        assert_eq!(reply.status_code(), 404);
        assert_eq!(reply.body(), "Unexpected requisition");
    }
}

#[test]
fn matching_ref_fetches_the_requisition() {
    let listener = Listener::new(HS_ID);
    assert!(matches!(handle_redirect(&listener, HS_ID), CallbackStep::Fetch(HS_ID)));
    assert!(!listener.cancelled);
}

#[test]
fn linked_cancels_and_duplicates_change_nothing() {
    let mut listener = Listener::new(HS_ID);
    let reply =
        handle_requisition(&mut listener, Some(hs_requisition(HS_ID, RequisitionStatus::Linked, HS_LINK)));
    assert!(matches!(reply, Reply::Done));
    assert_eq!(reply.status_code(), 200);
    assert_eq!(reply.body(), "Ok");
    assert!(listener.cancelled);
    let after_first = listener;
    let again =
        handle_requisition(&mut listener, Some(hs_requisition(HS_ID, RequisitionStatus::Linked, HS_LINK)));
    assert!(matches!(again, Reply::Done));
    assert_eq!(listener, after_first);
    // Nothing that is fetched later takes the signal back.
    handle_requisition(&mut listener, Some(hs_requisition(HS_ID, RequisitionStatus::Expired, HS_LINK)));
    handle_requisition(&mut listener, Some(hs_requisition(HS_ID, RequisitionStatus::Created, HS_LINK)));
    handle_requisition(&mut listener, None);
    assert_eq!(listener, after_first);
}

#[test]
fn consent_under_way_sends_the_user_on() {
    let under_way = [
        RequisitionStatus::Created,
        RequisitionStatus::GivingConsent,
        RequisitionStatus::UndergoingAuthentication,
        RequisitionStatus::SelectingAccounts,
        RequisitionStatus::GrantingAccess,
    ];
    for status in under_way {
        let name = status.name();
        let mut listener = Listener::new(HS_ID);
        let reply = handle_requisition(&mut listener, Some(hs_requisition(HS_ID, status, HS_LINK)));
        assert!(!listener.cancelled);
        assert_eq!(reply.status_code(), 200);
        match reply {
            Reply::ConsentPage { url, status } => {
                assert_eq!(url, HS_LINK);
                assert_eq!(status.name(), name);
            }
            other => panic!("no consent page: {other:?}"),
        }
    }
}

#[test]
fn consent_link_is_written_as_the_uri_reads() {
    let mut listener = Listener::new(HS_ID);
    let reply = handle_requisition(
        &mut listener,
        Some(hs_requisition(HS_ID, RequisitionStatus::Created, "https://ob.example.com?x=1#part")),
    );
    match reply {
        Reply::ConsentPage { url, .. } => assert_eq!(url, "https://ob.example.com/?x=1"),
        other => panic!("no consent page: {other:?}"),
    }
}

#[test]
fn a_link_that_is_no_uri_is_a_server_error() {
    let mut listener = Listener::new(HS_ID);
    let reply = handle_requisition(
        &mut listener,
        Some(hs_requisition(HS_ID, RequisitionStatus::GivingConsent, "not a uri")),
    );
    assert!(matches!(reply, Reply::ServerError));
    assert_eq!(reply.status_code(), 500);
    assert_eq!(reply.body(), "Error handling response");
    assert!(!listener.cancelled);
    // The link is not read where the user is not sent on.
    let done = handle_requisition(
        &mut listener,
        Some(hs_requisition(HS_ID, RequisitionStatus::Linked, "not a uri")),
    );
    assert!(matches!(done, Reply::Done));
    assert!(listener.cancelled);
}

#[test]
fn other_statuses_are_answered_without_cancelling() {
    let others = [
        RequisitionStatus::Rejected,
        RequisitionStatus::Expired,
        RequisitionStatus::Other("ZZ".to_owned()),
    ];
    for status in others {
        let mut listener = Listener::new(HS_ID);
        let reply = handle_requisition(&mut listener, Some(hs_requisition(HS_ID, status, HS_LINK)));
        assert!(matches!(reply, Reply::Done));
        assert_eq!(reply.status_code(), 200);
        assert!(!listener.cancelled);
    }
}

#[test]
fn failed_fetch_is_a_server_error() {
    let mut listener = Listener::new(HS_ID);
    let reply = handle_requisition(&mut listener, None);
    assert!(matches!(reply, Reply::ServerError));
    assert_eq!(listener, Listener::new(HS_ID));
}

#[test]
fn consent_reply_from_a_read_link() {
    assert!(matches!(
        consent_reply(RequisitionStatus::Created, Some("https://x.example/".to_owned())),
        Reply::ConsentPage { .. }
    ));
    assert!(matches!(consent_reply(RequisitionStatus::Created, None), Reply::ServerError));
    assert!(matches!(consent_reply(RequisitionStatus::Linked, None), Reply::Done));
    assert!(matches!(
        consent_reply(RequisitionStatus::Rejected, Some("https://x.example/".to_owned())),
        Reply::Done
    ));
}

#[test]
fn requisition_paths() {
    assert_eq!(requisitions_path(), "/api/v2/requisitions/");
    assert_eq!(
        requisition_path(HS_ID),
        "/api/v2/requisitions/67e55044-10b1-426f-9247-bb680e5fe0c8/"
    );
    assert_eq!(
        requisition_path(0),
        "/api/v2/requisitions/00000000-0000-0000-0000-000000000000/"
    );
    assert_eq!(
        requisition_path(u128::MAX),
        "/api/v2/requisitions/ffffffff-ffff-ffff-ffff-ffffffffffff/"
    );
    assert_eq!(
        requisition_path(0x0123456789abcdef_fedcba9876543210),
        "/api/v2/requisitions/01234567-89ab-cdef-fedc-ba9876543210/"
    );
    assert_eq!(
        requisition_path(HS_ID),
        format!("/api/v2/requisitions/{}/", uuid::Uuid::from_u128(HS_ID))
    );
}

#[test]
fn auth_url_carries_the_requisition_as_ref() {
    assert_eq!(
        auth_url("http://localhost:3000/", HS_ID),
        "http://localhost:3000/?ref=67e55044-10b1-426f-9247-bb680e5fe0c8"
    );
    assert_eq!(auth_url("", 0), "?ref=00000000-0000-0000-0000-000000000000");
    // The address the listener is reached at is taken as it is.
    assert_eq!(
        auth_url("http://h/a b?x=1&y", u128::MAX),
        "http://h/a b?x=1&y?ref=ffffffff-ffff-ffff-ffff-ffffffffffff"
    );
}

#[test]
fn linking_runs_from_request_to_saved_state() {
    let (mut flow, action) =
        hs_cmd("second").start(&hs_config(), "http://localhost:3000/").expect("a provider");
    assert_eq!(flow.stage, LinkStage::Creating);
    match action {
        LinkAction::Create(request) => {
            assert_eq!(request.institution_id, "BANK_TWO");
            assert_eq!(request.redirect, "http://localhost:3000/");
        }
        other => panic!("no request: {other:?}"),
    }
    let serve = flow.step(LinkEvent::Created(hs_requisition(HS_ID, RequisitionStatus::Created, HS_LINK)));
    assert_eq!(flow.stage, LinkStage::Listening { requisition_id: HS_ID });
    match serve {
        LinkAction::Serve { expected, auth_url } => {
            assert_eq!(expected, HS_ID);
            assert_eq!(auth_url, "http://localhost:3000/?ref=67e55044-10b1-426f-9247-bb680e5fe0c8");
        }
        other => panic!("not serving: {other:?}"),
    }
    let fetch = flow.step(LinkEvent::ListenerStopped);
    assert_eq!(flow.stage, LinkStage::Confirming { requisition_id: HS_ID });
    assert!(matches!(fetch, LinkAction::Fetch { path } if path == requisition_path(HS_ID)));
    let save = flow.step(LinkEvent::Fetched(hs_requisition(HS_ID, RequisitionStatus::Linked, HS_LINK)));
    assert_eq!(flow.stage, LinkStage::Saving { requisition_id: HS_ID });
    assert!(matches!(save, LinkAction::Save(ProviderState { requisition_id: HS_ID })));
    let finish = flow.step(LinkEvent::Saved);
    assert_eq!(flow.stage, LinkStage::Done);
    assert!(matches!(finish, LinkAction::Finish));
    assert!(matches!(flow.step(LinkEvent::Saved), LinkAction::Finish));
    assert!(matches!(flow.step(LinkEvent::Failed(LinkError::Io)), LinkAction::Finish));
    assert_eq!(flow.stage, LinkStage::Done);
}

#[test]
fn linking_an_unknown_provider_fails() {
    assert_eq!(
        hs_cmd("third").start(&hs_config(), "http://localhost:3000/").err(),
        Some(LinkError::UnknownProvider)
    );
}

#[test]
fn linking_stops_on_failure_and_out_of_turn() {
    let start = || LinkFlow { stage: LinkStage::Creating, base_url: "http://h/".to_owned() };
    let mut flow = start();
    assert!(matches!(flow.step(LinkEvent::Failed(LinkError::Remote)), LinkAction::Abort(LinkError::Remote)));
    assert_eq!(flow.stage, LinkStage::Failed(LinkError::Remote));
    assert!(matches!(flow.step(LinkEvent::Saved), LinkAction::Abort(LinkError::Remote)));
    assert_eq!(flow.stage, LinkStage::Failed(LinkError::Remote));

    let mut flow = start();
    assert!(matches!(flow.step(LinkEvent::Saved), LinkAction::Abort(LinkError::OutOfTurn)));
    assert_eq!(flow.stage, LinkStage::Failed(LinkError::OutOfTurn));

    let mut flow = LinkFlow {
        stage: LinkStage::Listening { requisition_id: HS_ID },
        base_url: "http://h/".to_owned(),
    };
    assert!(matches!(flow.step(LinkEvent::Failed(LinkError::Io)), LinkAction::Abort(LinkError::Io)));

    let mut flow = LinkFlow {
        stage: LinkStage::Confirming { requisition_id: HS_ID },
        base_url: "http://h/".to_owned(),
    };
    // The state is saved whatever the status fetched at the end.
    let save = flow.step(LinkEvent::Fetched(hs_requisition(HS_OTHER, RequisitionStatus::Rejected, HS_LINK)));
    assert!(matches!(save, LinkAction::Save(ProviderState { requisition_id: HS_OTHER })));
}

#[test]
fn state_keeps_the_requisition_id() {
    let requisition = hs_requisition(HS_ID, RequisitionStatus::Linked, HS_LINK);
    assert_eq!(ProviderState::from_requisition(&requisition), ProviderState { requisition_id: HS_ID });
    assert!(requisition.is_linked());
    assert!(!hs_requisition(HS_ID, RequisitionStatus::Created, HS_LINK).is_linked());
}
