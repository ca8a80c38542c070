use org_pipeline::address::Address;
use org_pipeline::api_actions::api_await;
use org_pipeline::channel::{StagedChannel, DEFAULT_CHANNEL_CAPACITY};
use org_pipeline::error::{Error, ErrorKind};
use org_pipeline::organization_logic::{
    handle_create_organization, on_admin_role_reply, on_member_reply, on_organization_reply,
    OrgSagaPhase,
};
use org_pipeline::reply::ReplyHandle;
use org_pipeline::role::Role;
use org_pipeline::storage_executors::{
    create_member, create_organization, get_admin_role_id, route_storage_request, FindRoleOutcome,
    InsertOutcome, StorageJob, WriteOutcome,
};
use org_pipeline::storage_request::StorageRequest;

fn sample_address() -> Address {
    Address::new(
        "ES".to_string(),
        "Albacete".to_string(),
        "Calle X".to_string(),
        "1".to_string(),
        "02600".to_string(),
    )
}

fn admin_role(id: &str) -> Role {
    Role {
        id: id.to_string(),
        name: "admin".to_string(),
        permissions: Vec::new(),
        default_admin: Some(true),
        default_member: None,
    }
}

#[test]
fn validation_short_circuits_on_empty_name() {
    let mut storage: StagedChannel<StorageRequest> = StagedChannel::bounded(DEFAULT_CHANNEL_CAPACITY);
    let caller: ReplyHandle<String> = ReplyHandle::create();
    let phase = handle_create_organization(
        "ES".to_string(),
        "".to_string(),
        sample_address(),
        "u1".to_string(),
        caller,
        &mut storage,
    );
    // No storage request was ever enqueued.
    assert_eq!(storage.len(), 0);
    match phase {
        OrgSagaPhase::Finished { caller, outcome } => {
            let err = outcome.unwrap_err();
            assert_eq!(err.kind(), ErrorKind::ValidationFailure);
            assert_eq!(err.message().as_str(), "name is empty");
            let got = api_await(caller, false).unwrap_err();
            assert_eq!(got.kind(), ErrorKind::ValidationFailure);
            assert_eq!(got.message().as_str(), "name is empty");
        },
        _ => panic!("expected the saga to finish on validation"),
    }
}

#[test]
fn validation_rejects_unrecognized_country() {
    let mut storage: StagedChannel<StorageRequest> = StagedChannel::bounded(DEFAULT_CHANNEL_CAPACITY);
    let caller: ReplyHandle<String> = ReplyHandle::create();
    let phase = handle_create_organization(
        "ZZ".to_string(),
        "Acme".to_string(),
        sample_address(),
        "u1".to_string(),
        caller,
        &mut storage,
    );
    assert_eq!(storage.len(), 0);
    match phase {
        OrgSagaPhase::Finished { caller: _, outcome } => {
            let err = outcome.unwrap_err();
            assert_eq!(err.kind(), ErrorKind::ValidationFailure);
            assert_eq!(err.message().as_str(), "invalid country specified");
        },
        _ => panic!("expected the saga to finish on validation"),
    }
}

#[test]
fn validation_reports_first_violated_field() {
    let mut storage: StagedChannel<StorageRequest> = StagedChannel::bounded(DEFAULT_CHANNEL_CAPACITY);
    let caller: ReplyHandle<String> = ReplyHandle::create();
    let address = Address::new(
        "ES".to_string(),
        "".to_string(),
        "".to_string(),
        "".to_string(),
        "".to_string(),
    );
    let phase = handle_create_organization(
        "ES".to_string(),
        "Acme".to_string(),
        address,
        "u1".to_string(),
        caller,
        &mut storage,
    );
    match phase {
        OrgSagaPhase::Finished { caller: _, outcome } => {
            let err = outcome.unwrap_err();
            assert_eq!(err.message().as_str(), "address city is empty");
        },
        _ => panic!("expected the saga to finish on validation"),
    }
}

#[test]
fn concrete_scenario_creates_organization_and_member() {
    let mut storage: StagedChannel<StorageRequest> = StagedChannel::bounded(DEFAULT_CHANNEL_CAPACITY);
    let caller: ReplyHandle<String> = ReplyHandle::create();
    let phase = handle_create_organization(
        "ES".to_string(),
        "Acme".to_string(),
        sample_address(),
        "u1".to_string(),
        caller,
        &mut storage,
    );
    let (country, name, address, user_id, caller) = match phase {
        OrgSagaPhase::AwaitingRole { country, name, address, user_id, caller } => {
            (country, name, address, user_id, caller)
        },
        _ => panic!("expected the saga to await the admin role"),
    };

    // Storage stage: the role lookup.
    let request = storage.recv().expect("a role request should be queued");
    let replier = match route_storage_request(request) {
        Some(StorageJob::Role { replier }) => replier,
        _ => panic!("expected a role job"),
    };
    let (role_reply, outcome) =
        get_admin_role_id(replier, FindRoleOutcome::Found { role: admin_role("role-42") });
    assert!(outcome.is_ok());
    let phase =
        on_admin_role_reply(country, name, address, user_id, caller, role_reply, false, &mut storage);
    let (user_id, admin_role_id, caller) = match phase {
        OrgSagaPhase::AwaitingOrganization { user_id, admin_role_id, caller } => {
            (user_id, admin_role_id, caller)
        },
        _ => panic!("expected the saga to await the organization insert"),
    };
    assert_eq!(admin_role_id.as_str(), "role-42");

    // Storage stage: the organization insert.
    let request = storage.recv().expect("an organization request should be queued");
    let (doc, replier) = match route_storage_request(request) {
        Some(StorageJob::Organization { doc, replier }) => (doc, replier),
        _ => panic!("expected an organization job"),
    };
    assert_eq!(doc.country.as_str(), "ES");
    assert_eq!(doc.name.as_str(), "Acme");
    assert_eq!(doc.address.city().as_str(), "Albacete");
    assert_eq!(doc.address.street().as_str(), "Calle X");
    assert_eq!(doc.address.number().as_str(), "1");
    assert_eq!(doc.address.postal_code().as_str(), "02600");
    let (org_reply, outcome) =
        create_organization(replier, InsertOutcome::Inserted { id: "org-7".to_string() });
    assert!(outcome.is_ok());
    let phase =
        on_organization_reply(user_id, admin_role_id, caller, org_reply, false, &mut storage);
    let (organization_id, caller) = match phase {
        OrgSagaPhase::AwaitingMember { organization_id, caller } => (organization_id, caller),
        _ => panic!("expected the saga to await the membership insert"),
    };
    assert_eq!(organization_id.as_str(), "org-7");

    // Storage stage: the membership insert — the exact record the scenario owes.
    let request = storage.recv().expect("a member request should be queued");
    let (doc, replier) = match route_storage_request(request) {
        Some(StorageJob::Member { doc, replier }) => (doc, replier),
        _ => panic!("expected a member job"),
    };
    assert_eq!(doc.user_id.as_str(), "u1");
    assert_eq!(doc.organization_id.as_str(), "org-7");
    assert_eq!(doc.roles.len(), 1);
    assert_eq!(doc.roles[0].as_str(), "role-42");
    let (member_reply, outcome) = create_member(replier, WriteOutcome::Done);
    assert!(outcome.is_ok());

    let phase = on_member_reply(organization_id, caller, member_reply, false);
    match phase {
        OrgSagaPhase::Finished { caller, outcome } => {
            assert!(outcome.is_ok());
            let got = api_await(caller, false).unwrap();
            assert_eq!(got.as_str(), "org-7");
        },
        _ => panic!("expected the saga to finish"),
    }
    assert_eq!(storage.len(), 0);
}

#[test]
fn saga_partial_failure_keeps_organization_and_reports_member_error() {
    let mut storage: StagedChannel<StorageRequest> = StagedChannel::bounded(DEFAULT_CHANNEL_CAPACITY);
    let caller: ReplyHandle<String> = ReplyHandle::create();
    let phase = handle_create_organization(
        "ES".to_string(),
        "Acme".to_string(),
        sample_address(),
        "u1".to_string(),
        caller,
        &mut storage,
    );
    let (country, name, address, user_id, caller) = match phase {
        OrgSagaPhase::AwaitingRole { country, name, address, user_id, caller } => {
            (country, name, address, user_id, caller)
        },
        _ => panic!("expected the saga to await the admin role"),
    };
    let replier = match route_storage_request(storage.recv().unwrap()) {
        Some(StorageJob::Role { replier }) => replier,
        _ => panic!("expected a role job"),
    };
    let (role_reply, _) =
        get_admin_role_id(replier, FindRoleOutcome::Found { role: admin_role("role-42") });
    let phase =
        on_admin_role_reply(country, name, address, user_id, caller, role_reply, false, &mut storage);
    let (user_id, admin_role_id, caller) = match phase {
        OrgSagaPhase::AwaitingOrganization { user_id, admin_role_id, caller } => {
            (user_id, admin_role_id, caller)
        },
        _ => panic!("expected the saga to await the organization insert"),
    };
    // The organization insert succeeds: the document is now persisted.
    let replier = match route_storage_request(storage.recv().unwrap()) {
        Some(StorageJob::Organization { doc: _, replier }) => replier,
        _ => panic!("expected an organization job"),
    };
    let (org_reply, _) =
        create_organization(replier, InsertOutcome::Inserted { id: "org-7".to_string() });
    let phase =
        on_organization_reply(user_id, admin_role_id, caller, org_reply, false, &mut storage);
    let (organization_id, caller) = match phase {
        OrgSagaPhase::AwaitingMember { organization_id, caller } => (organization_id, caller),
        _ => panic!("expected the saga to await the membership insert"),
    };
    // The membership insert fails.
    let replier = match route_storage_request(storage.recv().unwrap()) {
        Some(StorageJob::Member { doc: _, replier }) => replier,
        _ => panic!("expected a member job"),
    };
    let (member_reply, outcome) =
        create_member(replier, WriteOutcome::Failed { message: "disk full".to_string() });
    assert!(outcome.is_err());
    let phase = on_member_reply(organization_id, caller, member_reply, false);
    match phase {
        OrgSagaPhase::Finished { caller, outcome } => {
            // The caller receives the member insert's own error, not a
            // generic failure.
            let err = outcome.unwrap_err();
            assert_eq!(err.kind(), ErrorKind::StorageFailure);
            assert_eq!(err.message().as_str(), "failed to insert member: disk full");
            let got = api_await(caller, false).unwrap_err();
            assert_eq!(got.kind(), ErrorKind::StorageFailure);
            assert_eq!(got.message().as_str(), "failed to insert member: disk full");
        },
        _ => panic!("expected the saga to finish"),
    }
    // No compensation: nothing further was put on the storage queue, so
    // the organization inserted above stays behind.
    assert_eq!(storage.len(), 0);
}

#[test]
fn error_from_storage_reaches_caller_unchanged() {
    let mut storage: StagedChannel<StorageRequest> = StagedChannel::bounded(DEFAULT_CHANNEL_CAPACITY);
    let caller: ReplyHandle<String> = ReplyHandle::create();
    let phase = handle_create_organization(
        "ES".to_string(),
        "Acme".to_string(),
        sample_address(),
        "u1".to_string(),
        caller,
        &mut storage,
    );
    let (country, name, address, user_id, caller) = match phase {
        OrgSagaPhase::AwaitingRole { country, name, address, user_id, caller } => {
            (country, name, address, user_id, caller)
        },
        _ => panic!("expected the saga to await the admin role"),
    };
    // The storage handler explicitly reports a failure of its own.
    let mut replier = match route_storage_request(storage.recv().unwrap()) {
        Some(StorageJob::Role { replier }) => replier,
        _ => panic!("expected a role job"),
    };
    assert!(replier.resolve(Err(Error::new(
        ErrorKind::HandlerReportedFailure,
        "X".to_string()
    ))));
    let phase =
        on_admin_role_reply(country, name, address, user_id, caller, replier, false, &mut storage);
    match phase {
        OrgSagaPhase::Finished { caller, outcome } => {
            let err = outcome.unwrap_err();
            assert_eq!(err.kind(), ErrorKind::HandlerReportedFailure);
            assert_eq!(err.message().as_str(), "X");
            // The external caller sees the identical kind and message.
            let got = api_await(caller, false).unwrap_err();
            assert_eq!(got.kind(), ErrorKind::HandlerReportedFailure);
            assert_eq!(got.message().as_str(), "X");
        },
        _ => panic!("expected the saga to finish"),
    }
    assert_eq!(storage.len(), 0);
}

#[test]
fn role_step_times_out_at_deadline() {
    let mut storage: StagedChannel<StorageRequest> = StagedChannel::bounded(DEFAULT_CHANNEL_CAPACITY);
    let caller: ReplyHandle<String> = ReplyHandle::create();
    let phase = handle_create_organization(
        "ES".to_string(),
        "Acme".to_string(),
        sample_address(),
        "u1".to_string(),
        caller,
        &mut storage,
    );
    let (country, name, address, user_id, caller) = match phase {
        OrgSagaPhase::AwaitingRole { country, name, address, user_id, caller } => {
            (country, name, address, user_id, caller)
        },
        _ => panic!("expected the saga to await the admin role"),
    };
    // The storage stage never answers; the deadline elapses.
    let replier = match route_storage_request(storage.recv().unwrap()) {
        Some(StorageJob::Role { replier }) => replier,
        _ => panic!("expected a role job"),
    };
    let phase =
        on_admin_role_reply(country, name, address, user_id, caller, replier, true, &mut storage);
    match phase {
        OrgSagaPhase::Finished { caller, outcome } => {
            assert_eq!(outcome.unwrap_err().kind(), ErrorKind::ReceiveTimeout);
            let got = api_await(caller, false).unwrap_err();
            assert_eq!(got.kind(), ErrorKind::ReceiveTimeout);
        },
        _ => panic!("expected the saga to finish"),
    }
    assert_eq!(storage.len(), 0);
}

#[test]
fn missing_admin_role_fails_the_saga() {
    let mut storage: StagedChannel<StorageRequest> = StagedChannel::bounded(DEFAULT_CHANNEL_CAPACITY);
    let caller: ReplyHandle<String> = ReplyHandle::create();
    let phase = handle_create_organization(
        "ES".to_string(),
        "Acme".to_string(),
        sample_address(),
        "u1".to_string(),
        caller,
        &mut storage,
    );
    let (country, name, address, user_id, caller) = match phase {
        OrgSagaPhase::AwaitingRole { country, name, address, user_id, caller } => {
            (country, name, address, user_id, caller)
        },
        _ => panic!("expected the saga to await the admin role"),
    };
    let replier = match route_storage_request(storage.recv().unwrap()) {
        Some(StorageJob::Role { replier }) => replier,
        _ => panic!("expected a role job"),
    };
    let (role_reply, outcome) = get_admin_role_id(replier, FindRoleOutcome::Missing);
    let err = outcome.unwrap_err();
    assert_eq!(err.kind(), ErrorKind::StorageFailure);
    assert_eq!(err.message().as_str(), "could not find the admin role");
    let phase =
        on_admin_role_reply(country, name, address, user_id, caller, role_reply, false, &mut storage);
    match phase {
        OrgSagaPhase::Finished { caller: _, outcome } => {
            let err = outcome.unwrap_err();
            assert_eq!(err.kind(), ErrorKind::StorageFailure);
            assert_eq!(err.message().as_str(), "could not find the admin role");
        },
        _ => panic!("expected the saga to finish"),
    }
    assert_eq!(storage.len(), 0);
}
