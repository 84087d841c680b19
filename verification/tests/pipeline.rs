use hr_viewer::adapter::select_adapter;
use hr_viewer::error::PipelineError;
use hr_viewer::gatt::{position_of, resolve};
use hr_viewer::pipeline::{Action, Event, Pipeline, Stage};
use hr_viewer::publisher::SharedValue;
use hr_viewer::scanner::{name_starts_with, scan_for, SCAN_WINDOW_SECS};
use hr_viewer::subscriber::on_notification;
use hr_viewer::uuid::{expand_short_uuid, Uuid};

fn names(list: &[Option<&str>]) -> Vec<Option<String>> {
    list.iter().map(|n| n.map(String::from)).collect()
}

fn polar() -> Pipeline {
    let (pipeline, first) = Pipeline::start(String::from("Polar OH1"), expand_short_uuid(0x2A37));
    assert_eq!(first, Action::ListAdapters);
    assert_eq!(pipeline.stage(), Stage::ListingAdapters);
    pipeline
}

fn connected() -> Pipeline {
    let mut pipeline = polar();
    pipeline.step(&Event::AdaptersListed(Some(1)));
    pipeline.step(&Event::ScanStarted(true));
    pipeline.step(&Event::PeripheralsListed(names(&[Some("Polar OH1 123")])));
    pipeline.step(&Event::ScanStopped(true));
    assert_eq!(pipeline.step(&Event::ConnectFinished(true)), Action::DiscoverCharacteristics {
        peripheral: 0,
    });
    pipeline
}

#[test]
fn the_first_radio_is_chosen() {
    assert_eq!(select_adapter(Some(1)), Ok(0));
    assert_eq!(select_adapter(Some(3)), Ok(0));
}

#[test]
fn no_radio_is_no_adapter_found() {
    assert_eq!(select_adapter(Some(0)), Err(PipelineError::NoAdapterFound));
    assert_eq!(select_adapter(None), Err(PipelineError::NoAdapterFound));
}

#[test]
fn names_are_compared_from_their_start() {
    assert!(name_starts_with("Polar OH1 123", "Polar OH1"));
    assert!(name_starts_with("Polar OH1", "Polar OH1"));
    assert!(name_starts_with("Polar OH1", ""));
    assert!(name_starts_with("", ""));
    assert!(!name_starts_with("Polar OH", "Polar OH1"));
    assert!(!name_starts_with("", "P"));
    assert!(!name_starts_with("My Polar OH1", "Polar OH1"));
    assert!(!name_starts_with("polar oh1", "Polar OH1"));
    assert!(!name_starts_with("Other Device", "Polar OH1"));
}

#[test]
fn names_outside_ascii_are_compared_by_character() {
    assert!(name_starts_with("Pölar ÖH1 ✓", "Pölar"));
    assert!(!name_starts_with("Polar", "Pölar"));
    assert!(!name_starts_with("é", "e"));
}

#[test]
fn scan_returns_only_the_matching_peripheral() {
    let seen = names(&[Some("Polar OH1 123"), Some("Other Device")]);
    assert_eq!(scan_for(&seen, "Polar OH1"), Ok(0));
    let seen = names(&[Some("Other Device"), Some("Polar OH1 123")]);
    assert_eq!(scan_for(&seen, "Polar OH1"), Ok(1));
}

#[test]
fn scan_returns_the_first_of_several_matches() {
    let seen = names(&[None, Some("Other Device"), Some("Polar OH1 A"), Some("Polar OH1 B")]);
    assert_eq!(scan_for(&seen, "Polar OH1"), Ok(2));
}

#[test]
fn scan_without_a_match_is_device_not_found() {
    assert_eq!(scan_for(&names(&[Some("Other Device")]), "Polar OH1"), Err(
        PipelineError::DeviceNotFound,
    ));
    assert_eq!(scan_for(&names(&[]), "Polar OH1"), Err(PipelineError::DeviceNotFound));
    assert_eq!(scan_for(&names(&[None, None]), ""), Err(PipelineError::DeviceNotFound));
}

#[test]
fn resolve_finds_the_first_exact_match() {
    let hrm = expand_short_uuid(0x2A37);
    let table = Some(vec![expand_short_uuid(0x2A19), Uuid::Short(0x2A37), hrm, hrm]);
    assert_eq!(resolve(&table, &hrm), Ok(2));
    assert_eq!(position_of(&vec![hrm], &hrm), Some(0));
    assert_eq!(position_of(&vec![], &hrm), None);
}

#[test]
fn resolve_tells_a_missing_table_from_a_missing_entry() {
    let hrm = expand_short_uuid(0x2A37);
    assert_eq!(resolve(&None, &hrm), Err(PipelineError::DiscoveryFailed));
    assert_eq!(resolve(&Some(vec![]), &hrm), Err(PipelineError::CharacteristicNotFound));
    assert_eq!(resolve(&Some(vec![expand_short_uuid(0x2A19)]), &hrm), Err(
        PipelineError::CharacteristicNotFound,
    ));
}

#[test]
fn the_stages_follow_one_another() {
    let mut pipeline = polar();
    assert_eq!(pipeline.step(&Event::AdaptersListed(Some(2))), Action::StartScan { adapter: 0 });
    assert_eq!(pipeline.stage(), Stage::StartingScan { adapter: 0 });
    assert_eq!(pipeline.step(&Event::ScanStarted(true)), Action::ListPeripheralsAfter {
        adapter: 0,
        seconds: 2,
    });
    assert_eq!(SCAN_WINDOW_SECS, 2);
    assert_eq!(pipeline.stage(), Stage::Scanning { adapter: 0 });
    let seen = names(&[Some("Other Device"), Some("Polar OH1 123")]);
    assert_eq!(pipeline.step(&Event::PeripheralsListed(seen)), Action::StopScan { adapter: 0 });
    assert_eq!(pipeline.stage(), Stage::StoppingScan { adapter: 0, peripheral: 1 });
    assert_eq!(pipeline.step(&Event::ScanStopped(true)), Action::Connect { peripheral: 1 });
    assert_eq!(pipeline.step(&Event::ConnectFinished(true)), Action::DiscoverCharacteristics {
        peripheral: 1,
    });
    let table = vec![expand_short_uuid(0x2A19), expand_short_uuid(0x2A37)];
    assert_eq!(
        pipeline.step(&Event::CharacteristicsDiscovered(Some(table))),
        Action::RegisterHandler { peripheral: 1 }
    );
    assert_eq!(pipeline.stage(), Stage::Registering { peripheral: 1, characteristic: 1 });
    assert_eq!(pipeline.step(&Event::HandlerRegistered), Action::Subscribe {
        peripheral: 1,
        characteristic: 1,
    });
    assert_eq!(pipeline.step(&Event::SubscribeFinished(true)), Action::Run);
    assert_eq!(pipeline.stage(), Stage::Streaming);
    assert_eq!(pipeline.failure(), None);
}

#[test]
fn end_to_end_three_notifications() {
    let mut pipeline = connected();
    let table = vec![expand_short_uuid(0x2A37)];
    pipeline.step(&Event::CharacteristicsDiscovered(Some(table)));
    pipeline.step(&Event::HandlerRegistered);
    assert_eq!(pipeline.step(&Event::SubscribeFinished(true)), Action::Run);
    let mut slot = SharedValue::new();
    on_notification(&mut slot, &[0x00, 10]);
    on_notification(&mut slot, &[0x00, 20]);
    assert_eq!(slot.current(), 20);
    on_notification(&mut slot, &[0x01, 5]);
    assert_eq!(slot.current(), 0);
}

#[test]
fn no_radio_ends_the_pipeline() {
    let mut pipeline = polar();
    assert_eq!(pipeline.step(&Event::AdaptersListed(Some(0))), Action::Abort(
        PipelineError::NoAdapterFound,
    ));
    assert_eq!(pipeline.failure(), Some(PipelineError::NoAdapterFound));
    let mut pipeline = polar();
    assert_eq!(pipeline.step(&Event::AdaptersListed(None)), Action::Abort(
        PipelineError::NoAdapterFound,
    ));
}

#[test]
fn device_not_found_comes_with_the_list_and_not_before() {
    let mut pipeline = polar();
    pipeline.step(&Event::AdaptersListed(Some(1)));
    pipeline.step(&Event::ScanStarted(true));
    assert_eq!(pipeline.step(&Event::ScanStopped(true)), Action::Ignore);
    assert_eq!(pipeline.step(&Event::ConnectFinished(false)), Action::Ignore);
    assert_eq!(pipeline.stage(), Stage::Scanning { adapter: 0 });
    assert_eq!(pipeline.failure(), None);
    let seen = names(&[Some("Other Device"), None]);
    assert_eq!(pipeline.step(&Event::PeripheralsListed(seen)), Action::Abort(
        PipelineError::DeviceNotFound,
    ));
    assert_eq!(pipeline.stage(), Stage::Failed(PipelineError::DeviceNotFound));
}

#[test]
fn a_scan_that_will_not_start_or_stop_finds_no_device() {
    let mut pipeline = polar();
    pipeline.step(&Event::AdaptersListed(Some(1)));
    assert_eq!(pipeline.step(&Event::ScanStarted(false)), Action::Abort(
        PipelineError::DeviceNotFound,
    ));
    let mut pipeline = polar();
    pipeline.step(&Event::AdaptersListed(Some(1)));
    pipeline.step(&Event::ScanStarted(true));
    pipeline.step(&Event::PeripheralsListed(names(&[Some("Polar OH1 123")])));
    assert_eq!(pipeline.step(&Event::ScanStopped(false)), Action::Abort(
        PipelineError::DeviceNotFound,
    ));
}

#[test]
fn a_refused_connection_is_connection_failed() {
    let mut pipeline = polar();
    pipeline.step(&Event::AdaptersListed(Some(1)));
    pipeline.step(&Event::ScanStarted(true));
    pipeline.step(&Event::PeripheralsListed(names(&[Some("Polar OH1 123")])));
    pipeline.step(&Event::ScanStopped(true));
    assert_eq!(pipeline.step(&Event::ConnectFinished(false)), Action::Abort(
        PipelineError::ConnectionFailed,
    ));
    assert_eq!(pipeline.failure(), Some(PipelineError::ConnectionFailed));
}

#[test]
fn an_unreadable_table_is_discovery_failed() {
    let mut pipeline = connected();
    assert_eq!(pipeline.step(&Event::CharacteristicsDiscovered(None)), Action::Abort(
        PipelineError::DiscoveryFailed,
    ));
}

#[test]
fn a_table_without_the_target_is_characteristic_not_found() {
    let mut pipeline = connected();
    let table = vec![expand_short_uuid(0x2A19), Uuid::Short(0x2A37)];
    assert_eq!(pipeline.step(&Event::CharacteristicsDiscovered(Some(table))), Action::Abort(
        PipelineError::CharacteristicNotFound,
    ));
}

#[test]
fn a_rejected_subscription_is_subscribe_failed() {
    let mut pipeline = connected();
    pipeline.step(&Event::CharacteristicsDiscovered(Some(vec![expand_short_uuid(0x2A37)])));
    pipeline.step(&Event::HandlerRegistered);
    assert_eq!(pipeline.step(&Event::SubscribeFinished(false)), Action::Abort(
        PipelineError::SubscribeFailed,
    ));
    assert_eq!(pipeline.stage(), Stage::Failed(PipelineError::SubscribeFailed));
}

#[test]
fn nothing_moves_a_pipeline_at_rest() {
    let mut failed = polar();
    failed.step(&Event::AdaptersListed(None));
    let mut streaming = connected();
    streaming.step(&Event::CharacteristicsDiscovered(Some(vec![expand_short_uuid(0x2A37)])));
    streaming.step(&Event::HandlerRegistered);
    streaming.step(&Event::SubscribeFinished(true));
    let events = vec![
        Event::AdaptersListed(Some(1)),
        Event::ScanStarted(true),
        Event::PeripheralsListed(names(&[Some("Polar OH1 123")])),
        Event::ScanStopped(true),
        Event::ConnectFinished(true),
        Event::CharacteristicsDiscovered(None),
        Event::HandlerRegistered,
        Event::SubscribeFinished(false),
    ];
    for event in &events {
        assert_eq!(failed.step(event), Action::Ignore);
        assert_eq!(failed.stage(), Stage::Failed(PipelineError::NoAdapterFound));
        assert_eq!(streaming.step(event), Action::Ignore);
        assert_eq!(streaming.stage(), Stage::Streaming);
    }
}

/// A transport that answers from canned values and records the work it was
/// asked to do.
struct FakeTransport {
    radios: Option<usize>,
    names: Vec<Option<String>>,
    connects: bool,
    table: Option<Vec<Uuid>>,
    subscribes: bool,
    log: Vec<Action>,
}

fn drive(transport: &mut FakeTransport) -> Result<(), PipelineError> {
    let (mut pipeline, mut action) =
        Pipeline::start(String::from("Polar OH1"), expand_short_uuid(0x2A37));
    loop {
        transport.log.push(action);
        let event = match action {
            Action::ListAdapters => Event::AdaptersListed(transport.radios),
            Action::StartScan { .. } => Event::ScanStarted(true),
            Action::ListPeripheralsAfter { .. } => {
                Event::PeripheralsListed(transport.names.clone())
            }
            Action::StopScan { .. } => Event::ScanStopped(true),
            Action::Connect { .. } => Event::ConnectFinished(transport.connects),
            Action::DiscoverCharacteristics { .. } => {
                Event::CharacteristicsDiscovered(transport.table.clone())
            }
            Action::RegisterHandler { .. } => Event::HandlerRegistered,
            Action::Subscribe { .. } => Event::SubscribeFinished(transport.subscribes),
            Action::Run => return Ok(()),
            Action::Abort(reason) => return Err(reason),
            Action::Ignore => panic!("the event did not answer the action"),
        };
        action = pipeline.step(&event);
    }
}

fn strap_in_range() -> FakeTransport {
    FakeTransport {
        radios: Some(1),
        names: names(&[Some("Other Device"), Some("Polar OH1 123")]),
        connects: true,
        table: Some(vec![expand_short_uuid(0x2A19), expand_short_uuid(0x2A37)]),
        subscribes: true,
        log: Vec::new(),
    }
}

#[test]
fn a_driven_pipeline_does_the_work_in_order() {
    let mut transport = strap_in_range();
    assert_eq!(drive(&mut transport), Ok(()));
    assert_eq!(transport.log, vec![
        Action::ListAdapters,
        Action::StartScan { adapter: 0 },
        Action::ListPeripheralsAfter { adapter: 0, seconds: 2 },
        Action::StopScan { adapter: 0 },
        Action::Connect { peripheral: 1 },
        Action::DiscoverCharacteristics { peripheral: 1 },
        Action::RegisterHandler { peripheral: 1 },
        Action::Subscribe { peripheral: 1, characteristic: 1 },
        Action::Run,
    ]);
}

#[test]
fn a_driven_pipeline_stops_at_the_first_failure() {
    let mut transport = strap_in_range();
    transport.names = names(&[Some("Other Device")]);
    assert_eq!(drive(&mut transport), Err(PipelineError::DeviceNotFound));
    assert_eq!(transport.log.len(), 4);
    assert_eq!(transport.log[3], Action::Abort(PipelineError::DeviceNotFound));

    let mut transport = strap_in_range();
    transport.connects = false;
    assert_eq!(drive(&mut transport), Err(PipelineError::ConnectionFailed));
    assert_eq!(transport.log.len(), 6);

    let mut transport = strap_in_range();
    transport.subscribes = false;
    assert_eq!(drive(&mut transport), Err(PipelineError::SubscribeFailed));
    assert!(transport.log.contains(&Action::RegisterHandler { peripheral: 1 }));
}

#[test]
fn names_are_compared_as_the_standard_library_does() {
    let words =
        ["", "P", "Polar", "Polar OH1", "Polar OH1 123", "polar", "Pölar", "é", "e", "✓✓"];
    for name in words {
        for prefix in words {
            assert_eq!(name_starts_with(name, prefix), name.starts_with(prefix));
        }
    }
}
