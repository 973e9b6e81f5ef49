use aw_server::android::{
    event_limit, rust_greeting, start_server, Answer,
    Java_net_activitywatch_android_RustInterface_createBucket as create_bucket,
    Java_net_activitywatch_android_RustInterface_getBuckets as get_buckets,
    Java_net_activitywatch_android_RustInterface_getEvents as get_events,
    Java_net_activitywatch_android_RustInterface_greeting as greeting,
    Java_net_activitywatch_android_RustInterface_heartbeat as heartbeat,
    Java_net_activitywatch_android_RustInterface_initialize as initialize,
    Java_net_activitywatch_android_RustInterface_setDataDir as set_data_dir, Step, StoreCall,
    SERVER_PORT,
};
use aw_server::datastore::{openDatastore, Access, DatastoreSlot};
use aw_server::dirs::DirectoryCell;
use aw_server::fault::Contained;
use aw_server::gate::InitGate;
use aw_server::marshal::{MarshalError, TextHandle};

fn text(value: &str) -> TextHandle {
    TextHandle::Settled(Ok(value.as_bytes().to_vec()))
}

fn ok<T>(value: T) -> Answer<T> {
    Some(Contained::Returned(Ok(value)))
}

fn refused<T>(reason: &str) -> Answer<T> {
    Some(Contained::Returned(Err(String::from(reason))))
}

fn reply(step: Step) -> Option<String> {
    match step {
        Step::Reply(sent) => sent.map(|found| found.as_str().to_owned()),
        _ => panic!("not a reply"),
    }
}

#[test]
fn greeting_names_the_recipient() {
    assert_eq!(rust_greeting(Some(b"world")).unwrap().as_str(), "Hello world (from Rust!)");
    assert_eq!(rust_greeting(Some(b"")).unwrap().as_str(), "Hello  (from Rust!)");
    assert_eq!(
        rust_greeting(Some("\u{4e16}\u{754c}".as_bytes())).unwrap().as_str(),
        "Hello \u{4e16}\u{754c} (from Rust!)"
    );
}

#[test]
fn greeting_falls_back_to_a_placeholder() {
    assert_eq!(rust_greeting(Some(&[0xff, 0xfe])).unwrap().as_str(), "Hello there (from Rust!)");
    assert_eq!(
        greeting(&TextHandle::Settled(Ok(vec![0xed, 0xa0, 0x80]))).unwrap().as_str(),
        "Hello there (from Rust!)"
    );
}

#[test]
fn greeting_of_nobody_is_null() {
    assert!(rust_greeting(None).is_none());
    assert!(rust_greeting(Some(b"a\0b")).is_none());
    assert!(greeting(&TextHandle::from_reference(true)).is_none());
    assert!(greeting(&TextHandle::Unchecked).is_none());
    assert!(greeting(&TextHandle::Present).is_none());
    assert!(greeting(&TextHandle::Settled(Err(MarshalError::Faulted))).is_none());
    assert!(greeting(&TextHandle::Settled(Err(MarshalError::HostFailure))).is_none());
}

#[test]
fn greeting_through_the_host_handle() {
    assert_eq!(greeting(&text("Android")).unwrap().as_str(), "Hello Android (from Rust!)");
}

#[test]
fn initialize_asks_for_setup_once() {
    let mut gate = InitGate::new();
    assert!(!gate.is_initialized());
    assert!(initialize(&mut gate));
    assert!(gate.is_initialized());
    for _ in 0..10 {
        assert!(!initialize(&mut gate));
        assert!(!gate.ensure_initialized());
    }
    assert!(gate.is_initialized());
}

#[test]
fn setup_runs_once_whoever_comes_first() {
    let mut gate = InitGate::new();
    let mut cell = DirectoryCell::new();
    let mut runs = 0;
    if set_data_dir(&mut gate, &mut cell, &text("/tmp/aw-test")).run_setup {
        runs += 1;
    }
    if initialize(&mut gate) {
        runs += 1;
    }
    if set_data_dir(&mut gate, &mut cell, &text("/tmp/aw-test")).run_setup {
        runs += 1;
    }
    assert_eq!(runs, 1);
}

#[test]
fn set_data_dir_writes_the_cell() {
    let mut gate = InitGate::new();
    let mut cell = DirectoryCell::new();
    let report = set_data_dir(&mut gate, &mut cell, &text("/tmp/aw-test"));
    assert!(report.run_setup);
    assert_eq!(report.stored, Ok(()));
    assert_eq!(cell.get(), "/tmp/aw-test");
    let report = set_data_dir(&mut gate, &mut cell, &text("/with\0nul"));
    assert_eq!(report.stored, Ok(()));
    assert_eq!(cell.get(), "/with\0nul");
}

#[test]
fn set_data_dir_without_a_directory_keeps_the_cell() {
    let mut gate = InitGate::new();
    let mut cell = DirectoryCell::new();
    cell.set("/kept");
    let cases = [
        (text(""), MarshalError::Empty),
        (TextHandle::from_reference(true), MarshalError::NullHandle),
        (TextHandle::Unchecked, MarshalError::NotRead),
        (TextHandle::Settled(Err(MarshalError::Faulted)), MarshalError::Faulted),
        (TextHandle::Settled(Err(MarshalError::HostFailure)), MarshalError::HostFailure),
        (TextHandle::Settled(Ok(vec![0xff])), MarshalError::InvalidEncoding),
    ];
    for (handle, reason) in cases {
        let report = set_data_dir(&mut gate, &mut cell, &handle);
        assert_eq!(report.stored, Err(reason));
        assert_eq!(cell.get(), "/kept");
        assert!(gate.is_initialized());
    }
}

#[test]
fn scenario_create_bucket_then_get_buckets() {
    let mut gate = InitGate::new();
    let mut cell = DirectoryCell::new();
    let mut slot = DatastoreSlot::new();
    set_data_dir(&mut gate, &mut cell, &text("/tmp/aw-test"));
    let descriptor = text("{\"id\":\"b1\",\"type\":\"test\"}");
    let mut buckets: Vec<String> = Vec::new();

    match create_bucket(&descriptor, &None, &None) {
        Step::Parse(payload) => assert_eq!(payload, "{\"id\":\"b1\",\"type\":\"test\"}"),
        _ => panic!("the descriptor goes to the parser first"),
    }
    match create_bucket(&descriptor, &ok(()), &None) {
        Step::Store(StoreCall::CreateBucket) => {
            match openDatastore(&mut slot, &cell) {
                Access::Construct(location) => assert_eq!(location, "/tmp/aw-test/sqlite.db"),
                Access::Share(_) => panic!("the first request constructs the engine"),
            }
            buckets.push(String::from("b1"));
        }
        _ => panic!("a parsed bucket goes to the storage engine"),
    }
    assert_eq!(
        reply(create_bucket(&descriptor, &ok(()), &ok(()))),
        Some(String::from("Bucket successfully created"))
    );

    assert!(matches!(get_buckets(&None), Step::Store(StoreCall::GetBuckets)));
    match openDatastore(&mut slot, &cell) {
        Access::Share(location) => assert_eq!(location, "/tmp/aw-test/sqlite.db"),
        Access::Construct(_) => panic!("the engine is constructed once"),
    }
    let listing = format!("[{{\"id\":\"{}\",\"type\":\"test\"}}]", buckets[0]);
    let sent = reply(get_buckets(&ok(listing))).unwrap();
    assert!(sent.starts_with('['));
    assert!(sent.contains("\"id\":\"b1\""));
}

#[test]
fn scenario_heartbeat_on_missing_bucket_is_an_error_object() {
    let bucket_id = text("b1");
    let event = text("{\"timestamp\":\"2024-01-01T00:00:00Z\",\"duration\":0,\"data\":{}}");
    match heartbeat(&bucket_id, &event, &None, &None) {
        Step::Parse(payload) => {
            assert_eq!(payload, "{\"timestamp\":\"2024-01-01T00:00:00Z\",\"duration\":0,\"data\":{}}")
        }
        _ => panic!("the event goes to the parser first"),
    }
    match heartbeat(&bucket_id, &event, &ok(()), &None) {
        Step::Store(StoreCall::Heartbeat { bucket_id }) => assert_eq!(bucket_id, "b1"),
        _ => panic!("a parsed event goes to the storage engine"),
    }
    let sent = reply(heartbeat(&bucket_id, &event, &ok(()), &refused("NoSuchBucket(\"b1\")"))).unwrap();
    assert_eq!(
        sent,
        "{\"error\":\"Something went wrong when trying to send heartbeat: NoSuchBucket(\\\"b1\\\")\"}"
    );
    let parsed: serde_json::Value = serde_json::from_str(&sent).unwrap();
    assert!(!parsed.get("error").unwrap().as_str().unwrap().is_empty());
}

#[test]
fn heartbeat_success_and_faults() {
    let bucket_id = text("b1");
    let event = text("{}");
    assert_eq!(
        reply(heartbeat(&bucket_id, &event, &ok(()), &ok(()))),
        Some(String::from("Heartbeat successfully received"))
    );
    assert_eq!(reply(heartbeat(&bucket_id, &event, &Some(Contained::Faulted), &None)), None);
    assert_eq!(reply(heartbeat(&bucket_id, &event, &ok(()), &Some(Contained::Faulted))), None);
    assert_eq!(
        reply(heartbeat(&bucket_id, &event, &refused("missing field `timestamp`"), &None)),
        Some(String::from("{\"error\":\"missing field `timestamp`\"}"))
    );
}

#[test]
fn scenario_get_events_on_empty_bucket_is_an_empty_list() {
    let bucket_id = text("b1");
    match get_events(&bucket_id, 10, &None) {
        Step::Store(StoreCall::GetEvents { bucket_id, limit }) => {
            assert_eq!(bucket_id, "b1");
            assert_eq!(limit, 10);
        }
        _ => panic!("the storage engine is asked first"),
    }
    assert_eq!(reply(get_events(&bucket_id, 10, &ok(String::from("[]")))), Some(String::from("[]")));
}

#[test]
fn get_events_failure_is_an_error_object() {
    let bucket_id = text("nope");
    assert_eq!(
        reply(get_events(&bucket_id, 1, &refused("NoSuchBucket(\"nope\")"))),
        Some(String::from(
            "{\"error\":\"Something went wrong when trying to get events: NoSuchBucket(\\\"nope\\\")\"}"
        ))
    );
    assert_eq!(reply(get_events(&bucket_id, 1, &Some(Contained::Faulted))), None);
    assert_eq!(
        reply(get_events(&bucket_id, 1, &ok(String::from("[\0]")))),
        Some(String::from("[\0]"))
    );
}

#[test]
fn get_events_with_an_unreadable_bucket_id_is_null() {
    let unreadable = [
        TextHandle::from_reference(true),
        TextHandle::Unchecked,
        TextHandle::Settled(Err(MarshalError::Faulted)),
        TextHandle::Settled(Ok(vec![0xff])),
    ];
    for handle in unreadable {
        assert_eq!(reply(get_events(&handle, 5, &None)), None);
        assert_eq!(reply(get_events(&handle, 5, &ok(String::from("[]")))), None);
        assert_eq!(reply(get_events(&handle, 5, &refused("late"))), None);
    }
}

#[test]
fn get_events_of_the_bucket_with_the_empty_name_asks_the_engine() {
    match get_events(&text(""), 5, &None) {
        Step::Store(StoreCall::GetEvents { bucket_id, limit }) => {
            assert_eq!(bucket_id, "");
            assert_eq!(limit, 5);
        }
        _ => panic!("the storage engine is asked first"),
    }
}

#[test]
fn heartbeat_with_an_unreadable_handle_is_null() {
    let readable = text("b1");
    let unreadable = TextHandle::Settled(Err(MarshalError::HostFailure));
    assert_eq!(reply(heartbeat(&unreadable, &readable, &None, &None)), None);
    assert_eq!(reply(heartbeat(&readable, &unreadable, &None, &None)), None);
    assert_eq!(reply(heartbeat(&unreadable, &readable, &ok(()), &None)), None);
    assert_eq!(reply(heartbeat(&readable, &unreadable, &refused("late"), &ok(()))), None);
    assert_eq!(
        reply(heartbeat(&TextHandle::from_reference(true), &TextHandle::Unchecked, &None, &None)),
        None
    );
}

#[test]
fn event_limit_extends_the_sign() {
    assert_eq!(event_limit(0), 0);
    assert_eq!(event_limit(10), 10);
    assert_eq!(event_limit(i32::MAX), 2147483647);
    assert_eq!(event_limit(-1), u64::MAX);
    assert_eq!(event_limit(-2), u64::MAX - 1);
    assert_eq!(event_limit(i32::MIN), 0xffff_ffff_8000_0000);
    for limit in [-5i32, -1, 0, 1, 77, i32::MIN, i32::MAX] {
        assert_eq!(event_limit(limit), limit as u64);
    }
}

#[test]
fn scenario_malformed_bucket_never_touches_storage() {
    let descriptor = text("{not json");
    match create_bucket(&descriptor, &None, &None) {
        Step::Parse(payload) => assert_eq!(payload, "{not json"),
        _ => panic!("the descriptor goes to the parser first"),
    }
    let parsed: Answer<()> = refused("key must be a string at line 1 column 2");
    let expected = Some(String::from("{\"error\":\"key must be a string at line 1 column 2\"}"));
    assert_eq!(reply(create_bucket(&descriptor, &parsed, &None)), expected);
    assert_eq!(reply(create_bucket(&descriptor, &parsed, &ok(()))), expected);
    assert_eq!(reply(create_bucket(&descriptor, &parsed, &refused("late"))), expected);
}

#[test]
fn create_bucket_failure_and_faults() {
    let descriptor = text("{}");
    assert_eq!(
        reply(create_bucket(&descriptor, &ok(()), &refused("BucketAlreadyExists(\"b1\")"))),
        Some(String::from(
            "{\"error\":\"Something went wrong when trying to create bucket: BucketAlreadyExists(\\\"b1\\\")\"}"
        ))
    );
    assert_eq!(reply(create_bucket(&descriptor, &Some(Contained::Faulted), &None)), None);
    assert_eq!(reply(create_bucket(&descriptor, &ok(()), &Some(Contained::Faulted))), None);
}

#[test]
fn create_bucket_with_an_unreadable_descriptor_is_null() {
    let unreadable = [
        TextHandle::from_reference(true),
        TextHandle::from_reference(false).identity_checked(Contained::Returned(Ok(true))),
        TextHandle::Present,
        TextHandle::Settled(Err(MarshalError::HostFailure)),
        TextHandle::Settled(Err(MarshalError::Faulted)),
        TextHandle::Settled(Ok(vec![0xff])),
    ];
    for handle in unreadable {
        assert_eq!(reply(create_bucket(&handle, &None, &None)), None);
        assert_eq!(reply(create_bucket(&handle, &refused("EOF while parsing"), &None)), None);
        assert_eq!(reply(create_bucket(&handle, &ok(()), &ok(()))), None);
    }
}

#[test]
fn create_bucket_with_the_empty_descriptor_asks_the_parser() {
    match create_bucket(&text(""), &None, &None) {
        Step::Parse(payload) => assert_eq!(payload, ""),
        _ => panic!("the descriptor goes to the parser first"),
    }
}

#[test]
fn get_buckets_failure_is_an_error_object() {
    assert_eq!(
        reply(get_buckets(&refused("InternalError(\"locked\")"))),
        Some(String::from(
            "{\"error\":\"Something went wrong when trying to get buckets: InternalError(\\\"locked\\\")\"}"
        ))
    );
    assert_eq!(reply(get_buckets(&Some(Contained::Faulted))), None);
    assert_eq!(reply(get_buckets(&ok(String::from("[]")))), Some(String::from("[]")));
}

#[test]
fn start_server_assembles_state_and_config() {
    let mut slot = DatastoreSlot::new();
    let mut cell = DirectoryCell::new();
    cell.set("/tmp/aw-test");
    let (state, config) = start_server(&mut slot, &cell, String::from("device-1"));
    assert_eq!(state.device_id, "device-1");
    assert!(state.asset_path.is_none());
    match state.datastore {
        Access::Construct(location) => assert_eq!(location, "/tmp/aw-test/sqlite.db"),
        Access::Share(_) => panic!("the first request constructs the engine"),
    }
    assert_eq!(config.port, 5600);
    assert_eq!(SERVER_PORT, 5600);
    assert_eq!(config.address, "127.0.0.1");
    assert!(!config.testing);
    assert!(config.cors.is_empty());
    let (state, _) = start_server(&mut slot, &cell, String::from("device-1"));
    assert!(matches!(state.datastore, Access::Share(_)));
}

#[test]
fn engine_location_is_fixed_at_first_use() {
    let mut slot = DatastoreSlot::new();
    let mut cell = DirectoryCell::new();
    cell.set("/first");
    let mut constructions = 0;
    let mut locations = Vec::new();
    for round in 0..5 {
        match openDatastore(&mut slot, &cell) {
            Access::Construct(location) => {
                constructions += 1;
                locations.push(location);
            }
            Access::Share(location) => locations.push(location),
        }
        cell.set(&format!("/later-{}", round));
        if round == 2 {
            cell.poison();
        }
    }
    assert_eq!(constructions, 1);
    assert!(locations.iter().all(|location| location == "/first/sqlite.db"));
}

#[test]
fn engine_of_a_fresh_process_lies_in_the_default_dir() {
    let mut slot = DatastoreSlot::new();
    let cell = DirectoryCell::new();
    match openDatastore(&mut slot, &cell) {
        Access::Construct(location) => {
            assert_eq!(location, "/data/user/0/net.activitywatch.android/files/sqlite.db")
        }
        Access::Share(_) => panic!("the first request constructs the engine"),
    }
}
