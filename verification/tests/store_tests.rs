use bridge_bootstrap::identity::HardwareId;
use bridge_bootstrap::store::{
    backup_path, classify, load_or_init, load_parsed, read_marker, LoadStep, LoadedState,
    PendingMigration, StateError, StateSource, StateVersion, VersionMarker,
};

const HW: HardwareId = HardwareId { octets: [0xaa, 0xbb, 0xcc, 0xdd, 0xee, 0xff] };

fn document(text: &str) -> serde_yml::Value {
    serde_yml::from_str::<serde_yml::Value>(text).unwrap()
}

#[test]
fn classify_known_and_unknown_markers() {
    assert_eq!(classify(VersionMarker::Missing), Some(StateVersion::V0));
    assert_eq!(classify(VersionMarker::Number(0)), Some(StateVersion::V0));
    assert_eq!(classify(VersionMarker::Number(1)), Some(StateVersion::V1));
    assert_eq!(classify(VersionMarker::Number(2)), None);
    assert_eq!(classify(VersionMarker::Number(u64::MAX)), None);
    assert_eq!(classify(VersionMarker::Unreadable), None);
}

#[test]
fn marker_of_documents() {
    assert_eq!(read_marker(&document("lights: {}\n")), VersionMarker::Missing);
    assert_eq!(read_marker(&document("version: 1\nres: {}\n")), VersionMarker::Number(1));
    assert_eq!(read_marker(&document("version: 0\n")), VersionMarker::Number(0));
    assert_eq!(read_marker(&document("version: 42\n")), VersionMarker::Number(42));
    assert_eq!(read_marker(&document("version: newest\n")), VersionMarker::Unreadable);
    assert_eq!(read_marker(&document("version: -1\n")), VersionMarker::Unreadable);
    assert_eq!(read_marker(&document("- 1\n- 2\n")), VersionMarker::Missing);
    assert_eq!(read_marker(&document("7\n")), VersionMarker::Missing);
}

#[test]
fn backup_path_appends_the_suffix() {
    assert_eq!(backup_path("/tmp/s.yaml"), "/tmp/s.yaml.v0.bak");
    assert_eq!(backup_path("state.yaml"), "state.yaml.v0.bak");
    assert_eq!(backup_path("/var/lib/bridge/state"), "/var/lib/bridge/state.v0.bak");
    assert_eq!(backup_path(""), ".v0.bak");
}

#[test]
fn backup_of_a_backup_is_another_path() {
    assert_eq!(backup_path("/tmp/x.v0.bak"), "/tmp/x.v0.bak.v0.bak");
    assert_ne!(backup_path("/tmp/x.v0.bak"), "/tmp/x.v0.bak");
}

#[test]
fn unreadable_state_is_refused_with_path_and_cause() {
    let source = StateSource::Unreadable { cause: "permission denied".to_string() };
    match load_or_init("/tmp/s.yaml", source, HW) {
        LoadStep::Failed(StateError::Unreadable { path, cause }) => {
            assert_eq!(path, "/tmp/s.yaml");
            assert_eq!(cause, "permission denied");
        }
        other => panic!("unexpected: {:?}", other),
    }
}

#[test]
fn absent_state_is_seeded_with_the_identity() {
    match load_or_init("/tmp/s.yaml", StateSource::Absent, HW) {
        LoadStep::Done(LoadedState::Seeded { identity }) => {
            assert_eq!(identity, "aabbccfffeddeeff")
        }
        other => panic!("unexpected: {:?}", other),
    }
}

#[test]
fn current_document_is_loaded_directly() {
    let text = "version: 1\nres:\n  a: 1\n";
    match load_or_init("/tmp/s.yaml", StateSource::Text(text.to_string()), HW) {
        LoadStep::Done(LoadedState::Current { document: loaded }) => {
            assert_eq!(loaded, document(text))
        }
        other => panic!("unexpected: {:?}", other),
    }
}

#[test]
fn legacy_document_waits_for_its_backup() {
    let text = "lights:\n  one: on\n";
    let pending = match load_or_init("/tmp/s.yaml", StateSource::Text(text.to_string()), HW) {
        LoadStep::NeedsBackup(pending) => pending,
        other => panic!("unexpected: {:?}", other),
    };
    assert_eq!(pending.from, "/tmp/s.yaml");
    assert_eq!(pending.to, "/tmp/s.yaml.v0.bak");
    assert_eq!(pending.document, document(text));
    match pending.complete(None) {
        Ok(LoadedState::Migrated { document: migrated }) => assert_eq!(migrated, document(text)),
        other => panic!("unexpected: {:?}", other),
    }
}

#[test]
fn legacy_fields_match_those_of_a_current_document() {
    let legacy = "lights:\n  one: on\n";
    let current = "version: 1\nlights:\n  one: on\n";
    let migrated = match load_or_init("s.yaml", StateSource::Text(legacy.to_string()), HW) {
        LoadStep::NeedsBackup(pending) => match pending.complete(None) {
            Ok(LoadedState::Migrated { document }) => document,
            other => panic!("unexpected: {:?}", other),
        },
        other => panic!("unexpected: {:?}", other),
    };
    let direct = match load_or_init("s.yaml", StateSource::Text(current.to_string()), HW) {
        LoadStep::Done(LoadedState::Current { document }) => document,
        other => panic!("unexpected: {:?}", other),
    };
    assert_eq!(migrated.get("lights"), direct.get("lights"));
    assert!(migrated.get("lights").is_some());
}

#[test]
fn failed_rename_fails_the_load() {
    let pending = PendingMigration {
        from: "/tmp/s.yaml".to_string(),
        to: "/tmp/s.yaml.v0.bak".to_string(),
        document: document("a: 1\n"),
    };
    match pending.complete(Some("read-only file system".to_string())) {
        Err(StateError::BackupFailed { path, backup, cause }) => {
            assert_eq!(path, "/tmp/s.yaml");
            assert_eq!(backup, "/tmp/s.yaml.v0.bak");
            assert_eq!(cause, "read-only file system");
        }
        other => panic!("unexpected: {:?}", other),
    }
}

#[test]
fn malformed_text_is_refused_with_its_path() {
    let text = "a: [1, 2\nb: }\n";
    match load_or_init("/tmp/broken.yaml", StateSource::Text(text.to_string()), HW) {
        LoadStep::Failed(StateError::Malformed { path, .. }) => assert_eq!(path, "/tmp/broken.yaml"),
        other => panic!("unexpected: {:?}", other),
    }
}

#[test]
fn unknown_version_is_refused_with_its_path() {
    match load_or_init("/tmp/s.yaml", StateSource::Text("version: 7\n".to_string()), HW) {
        LoadStep::Failed(StateError::UnknownVersion { path, marker }) => {
            assert_eq!(path, "/tmp/s.yaml");
            assert_eq!(marker, VersionMarker::Number(7));
        }
        other => panic!("unexpected: {:?}", other),
    }
}

#[test]
fn load_parsed_follows_the_marker() {
    assert!(matches!(
        load_parsed("s.yaml", document("a: 1\n"), VersionMarker::Number(1)),
        LoadStep::Done(LoadedState::Current { .. })
    ));
    assert!(matches!(
        load_parsed("s.yaml", document("a: 1\n"), VersionMarker::Missing),
        LoadStep::NeedsBackup(_)
    ));
    assert!(matches!(
        load_parsed("s.yaml", document("a: 1\n"), VersionMarker::Unreadable),
        LoadStep::Failed(StateError::UnknownVersion { marker: VersionMarker::Unreadable, .. })
    ));
}
