use nydusd::api::{ApiError, ApiResponsePayload, MountInfo};
use nydusd::error::{IoError, IoErrorKind};
use nydusd::mount::{mount_image, MountError, MountTable};

fn request(source: &str, mountpoint: &str) -> MountInfo {
    MountInfo { source: source.to_string(), mountpoint: mountpoint.to_string() }
}

#[test]
fn new_table_is_empty() {
    let table: MountTable<u32> = MountTable::new();
    assert_eq!(table.len(), 0);
    assert!(!table.is_mounted(&"/".to_string()));
    assert_eq!(table.lookup(&"/".to_string()), None);
}

#[test]
fn mount_then_lookup() {
    let mut table: MountTable<u32> = MountTable::new();
    assert_eq!(table.mount("/".to_string(), 1), Ok(()));
    assert_eq!(table.mount("/layer1".to_string(), 2), Ok(()));
    assert_eq!(table.len(), 2);
    assert_eq!(table.lookup(&"/".to_string()), Some(&1));
    assert_eq!(table.lookup(&"/layer1".to_string()), Some(&2));
    assert_eq!(table.lookup(&"/layer2".to_string()), None);
    assert!(table.is_mounted(&"/layer1".to_string()));
}

#[test]
fn mount_at_occupied_path_fails_and_keeps_the_mount() {
    let mut table: MountTable<u32> = MountTable::new();
    assert_eq!(table.mount("/layer1".to_string(), 1), Ok(()));
    assert_eq!(table.mount("/layer1".to_string(), 2), Err(MountError::PathOccupied));
    assert_eq!(table.len(), 1);
    assert_eq!(table.lookup(&"/layer1".to_string()), Some(&1));
}

#[test]
fn unmount_gives_the_instance_back() {
    let mut table: MountTable<u32> = MountTable::new();
    assert_eq!(table.mount("/a".to_string(), 1), Ok(()));
    assert_eq!(table.mount("/b".to_string(), 2), Ok(()));
    assert_eq!(table.unmount(&"/c".to_string()), None);
    assert_eq!(table.len(), 2);
    assert_eq!(table.unmount(&"/a".to_string()), Some(1));
    assert_eq!(table.len(), 1);
    assert_eq!(table.lookup(&"/a".to_string()), None);
    assert_eq!(table.lookup(&"/b".to_string()), Some(&2));
    assert_eq!(table.mount("/a".to_string(), 3), Ok(()));
    assert_eq!(table.lookup(&"/a".to_string()), Some(&3));
}

#[test]
fn second_mount_request_for_the_same_mountpoint_fails() {
    let mut table: MountTable<u32> = MountTable::new();
    let info = request("/data/meta1", "/layer1");
    let first = mount_image(&mut table, &info, Ok(11));
    assert_eq!(first, Ok(ApiResponsePayload::Mount));
    let second = mount_image(&mut table, &info, Ok(12));
    assert_eq!(
        second,
        Err(ApiError::MountFailure(IoError { kind: IoErrorKind::InvalidData, code: None }))
    );
    assert_eq!(table.len(), 1);
    assert_eq!(table.lookup(&"/layer1".to_string()), Some(&11));
}

#[test]
fn failed_import_is_the_answer_and_mounts_nothing() {
    let mut table: MountTable<u32> = MountTable::new();
    let info = request("/data/missing", "/layer1");
    let failure = IoError { kind: IoErrorKind::Other, code: Some(2) };
    let reply = mount_image(&mut table, &info, Err(failure));
    assert_eq!(reply, Err(ApiError::MountFailure(failure)));
    assert_eq!(table.len(), 0);
    assert!(!table.is_mounted(&"/layer1".to_string()));
}

#[test]
fn mounts_at_different_paths_do_not_disturb_each_other() {
    let mut table: MountTable<u32> = MountTable::new();
    assert_eq!(mount_image(&mut table, &request("/data/meta0", "/"), Ok(1)), Ok(ApiResponsePayload::Mount));
    assert_eq!(
        mount_image(&mut table, &request("/data/meta1", "/layer1"), Ok(2)),
        Ok(ApiResponsePayload::Mount)
    );
    assert_eq!(table.lookup(&"/".to_string()), Some(&1));
    assert_eq!(table.lookup(&"/layer1".to_string()), Some(&2));
}
