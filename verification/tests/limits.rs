use clash_service_ipc::assets::{
    checked_total_asset_bytes, MAX_RUNTIME_ASSET_BYTES, MAX_RUNTIME_TOTAL_ASSET_BYTES,
};
use clash_service_ipc::native::Platform;
use clash_service_ipc::paths::destination_key;

#[test]
fn runtime_asset_size_limits_accept_boundaries_and_reject_overflow() {
    assert_eq!(
        checked_total_asset_bytes(0, MAX_RUNTIME_ASSET_BYTES),
        Ok(MAX_RUNTIME_ASSET_BYTES)
    );
    assert_eq!(
        checked_total_asset_bytes(
            MAX_RUNTIME_TOTAL_ASSET_BYTES - MAX_RUNTIME_ASSET_BYTES,
            MAX_RUNTIME_ASSET_BYTES
        ),
        Ok(MAX_RUNTIME_TOTAL_ASSET_BYTES)
    );
    assert!(checked_total_asset_bytes(0, MAX_RUNTIME_ASSET_BYTES + 1).is_err());
    assert!(checked_total_asset_bytes(MAX_RUNTIME_TOTAL_ASSET_BYTES, 1).is_err());
}

#[test]
fn runtime_destination_identity_matches_platform_filesystem_rules() {
    assert_eq!(
        destination_key(Platform::Windows, r"providers\entry.yaml"),
        destination_key(Platform::Windows, "providers/entry.yaml")
    );
    assert_eq!(
        destination_key(Platform::Windows, "Providers/Entry.yaml"),
        destination_key(Platform::Windows, "providers/entry.yaml")
    );
    assert_ne!(
        destination_key(Platform::Linux, r"providers\entry.yaml"),
        destination_key(Platform::Linux, "providers/entry.yaml")
    );
    assert_ne!(
        destination_key(Platform::Macos, "Providers/Entry.yaml"),
        destination_key(Platform::Macos, "providers/entry.yaml")
    );
}

#[test]
fn aggregate_and_per_file_limits_are_told_apart() {
    assert_eq!(
        checked_total_asset_bytes(0, MAX_RUNTIME_ASSET_BYTES + 1),
        Err("exceeds the per-file size limit")
    );
    assert_eq!(
        checked_total_asset_bytes(MAX_RUNTIME_TOTAL_ASSET_BYTES, 1),
        Err("exceeds the aggregate size limit")
    );
    assert_eq!(
        checked_total_asset_bytes(u64::MAX, 1),
        Err("exceeds the aggregate size limit")
    );
    assert_eq!(checked_total_asset_bytes(5, 7), Ok(12));
}

#[test]
fn windows_keys_fold_case_beyond_ascii() {
    assert_eq!(
        destination_key(Platform::Windows, "Ä\\B.yaml"),
        "ä/b.yaml".to_string()
    );
    assert_eq!(destination_key(Platform::Linux, "Ä\\B.yaml"), "Ä\\B.yaml");
}
