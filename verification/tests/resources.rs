use rfvp::abi::{
    RfvpResourcesConfigV1, RFVP_NLS_UTF8, RFVP_STATUS_INVALID_ARGUMENT, RFVP_STATUS_INVALID_DATA,
    RFVP_STATUS_INVALID_HANDLE, RFVP_STATUS_OK,
};
use rfvp::handle::Handle;
use rfvp::host_types::Nls;
use rfvp::resources::{
    nls_from_abi, read_utf8, resources_clear, resources_create, resources_mount_directory,
    resources_set_save_root, HostResources,
};
use rfvp::HandleRegistry;

const LAYOUT: usize = 64;

fn config(nls: u32) -> RfvpResourcesConfigV1 {
    RfvpResourcesConfigV1 {
        struct_size: LAYOUT as u32,
        flags: 0,
        nls,
        reserved0: 0,
        save_root_len: 0,
        reserved: [0; 4],
    }
}

fn entry(registry: &HandleRegistry<HostResources>, raw: u64) -> &HostResources {
    registry.get(Handle::from_raw(raw)).unwrap()
}

#[test]
fn malformed_configurations_are_refused() {
    let mut registry = HandleRegistry::<HostResources>::new();
    let mut short = config(RFVP_NLS_UTF8);
    short.struct_size = LAYOUT as u32 - 1;
    assert_eq!(
        resources_create(&mut registry, &short, LAYOUT, Ok(String::new())),
        Err(RFVP_STATUS_INVALID_ARGUMENT)
    );
    assert_eq!(
        resources_create(&mut registry, &config(0), LAYOUT, Ok(String::new())),
        Err(RFVP_STATUS_INVALID_ARGUMENT)
    );
    assert_eq!(
        resources_create(&mut registry, &config(RFVP_NLS_UTF8), LAYOUT, Err(RFVP_STATUS_INVALID_DATA)),
        Err(RFVP_STATUS_INVALID_DATA)
    );
    assert!(registry.is_empty());
}

#[test]
fn created_resources_keep_encoding_and_save_root() {
    let mut registry = HandleRegistry::<HostResources>::new();
    let raw = resources_create(&mut registry, &config(RFVP_NLS_UTF8), LAYOUT, Ok("/saves".to_string())).unwrap();
    let stored = entry(&registry, raw);
    assert_eq!(stored.nls, Nls::UTF8);
    assert_eq!(stored.game_root, None);
    assert_eq!(stored.save_root, Some("/saves".to_string()));
    assert_eq!(nls_from_abi(2), Ok(Nls::GBK));
}

#[test]
fn mounting_checks_path_handle_and_directory() {
    let mut registry = HandleRegistry::<HostResources>::new();
    let raw = resources_create(&mut registry, &config(RFVP_NLS_UTF8), LAYOUT, Ok(String::new())).unwrap();
    assert_eq!(
        resources_mount_directory(&mut registry, raw, Ok(String::new()), true),
        RFVP_STATUS_INVALID_ARGUMENT
    );
    assert_eq!(
        resources_mount_directory(&mut registry, raw, Err(RFVP_STATUS_INVALID_DATA), true),
        RFVP_STATUS_INVALID_DATA
    );
    assert_eq!(
        resources_mount_directory(&mut registry, raw + 1, Ok("/g".to_string()), true),
        RFVP_STATUS_INVALID_HANDLE
    );
    assert_eq!(resources_mount_directory(&mut registry, raw, Ok("/g".to_string()), true), RFVP_STATUS_OK);
    assert_eq!(entry(&registry, raw).game_root, Some("/g".to_string()));
    resources_clear(&mut registry, raw);
    assert_eq!(entry(&registry, raw).game_root, None);
}

#[test]
fn save_root_can_be_replaced_and_cleared() {
    let mut registry = HandleRegistry::<HostResources>::new();
    let raw = resources_create(&mut registry, &config(RFVP_NLS_UTF8), LAYOUT, Ok("/a".to_string())).unwrap();
    assert_eq!(resources_set_save_root(&mut registry, raw, Ok("/b".to_string())), RFVP_STATUS_OK);
    assert_eq!(entry(&registry, raw).save_root, Some("/b".to_string()));
    assert_eq!(resources_set_save_root(&mut registry, raw, Ok(String::new())), RFVP_STATUS_OK);
    assert_eq!(entry(&registry, raw).save_root, None);
    assert_eq!(
        resources_set_save_root(&mut registry, raw, Err(RFVP_STATUS_INVALID_DATA)),
        RFVP_STATUS_INVALID_DATA
    );
    assert_eq!(
        resources_set_save_root(&mut registry, 0, Ok("/c".to_string())),
        RFVP_STATUS_INVALID_HANDLE
    );
}

#[test]
fn host_text_is_read_as_utf8() {
    assert_eq!(read_utf8(None, 0), Ok(String::new()));
    assert_eq!(read_utf8(None, 3), Err(RFVP_STATUS_INVALID_ARGUMENT));
    assert_eq!(read_utf8(Some("/游戏".as_bytes()), 7), Ok("/游戏".to_string()));
    assert_eq!(read_utf8(Some(&[0x2f, 0xff]), 2), Err(RFVP_STATUS_INVALID_DATA));
    assert_eq!(read_utf8(Some(&[]), 0), Ok(String::new()));
}
