use cloud_filter::error::CloudErrorKind;
use cloud_filter::error::{
    STATUS_CANCELLED, STATUS_INVALID_ARGUMENT, STATUS_IO_ERROR, STATUS_NOT_SUPPORTED,
};
use cloud_filter::register::{
    HydrationPolicy, HydrationType, PopulationType, ProtectionMode, Registration,
    SupportedAttributes, SyncRoot, ATTRIBUTE_DIRECTORY_HIDDEN, ATTRIBUTE_FILE_CREATION_TIME,
    ATTRIBUTE_FILE_READONLY, HYDRATION_STREAMING_ALLOWED, HYDRATION_VALIDATION_REQUIRED,
};

fn root() -> SyncRoot {
    SyncRoot::new(String::from("contoso"), String::from("alice"))
}

#[test]
fn registration_defaults_match_the_documented_policy() {
    let r = Registration::from_sync_root(root());
    assert_eq!(r.hydration_type, HydrationType::Progressive);
    assert_eq!(r.population_type, PopulationType::Full);
    assert_eq!(r.protection_mode, ProtectionMode::Unknown);
    assert_eq!(r.hydration_policy.0, 0);
    assert_eq!(r.supported_attributes.0, 0);
    assert!(r.display_name.is_none());
    assert!(r.version.is_none());
    assert!(r.blob.is_none());
    assert_eq!(r.icon_path, "C:\\Windows\\System32\\imageres.dll");
    assert_eq!(r.icon_index, 1525);
    assert!(!r.allow_pinning && !r.allow_hardlinks && !r.show_siblings_as_group);
}

#[test]
fn builder_methods_set_their_fields_and_nothing_else() {
    let r = Registration::from_sync_root(root())
        .hydration_type(HydrationType::Partial)
        .population_type(PopulationType::AlwaysFull)
        .protection_mode(ProtectionMode::Personal)
        .allow_pinning()
        .allow_hardlinks()
        .show_siblings_as_group()
        .display_name(String::from("Contoso Drive"))
        .recycle_bin_uri(String::from("https://contoso.example/bin"))
        .version(String::from("1.2.3"))
        .icon(String::from("C:\\icons\\drive.dll"), 3)
        .blob(vec![1, 2, 3]);
    assert_eq!(r.hydration_type, HydrationType::Partial);
    assert_eq!(r.population_type, PopulationType::AlwaysFull);
    assert_eq!(r.protection_mode, ProtectionMode::Personal);
    assert!(r.allow_pinning && r.allow_hardlinks && r.show_siblings_as_group);
    assert_eq!(r.display_name.as_deref(), Some("Contoso Drive"));
    assert_eq!(r.recycle_bin_uri.as_deref(), Some("https://contoso.example/bin"));
    assert_eq!(r.version.as_deref(), Some("1.2.3"));
    assert_eq!(r.icon_path, "C:\\icons\\drive.dll");
    assert_eq!(r.icon_index, 3);
    assert_eq!(r.blob.as_deref(), Some(&[1u8, 2, 3][..]));
    assert_eq!(r.sync_root.provider_name, "contoso");
}

#[test]
fn display_name_defaults_to_the_provider_name() {
    let plain = Registration::from_sync_root(root());
    assert_eq!(plain.effective_display_name(), "contoso");
    let named = Registration::from_sync_root(root()).display_name(String::from("Drive"));
    assert_eq!(named.effective_display_name(), "Drive");
}

#[test]
fn hydration_policy_accumulates_modifiers() {
    let p = HydrationPolicy::new().require_validation().allow_streaming();
    assert_eq!(p.0, HYDRATION_VALIDATION_REQUIRED | HYDRATION_STREAMING_ALLOWED);
    let q = p.allow_platform_dehydration().allow_full_restart_hydration();
    assert_eq!(q.0, 0b1111);
    // Setting a modifier twice changes nothing.
    assert_eq!(q.require_validation().0, q.0);
}

#[test]
fn supported_attributes_accumulate() {
    let a = SupportedAttributes::new()
        .file_creation_time()
        .file_readonly()
        .directory_hidden();
    assert_eq!(
        a.0,
        ATTRIBUTE_FILE_CREATION_TIME | ATTRIBUTE_FILE_READONLY | ATTRIBUTE_DIRECTORY_HIDDEN
    );
    assert_eq!(SupportedAttributes::default().0, 0);
}

#[test]
fn status_codes_map_to_the_error_taxonomy() {
    assert_eq!(CloudErrorKind::from_status(STATUS_NOT_SUPPORTED), CloudErrorKind::NotSupported);
    assert_eq!(
        CloudErrorKind::from_status(STATUS_INVALID_ARGUMENT),
        CloudErrorKind::InvalidArgument
    );
    assert_eq!(CloudErrorKind::from_status(STATUS_IO_ERROR), CloudErrorKind::IoError);
    assert_eq!(CloudErrorKind::from_status(STATUS_CANCELLED), CloudErrorKind::Cancelled);
    assert_eq!(CloudErrorKind::from_status(0xC000_0001), CloudErrorKind::Unknown(0xC000_0001));
}

#[test]
fn status_codes_round_trip_through_the_taxonomy() {
    for status in [
        STATUS_NOT_SUPPORTED,
        STATUS_INVALID_ARGUMENT,
        STATUS_IO_ERROR,
        STATUS_CANCELLED,
        0xC000_0001,
        1,
    ] {
        assert_eq!(CloudErrorKind::from_status(status).to_status(), status);
    }
}
