use sha2::{Digest, Sha256};
use mendimaru::studio_cache::{
    accept_cache_record, check_cache_file, check_cache_size, source_identity, validate_versions,
    CacheRecord, SourceFields, MAX_CACHE_BYTES,
};
use mendimaru::studio_ops::StudioVersion;

fn version(value: &str) -> StudioVersion {
    StudioVersion {
        version: value.to_string(),
        display_name: format!("Studio Pro {value}"),
        executable_path: format!(r"C:\Program Files\Mendix\{value}\modeler\StudioPro.exe"),
        install_root: format!(r"C:\Program Files\Mendix\{value}"),
        source: "fixture".to_string(),
        removable: true,
    }
}

fn fields() -> SourceFields {
    SourceFields {
        os: "linux".into(),
        container_runtime: "docker".into(),
        container_name: "WinBoat".into(),
        api_url: "http://127.0.0.1:47280".into(),
        mendix_install_root: r"C:\Program Files\Mendix".into(),
        mendix_data_root: r"C:\ProgramData\Mendix".into(),
        windows_studio_paths: Vec::new(),
    }
}

fn record(identity: &str, versions: Vec<StudioVersion>) -> CacheRecord {
    CacheRecord {
        schema_version: "1.0.0".into(),
        source_identity: identity.into(),
        captured_at: "2026-08-22T00:00:00Z".into(),
        versions,
    }
}

#[test]
fn rejects_a_cache_from_another_environment() {
    let first = fields();
    let identity = source_identity(&first);
    let saved = record(&identity, vec![version("11.12.3")]);
    assert!(accept_cache_record(saved.clone(), &identity).is_ok());
    let mut second = first.clone();
    second.container_name = "OtherWinBoat".into();
    assert_eq!(
        accept_cache_record(saved, &source_identity(&second)).unwrap_err(),
        "installed-version cache does not match the active environment"
    );
}

#[test]
fn identity_is_the_digest_of_nul_terminated_fields() {
    let mut f = fields();
    f.windows_studio_paths = vec![r"D:\Studio".into()];
    let mut data = Vec::new();
    for value in ["linux", "docker", "WinBoat", "http://127.0.0.1:47280", r"C:\Program Files\Mendix", r"C:\ProgramData\Mendix", r"D:\Studio"] {
        data.extend_from_slice(value.as_bytes());
        data.push(0);
    }
    assert_eq!(source_identity(&f), format!("{:x}", Sha256::digest(&data)));
}

#[test]
fn round_trips_accepted_versions_with_their_capture_time() {
    let identity = source_identity(&fields());
    let expected = vec![version("11.12.3"), version("10.24.24")];
    let cache = accept_cache_record(record(&identity, expected.clone()), &identity).unwrap();
    assert_eq!(cache.versions, expected);
    assert_eq!(cache.captured_at.as_deref(), Some("2026-08-22T00:00:00Z"));
}

#[test]
fn rejects_forged_duplicate_and_oversized_version_lists() {
    let identity = source_identity(&fields());
    assert_eq!(
        accept_cache_record(record(&identity, vec![version("../bad")]), &identity).unwrap_err(),
        "installed-version cache contains an invalid version"
    );
    assert_eq!(
        validate_versions(&vec![version("11.12.3"), version("11.12.3")]).unwrap_err(),
        "installed-version cache contains duplicate versions"
    );
    let mut nul = version("11.12.3");
    nul.source = "a\0b".into();
    assert_eq!(
        validate_versions(&vec![nul]).unwrap_err(),
        "installed-version cache contains an invalid field"
    );
    let many: Vec<StudioVersion> = (0..257).map(|i| version(&format!("1.0.{i}"))).collect();
    assert_eq!(
        validate_versions(&many).unwrap_err(),
        "installed-version cache contains too many versions"
    );
    let mut bad_time = record(&identity, vec![]);
    bad_time.captured_at = "yesterday".into();
    assert!(accept_cache_record(bad_time, &identity).is_err());
    let mut other_schema = record(&identity, vec![]);
    other_schema.schema_version = "2.0.0".into();
    assert!(accept_cache_record(other_schema, &identity).is_err());
}

#[test]
fn reads_only_bounded_regular_cache_files() {
    assert_eq!(
        check_cache_file(true, true, 10).unwrap_err(),
        "installed-version cache must be a regular file"
    );
    assert!(check_cache_file(false, false, 10).is_err());
    assert_eq!(
        check_cache_file(true, false, MAX_CACHE_BYTES + 1).unwrap_err(),
        "installed-version cache exceeds the safe size limit"
    );
    assert!(check_cache_file(true, false, MAX_CACHE_BYTES).is_ok());
    assert!(check_cache_size(MAX_CACHE_BYTES as usize + 1).is_err());
}
