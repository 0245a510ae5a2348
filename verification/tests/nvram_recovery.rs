use mendimaru::nvram::{
    erased_store, validate_container, ContainerFacts, MountFacts, NvramMount, NvramRejection,
    VARS_BYTES,
};

fn mount() -> NvramMount {
    NvramMount {
        service: "windows".to_string(),
        image: "ghcr.io/dockur/windows:6.03".to_string(),
        directory: Some("/home/dev/.winboat/storage".to_string()),
    }
}

fn storage(destination: &str, source: &str) -> MountFacts {
    MountFacts {
        destination: Some(destination.to_string()),
        mount_type: Some("bind".to_string()),
        read_write: Some(true),
        source: Some(source.to_string()),
    }
}

fn env(entries: &[&str]) -> Option<Vec<Option<String>>> {
    Some(entries.iter().map(|entry| Some(entry.to_string())).collect())
}

fn stopped_container() -> ContainerFacts {
    ContainerFacts {
        status: Some("exited".to_string()),
        running: Some(false),
        restarting: Some(false),
        paused: Some(false),
        service: Some("windows".to_string()),
        config_image: Some("ghcr.io/dockur/windows:6.03".to_string()),
        mounts: Some(vec![storage("/storage", "/home/dev/.winboat/storage")]),
        environment: env(&["BOOT_MODE=windows"]),
        id: Some("a".repeat(64)),
        image: Some(format!("sha256:{}", "b".repeat(64))),
    }
}

#[test]
fn nvram_only_erased_stores_are_evidence_and_only_stopped_bind_containers_are_eligible() {
    assert!(erased_store(&vec![0; VARS_BYTES]));
    assert!(erased_store(&vec![0xff; VARS_BYTES]));
    assert!(!erased_store(&vec![1; VARS_BYTES]));
    assert!(!erased_store(&vec![0; VARS_BYTES - 1]));
    let (id, image) = validate_container(&stopped_container(), &mount(), true).expect("eligible");
    assert_eq!(id, "a".repeat(64));
    assert_eq!(image, format!("sha256:{}", "b".repeat(64)));
    for flag in 0..3 {
        let mut changed = stopped_container();
        match flag {
            0 => changed.running = Some(true),
            1 => changed.restarting = Some(true),
            _ => changed.paused = Some(true),
        }
        assert_eq!(validate_container(&changed, &mount(), true), Err(NvramRejection::NotStopped));
    }
    for environment in [
        env(&["BIOS=Y"]),
        env(&["CLEAR=Y"]),
        env(&["BOOT_MODE=windows", "BOOT_MODE=windows"]),
        env(&["STORAGE=/different"]),
        Some(vec![None]),
    ] {
        let mut changed = stopped_container();
        changed.environment = environment;
        assert!(validate_container(&changed, &mount(), true).is_err());
    }
    let mut readonly = stopped_container();
    readonly.mounts = Some(vec![MountFacts { read_write: Some(false), ..storage("/storage", "/home/dev/.winboat/storage") }]);
    assert!(validate_container(&readonly, &mount(), true).is_err());
    let mut nested = stopped_container();
    nested.mounts = Some(vec![
        storage("/storage", "/home/dev/.winboat/storage"),
        storage("/storage/nested", "/unrelated"),
    ]);
    assert!(validate_container(&nested, &mount(), true).is_err());
    for status in ["running", "restarting", "removing", "paused", "dead", "unknown"] {
        let mut changed = stopped_container();
        changed.status = Some(status.to_string());
        assert!(validate_container(&changed, &mount(), true).is_err(), "{status}");
    }
    let mut named = stopped_container();
    named.mounts = Some(vec![MountFacts { mount_type: Some("volume".to_string()), ..storage("/storage", "/home/dev/.winboat/storage") }]);
    assert!(validate_container(&named, &mount(), true).is_err());
    let mut custom = stopped_container();
    custom.environment = env(&["BOOT_MODE=windows_secure"]);
    assert!(validate_container(&custom, &mount(), true).is_err());
}

#[test]
fn running_containers_pass_when_no_stop_is_required_and_ids_must_be_hexadecimal() {
    let mut running = stopped_container();
    running.status = Some("running".to_string());
    running.running = Some(true);
    assert!(validate_container(&running, &mount(), false).is_ok());
    let mut short_id = stopped_container();
    short_id.id = Some("a".repeat(63));
    assert_eq!(validate_container(&short_id, &mount(), true), Err(NvramRejection::Unsupported));
    let mut tagged = stopped_container();
    tagged.image = Some("ghcr.io/dockur/windows:6.03".to_string());
    assert_eq!(validate_container(&tagged, &mount(), true), Err(NvramRejection::Unsupported));
    let mut cleared = stopped_container();
    cleared.environment = env(&["CLEAR=false", "STORAGE=/storage", "OTHER=1", "NOVALUE"]);
    assert!(validate_container(&cleared, &mount(), true).is_ok());
    let mut missing = stopped_container();
    missing.status = None;
    assert_eq!(validate_container(&missing, &mount(), true), Err(NvramRejection::Unsupported));
}
