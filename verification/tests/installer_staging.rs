use mendimaru::staging::{validate_expected_sha256, StagedCheck, StagingCopy};
use sha2::{Digest, Sha256};

fn digest_of(bytes: &[u8]) -> String {
    format!("{:x}", Sha256::digest(bytes))
}

#[test]
fn stages_a_verified_copy_and_checks_it_back() {
    let installer = b"MZ installer bytes".to_vec();
    let expected = digest_of(&installer).to_uppercase();
    let mut copy = StagingCopy::begin(&expected, installer.len() as u64, 1024).unwrap();
    copy.absorb(&installer[..5]).unwrap();
    copy.absorb(&installer[5..]).unwrap();
    let size = copy.finish(&expected).unwrap();
    assert_eq!(size, installer.len() as u64);

    let mut check = StagedCheck::begin(1024);
    check.absorb(&installer).unwrap();
    assert_eq!(check.finish(size, &expected), Ok(()));
}

#[test]
fn rejects_a_changed_source_size_or_digest() {
    let installer = b"installer".to_vec();
    let expected = digest_of(&installer);
    let mut copy = StagingCopy::begin(&expected, installer.len() as u64 + 1, 1024).unwrap();
    copy.absorb(&installer).unwrap();
    assert_eq!(
        copy.finish(&expected),
        Err("the private installer changed size while it was staged".to_string())
    );
    let mut copy = StagingCopy::begin(&expected, installer.len() as u64, 1024).unwrap();
    copy.absorb(b"installeR").unwrap();
    assert_eq!(
        copy.finish(&expected),
        Err("the private installer SHA-256 changed before staging".to_string())
    );
    let mut check = StagedCheck::begin(1024);
    check.absorb(b"installer!").unwrap();
    assert_eq!(
        check.finish(installer.len() as u64, &expected),
        Err("the shared installer staging file failed its host integrity check".to_string())
    );
}

#[test]
fn bounds_the_copy_by_the_installer_limit() {
    let expected = digest_of(b"");
    assert_eq!(
        StagingCopy::begin(&expected, 11, 10).err(),
        Some("the private installer exceeds the 10-byte limit".to_string())
    );
    let mut copy = StagingCopy::begin(&expected, 10, 10).unwrap();
    copy.absorb(&[0; 6]).unwrap();
    assert_eq!(
        copy.absorb(&[0; 5]),
        Err("the private installer exceeds the 10-byte limit".to_string())
    );
    let mut check = StagedCheck::begin(4);
    assert_eq!(
        check.absorb(&[1; 5]),
        Err("the shared installer staging file exceeded its limit".to_string())
    );
}

#[test]
fn refuses_malformed_expected_digests() {
    assert!(validate_expected_sha256(&"a".repeat(64)).is_ok());
    assert!(validate_expected_sha256(&"A".repeat(64)).is_ok());
    assert_eq!(
        validate_expected_sha256(&"g".repeat(64)),
        Err("the expected installer SHA-256 is invalid".to_string())
    );
    assert!(validate_expected_sha256(&"a".repeat(63)).is_err());
}
