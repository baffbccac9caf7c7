use am::install::{
    install_plan, verify_archive, verify_checksum, version_without_prefix, InstallAction,
    InstallTarget, IntegrityError,
};
use sha2::Digest;

fn target() -> InstallTarget {
    InstallTarget {
        owner: "prometheus".to_string(),
        repo: "prometheus".to_string(),
        version: "2.45.0".to_string(),
        os: "linux".to_string(),
        arch: "amd64".to_string(),
    }
}

#[test]
fn version_prefix_is_trimmed() {
    assert_eq!(version_without_prefix("v2.45.0"), "2.45.0");
    assert_eq!(version_without_prefix("1.6.0"), "1.6.0");
}

#[test]
fn cache_key_is_repo_and_version() {
    assert_eq!(target().cache_key(), "prometheus-2.45.0");
}

#[test]
fn package_name_follows_the_release_convention() {
    assert_eq!(
        target().package_name(),
        "prometheus-2.45.0.linux-amd64.tar.gz"
    );
    assert_eq!(target().unpack_prefix(), "prometheus-2.45.0.linux-amd64/");
}

#[test]
fn download_and_checksum_urls_are_exact() {
    let t = target();
    let package = t.package_name();
    assert_eq!(
        t.release_file_url(&package),
        "https://github.com/prometheus/prometheus/releases/download/v2.45.0/prometheus-2.45.0.linux-amd64.tar.gz"
    );
    assert_eq!(
        t.checksum_url(),
        "https://github.com/prometheus/prometheus/releases/download/v2.45.0/sha256sums.txt"
    );
}

#[test]
fn install_is_idempotent() {
    // The first run downloads; once the cache entry exists, the plan for
    // the same target touches the network no more.
    assert_eq!(install_plan(false), InstallAction::DownloadVerifyUnpack);
    assert_eq!(install_plan(true), InstallAction::UseCache);
}

#[test]
fn checksum_lookup_finds_the_named_archive() {
    let listing = "aaaa  other-1.0.0.linux-amd64.tar.gz\nbbbb  pkg-1.0.0.linux-amd64.tar.gz";
    assert_eq!(
        verify_checksum(listing, "pkg-1.0.0.linux-amd64.tar.gz", "bbbb"),
        Ok(())
    );
    assert_eq!(
        verify_checksum(listing, "pkg-1.0.0.linux-amd64.tar.gz", "cccc"),
        Err(IntegrityError::DigestMismatch)
    );
    assert_eq!(
        verify_checksum(listing, "absent-1.0.0.linux-amd64.tar.gz", "bbbb"),
        Err(IntegrityError::NotListed)
    );
}

#[test]
fn archive_digest_is_checked_against_the_listing() {
    let bytes: Vec<u8> = b"archive bytes".to_vec();
    let digest = hex(&sha2::Sha256::digest(&bytes));
    let listing = format!("{digest}  pkg.tar.gz");
    assert_eq!(verify_archive(&bytes, &listing, "pkg.tar.gz"), Ok(()));
}

#[test]
fn corrupting_one_byte_fails_verification() {
    let bytes: Vec<u8> = b"archive bytes".to_vec();
    let digest = hex(&sha2::Sha256::digest(&bytes));
    let listing = format!("{digest}  pkg.tar.gz");

    let mut corrupted = bytes.clone();
    corrupted[0] ^= 1;
    assert_eq!(
        verify_archive(&corrupted, &listing, "pkg.tar.gz"),
        Err(IntegrityError::DigestMismatch)
    );
    // Nothing was unpacked, so the cache entry still does not exist and a
    // retry must download again.
    assert_eq!(install_plan(false), InstallAction::DownloadVerifyUnpack);
}

#[test]
fn hex_rendering_is_lower_case_two_digits_per_byte() {
    assert_eq!(am::install::to_hex(&vec![0x00, 0x0f, 0xa5, 0xff]), "000fa5ff");
}

fn hex(bytes: &[u8]) -> String {
    am::install::to_hex(&bytes.to_vec())
}
