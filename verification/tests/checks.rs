use shinc::utils::vcs::{git_ref_branch, git_ref_tag, git_refs};
use shinc::utils::hashlib::{hex, sha256_hex};
use shinc::validator::{validate_semver, InvalidVersion};

#[test]
fn semantic_versions_are_handed_back() {
    for v in ["1.2.3", "0.1.0", "10.20.30-alpha.1", "1.0.0+build.5", "1.0.0-rc.1+sha.abc"] {
        assert_eq!(validate_semver(v), Ok(v.to_string()));
    }
}

#[test]
fn anything_else_is_refused() {
    for v in ["", "1.0", "1.0.01", "1.0.unknown", "1.0.0-", "1.0.0+", "v1.2.3", " 1.2.3", "1.0.0-alpha_123", "23456789999999999999.0.0"] {
        assert_eq!(validate_semver(v), Err(InvalidVersion), "{:?}", v);
    }
    assert_eq!(InvalidVersion.message(), "need semantic version number");
}

#[test]
fn hexadecimal_text() {
    assert_eq!(hex(&[]), "");
    assert_eq!(hex(&[0x00, 0x0f, 0x10, 0xa9, 0xff]), "000f10a9ff");
    let all: Vec<u8> = (0..=255u8).collect();
    let expected: String = all.iter().map(|b| format!("{:02x}", b)).collect();
    assert_eq!(hex(&all), expected);
}

#[test]
fn checksums() {
    assert_eq!(
        sha256_hex(b""),
        "e3b0c44298fc1c149afbf4c8996fb92427ae41e4649b934ca495991b7852b855"
    );
    assert_eq!(
        sha256_hex(b"abc"),
        "ba7816bf8f01cfea414140de5dae2223b00361a396177a9cb410ff61f20015ad"
    );
    assert_eq!(sha256_hex(&[0u8; 100_000]).len(), 64);
    assert_eq!(
        sha256_hex(b"The quick brown fox jumps over the lazy dog"),
        "d7a8fbb307d7809469ca9abcb0082e4f8d5651e46d3cdb762d02d0bf37c9e592"
    );
}

#[test]
fn git_references() {
    assert_eq!(git_ref_branch("main"), "refs/heads/main");
    assert_eq!(git_ref_tag("v1.2.3"), "refs/tags/v1.2.3");
    assert_eq!(git_refs("dev", "v2"), vec!["refs/heads/dev", "refs/tags/v2"]);
}
