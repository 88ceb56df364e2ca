use inetm::decimal::{u64_to_dec, usize_to_dec};
use inetm::urls::{
    artifact_name, artifact_path, commit_dir, download_url, releases_url, tag_object_url,
    tag_ref_url,
};

#[test]
fn decimal_rendering_is_exact() {
    assert_eq!(u64_to_dec(0), "0");
    assert_eq!(u64_to_dec(5), "5");
    assert_eq!(u64_to_dec(10), "10");
    assert_eq!(u64_to_dec(123), "123");
    assert_eq!(u64_to_dec(100400), "100400");
    assert_eq!(u64_to_dec(u64::MAX), "18446744073709551615");
    assert_eq!(usize_to_dec(42), "42");
}

#[test]
fn releases_url_is_exact() {
    assert_eq!(
        releases_url("microsoft", "vscode", 5),
        "https://api.github.com/repos/microsoft/vscode/releases?per_page=5"
    );
}

#[test]
fn tag_ref_url_is_exact() {
    assert_eq!(
        tag_ref_url("microsoft", "vscode", "1.95.0"),
        "https://api.github.com/repos/microsoft/vscode/git/ref/tags/1.95.0"
    );
}

#[test]
fn tag_object_url_is_exact() {
    assert_eq!(
        tag_object_url("microsoft", "vscode", "deadbeef"),
        "https://api.github.com/repos/microsoft/vscode/git/tags/deadbeef"
    );
}

#[test]
fn download_url_is_exact() {
    assert_eq!(
        download_url("aaa", "x64"),
        "https://update.code.visualstudio.com/commit:aaa/server-linux-x64/stable"
    );
}

#[test]
fn artifact_layout_is_exact() {
    assert_eq!(artifact_name("x64"), "server-linux-x64.tar.gz");
    assert_eq!(commit_dir("out", "aaa"), "out/aaa");
    assert_eq!(artifact_path("out", "aaa", "x64"), "out/aaa/server-linux-x64.tar.gz");
}
