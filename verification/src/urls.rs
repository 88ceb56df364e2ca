//! Request URLs and artifact paths, built from fixed templates.

use vstd::prelude::*;
use vstd::string::StringExecFns;
use crate::decimal::dec_rep;
use crate::decimal::usize_to_dec;

verus! {

/// `{api}/repos/{owner}/{repo}/releases?per_page={count}`: the paginated
/// release listing, one page of size `count`.
pub open spec fn spec_releases_url(owner: Seq<char>, repo: Seq<char>, count: int) -> Seq<char> {
    "https://api.github.com/repos/"@ + owner + "/"@ + repo + "/releases?per_page="@ + dec_rep(
        count,
    )
}

/// `{api}/repos/{owner}/{repo}/git/ref/tags/{tag}`: the reference object of
/// one tag.
pub open spec fn spec_tag_ref_url(owner: Seq<char>, repo: Seq<char>, tag: Seq<char>) -> Seq<
    char,
> {
    "https://api.github.com/repos/"@ + owner + "/"@ + repo + "/git/ref/tags/"@ + tag
}

/// `{api}/repos/{owner}/{repo}/git/tags/{sha}`: the annotated tag object
/// named by `sha`.
pub open spec fn spec_tag_object_url(owner: Seq<char>, repo: Seq<char>, sha: Seq<char>) -> Seq<
    char,
> {
    "https://api.github.com/repos/"@ + owner + "/"@ + repo + "/git/tags/"@ + sha
}

/// `{host}/commit:{commit}/server-linux-{arch}/stable`: the archive for one
/// commit.
pub open spec fn spec_download_url(commit: Seq<char>, arch: Seq<char>) -> Seq<char> {
    "https://update.code.visualstudio.com/commit:"@ + commit + "/server-linux-"@ + arch
        + "/stable"@
}

/// `server-linux-{arch}.tar.gz`: the artifact file name.
pub open spec fn spec_artifact_name(arch: Seq<char>) -> Seq<char> {
    "server-linux-"@ + arch + ".tar.gz"@
}

/// `{base}/{commit}`: the per-commit destination directory.
pub open spec fn spec_commit_dir(base: Seq<char>, commit: Seq<char>) -> Seq<char> {
    base + "/"@ + commit
}

/// `{base}/{commit}/server-linux-{arch}.tar.gz`: the artifact path.
pub open spec fn spec_artifact_path(base: Seq<char>, commit: Seq<char>, arch: Seq<char>) -> Seq<
    char,
> {
    spec_commit_dir(base, commit) + "/"@ + spec_artifact_name(arch)
}

/// Builds the release-listing URL.
pub fn releases_url(owner: &str, repo: &str, count: usize) -> (r: String)
    ensures
        r@ == spec_releases_url(owner@, repo@, count as int),
{
    let mut r = String::from_str("https://api.github.com/repos/");
    r.append(owner);
    r.append("/");
    r.append(repo);
    r.append("/releases?per_page=");
    let n = usize_to_dec(count);
    r.append(n.as_str());
    proof {
        assert(r@ =~= spec_releases_url(owner@, repo@, count as int));
    }
    r
}

/// Builds the tag-reference URL.
pub fn tag_ref_url(owner: &str, repo: &str, tag: &str) -> (r: String)
    ensures
        r@ == spec_tag_ref_url(owner@, repo@, tag@),
{
    let mut r = String::from_str("https://api.github.com/repos/");
    r.append(owner);
    r.append("/");
    r.append(repo);
    r.append("/git/ref/tags/");
    r.append(tag);
    proof {
        assert(r@ =~= spec_tag_ref_url(owner@, repo@, tag@));
    }
    r
}

/// Builds the annotated-tag-object URL.
pub fn tag_object_url(owner: &str, repo: &str, sha: &str) -> (r: String)
    ensures
        r@ == spec_tag_object_url(owner@, repo@, sha@),
{
    let mut r = String::from_str("https://api.github.com/repos/");
    r.append(owner);
    r.append("/");
    r.append(repo);
    r.append("/git/tags/");
    r.append(sha);
    proof {
        assert(r@ =~= spec_tag_object_url(owner@, repo@, sha@));
    }
    r
}

/// Builds the archive URL for one commit.
pub fn download_url(commit: &str, arch: &str) -> (r: String)
    ensures
        r@ == spec_download_url(commit@, arch@),
{
    let mut r = String::from_str("https://update.code.visualstudio.com/commit:");
    r.append(commit);
    r.append("/server-linux-");
    r.append(arch);
    r.append("/stable");
    proof {
        assert(r@ =~= spec_download_url(commit@, arch@));
    }
    r
}

/// Builds the artifact file name for one architecture.
pub fn artifact_name(arch: &str) -> (r: String)
    ensures
        r@ == spec_artifact_name(arch@),
{
    let mut r = String::from_str("server-linux-");
    r.append(arch);
    r.append(".tar.gz");
    proof {
        assert(r@ =~= spec_artifact_name(arch@));
    }
    r
}

/// Builds the per-commit destination directory path.
pub fn commit_dir(base: &str, commit: &str) -> (r: String)
    ensures
        r@ == spec_commit_dir(base@, commit@),
{
    let mut r = String::from_str(base);
    r.append("/");
    r.append(commit);
    proof {
        assert(r@ =~= spec_commit_dir(base@, commit@));
    }
    r
}

/// Builds the full artifact path.
pub fn artifact_path(base: &str, commit: &str, arch: &str) -> (r: String)
    ensures
        r@ == spec_artifact_path(base@, commit@, arch@),
{
    let mut r = commit_dir(base, commit);
    r.append("/");
    let name = artifact_name(arch);
    r.append(name.as_str());
    proof {
        assert(r@ =~= spec_artifact_path(base@, commit@, arch@));
    }
    r
}

} // verus!
