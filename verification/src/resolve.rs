//! The tag resolver: a per-tag session that turns a tag name into the commit
//! identifier it ultimately points to.
//!
//! A session issues one fetch for the tag's reference object. If the
//! reference's target is a commit, that identifier is the answer; if it is an
//! annotated tag object, exactly one more fetch dereferences it. Any failure
//! ends the session with no commit; the caller drops it and goes on.

use vstd::prelude::*;
use crate::json::Json;
use crate::json::json_doc;
use crate::json::parse_json;
use crate::json::spec_field;
use crate::json::spec_str_of;
use crate::urls::spec_tag_object_url;
use crate::urls::spec_tag_ref_url;
use crate::urls::tag_object_url;
use crate::urls::tag_ref_url;

verus! {

/// What a tag reference points at: a commit directly, or an annotated tag
/// object that needs one dereference.
#[derive(Clone, Copy, PartialEq, Eq, Structural)]
pub enum RefTarget {
    Commit,
    Annotated,
}

/// A decoded tag reference: its target kind and the target's identifier.
pub struct RefInfo {
    pub target: RefTarget,
    pub sha: String,
}

/// What a reference-object document says: `object.type` and `object.sha`,
/// both strings; the type string `commit` means a direct commit target, any
/// other type is an annotated tag object.
pub open spec fn spec_ref_info(doc: Json) -> Option<(RefTarget, Seq<char>)> {
    match spec_field(doc, "object"@) {
        Some(obj) => match (spec_field(obj, "type"@), spec_field(obj, "sha"@)) {
            (Some(t), Some(s)) => match (spec_str_of(t), spec_str_of(s)) {
                (Some(tname), Some(sha)) => Some(
                    (
                        if tname == "commit"@ {
                            RefTarget::Commit
                        } else {
                            RefTarget::Annotated
                        },
                        sha,
                    ),
                ),
                _ => None,
            },
            _ => None,
        },
        _ => None,
    }
}

/// The commit identifier an annotated tag object names: its `object.sha`
/// string.
pub open spec fn spec_tag_commit(doc: Json) -> Option<Seq<char>> {
    match spec_field(doc, "object"@) {
        Some(obj) => match spec_field(obj, "sha"@) {
            Some(s) => spec_str_of(s),
            _ => None,
        },
        _ => None,
    }
}

/// Decodes a reference-object document.
pub fn ref_from_doc(doc: &Json) -> (r: Option<RefInfo>)
    ensures
        match r {
            Some(info) => spec_ref_info(*doc) == Some((info.target, info.sha@)),
            None => spec_ref_info(*doc) is None,
        },
{
    let obj = match doc.get("object") {
        Some(o) => o,
        None => {
            return None;
        },
    };
    let t = match obj.get("type") {
        Some(t) => t,
        None => {
            return None;
        },
    };
    let s = match obj.get("sha") {
        Some(s) => s,
        None => {
            return None;
        },
    };
    if t.as_string().is_none() {
        return None;
    }
    let sha = match s.as_string() {
        Some(x) => x,
        None => {
            return None;
        },
    };
    let target = if t.is_str("commit") {
        RefTarget::Commit
    } else {
        RefTarget::Annotated
    };
    Some(RefInfo { target, sha: sha.clone() })
}

/// Decodes an annotated-tag-object document to the commit it names.
pub fn commit_from_tag_doc(doc: &Json) -> (r: Option<String>)
    ensures
        match r {
            Some(sha) => spec_tag_commit(*doc) == Some(sha@),
            None => spec_tag_commit(*doc) is None,
        },
{
    let obj = match doc.get("object") {
        Some(o) => o,
        None => {
            return None;
        },
    };
    let s = match obj.get("sha") {
        Some(s) => s,
        None => {
            return None;
        },
    };
    match s.as_string() {
        Some(x) => Some(x.clone()),
        None => None,
    }
}

/// The abstract state of one resolution session.
pub enum PhaseModel {
    AwaitingRef,
    AwaitingTag,
    Done(Option<Seq<char>>),
}

/// The session seen abstractly: the repository coordinates, the tag under
/// resolution, the phase, and how many fetches have been issued so far.
pub struct SessionModel {
    pub owner: Seq<char>,
    pub repo: Seq<char>,
    pub tag: Seq<char>,
    pub phase: PhaseModel,
    pub calls: nat,
}

/// The reply text handed to a session, `None` for a network failure.
pub open spec fn body_view(body: Option<&str>) -> Option<Seq<char>> {
    match body {
        Some(b) => Some(b@),
        None => None,
    }
}

/// One transition of the session on one reply. A missing or undecodable
/// reply ends the session with no commit; a commit-type reference ends it at
/// once; an annotated tag moves it to the dereference phase and issues one
/// more fetch.
pub open spec fn step_model(m: SessionModel, body: Option<Seq<char>>) -> SessionModel {
    match m.phase {
        PhaseModel::AwaitingRef => {
            let failed = SessionModel {
                owner: m.owner,
                repo: m.repo,
                tag: m.tag,
                phase: PhaseModel::Done(None),
                calls: m.calls,
            };
            match body {
                Some(b) => match json_doc(b) {
                    Some(doc) => match spec_ref_info(doc) {
                        Some(p) => if p.0 == RefTarget::Commit {
                            SessionModel {
                                owner: m.owner,
                                repo: m.repo,
                                tag: m.tag,
                                phase: PhaseModel::Done(Some(p.1)),
                                calls: m.calls,
                            }
                        } else {
                            SessionModel {
                                owner: m.owner,
                                repo: m.repo,
                                tag: m.tag,
                                phase: PhaseModel::AwaitingTag,
                                calls: m.calls + 1,
                            }
                        },
                        None => failed,
                    },
                    None => failed,
                },
                None => failed,
            }
        },
        PhaseModel::AwaitingTag => {
            let failed = SessionModel {
                owner: m.owner,
                repo: m.repo,
                tag: m.tag,
                phase: PhaseModel::Done(None),
                calls: m.calls,
            };
            match body {
                Some(b) => match json_doc(b) {
                    Some(doc) => match spec_tag_commit(doc) {
                        Some(c) => SessionModel {
                            owner: m.owner,
                            repo: m.repo,
                            tag: m.tag,
                            phase: PhaseModel::Done(Some(c)),
                            calls: m.calls,
                        },
                        None => failed,
                    },
                    None => failed,
                },
                None => failed,
            }
        },
        PhaseModel::Done(_) => m,
    }
}

#[derive(Clone, Copy, PartialEq, Eq, Structural)]
enum Phase {
    AwaitingRef,
    AwaitingTag,
    Done,
}

/// What a session asks of its driver after a reply: issue one more fetch and
/// hand back the reply, or nothing — the tag resolved or failed.
pub enum ResolveOutcome {
    Fetch(String),
    Resolved(String),
    Failed,
}

/// One per-tag resolution session.
pub struct ResolveSession {
    owner: String,
    repo: String,
    tag: String,
    phase: Phase,
    resolved: Option<String>,
    calls: u64,
}

impl ResolveSession {
    /// The session's abstract state.
    pub closed spec fn model(&self) -> SessionModel {
        SessionModel {
            owner: self.owner@,
            repo: self.repo@,
            tag: self.tag@,
            phase: match self.phase {
                Phase::AwaitingRef => PhaseModel::AwaitingRef,
                Phase::AwaitingTag => PhaseModel::AwaitingTag,
                Phase::Done => PhaseModel::Done(
                    match self.resolved {
                        Some(s) => Some(s@),
                        None => None,
                    },
                ),
            },
            calls: self.calls as nat,
        }
    }

    /// A session issues at most two fetches: the reference, and at most one
    /// dereference.
    pub closed spec fn wf(&self) -> bool {
        &&& self.calls <= 2
        &&& (self.phase is AwaitingRef ==> self.calls == 1)
        &&& (self.phase is AwaitingTag ==> self.calls == 2)
    }

    /// Opens a session for one tag. The returned URL is the reference fetch
    /// to issue — the session's first and, for a commit-type reference, only
    /// network call.
    pub fn start(owner: &str, repo: &str, tag: &str) -> (r: (ResolveSession, String))
        ensures
            r.0.wf(),
            r.0.model() == (SessionModel {
                owner: owner@,
                repo: repo@,
                tag: tag@,
                phase: PhaseModel::AwaitingRef,
                calls: 1,
            }),
            r.1@ == spec_tag_ref_url(owner@, repo@, tag@),
    {
        let url = tag_ref_url(owner, repo, tag);
        let session = ResolveSession {
            owner: owner.to_owned(),
            repo: repo.to_owned(),
            tag: tag.to_owned(),
            phase: Phase::AwaitingRef,
            resolved: None,
            calls: 1,
        };
        (session, url)
    }

    /// Feeds the session the reply of its last fetch (`None` for a network
    /// failure) and advances it one step.
    pub fn on_response(&mut self, body: Option<&str>) -> (r: ResolveOutcome)
        requires
            old(self).wf(),
            !(old(self).model().phase is Done),
        ensures
            final(self).wf(),
            final(self).model() == step_model(old(self).model(), body_view(body)),
            (match final(self).model().phase {
                PhaseModel::Done(res) => match res {
                    Some(sha) => r matches ResolveOutcome::Resolved(s) && s@ == sha,
                    None => r is Failed,
                },
                PhaseModel::AwaitingTag => r matches ResolveOutcome::Fetch(u) && u@
                    == spec_tag_object_url(
                    old(self).model().owner,
                    old(self).model().repo,
                    (spec_ref_info(json_doc(body_view(body)->0)->0)->0).1,
                ),
                PhaseModel::AwaitingRef => false,
            }),
    {
        let ph = self.phase;
        match ph {
            Phase::AwaitingRef => {
                let b = match body {
                    Some(b) => b,
                    None => {
                        self.phase = Phase::Done;
                        self.resolved = None;
                        return ResolveOutcome::Failed;
                    },
                };
                let doc = match parse_json(b) {
                    Some(d) => d,
                    None => {
                        self.phase = Phase::Done;
                        self.resolved = None;
                        return ResolveOutcome::Failed;
                    },
                };
                let info = match ref_from_doc(&doc) {
                    Some(i) => i,
                    None => {
                        self.phase = Phase::Done;
                        self.resolved = None;
                        return ResolveOutcome::Failed;
                    },
                };
                match info.target {
                    RefTarget::Commit => {
                        self.phase = Phase::Done;
                        self.resolved = Some(info.sha.clone());
                        ResolveOutcome::Resolved(info.sha)
                    },
                    RefTarget::Annotated => {
                        self.phase = Phase::AwaitingTag;
                        self.calls = self.calls + 1;
                        let url = tag_object_url(
                            self.owner.as_str(),
                            self.repo.as_str(),
                            info.sha.as_str(),
                        );
                        ResolveOutcome::Fetch(url)
                    },
                }
            },
            Phase::AwaitingTag => {
                let b = match body {
                    Some(b) => b,
                    None => {
                        self.phase = Phase::Done;
                        self.resolved = None;
                        return ResolveOutcome::Failed;
                    },
                };
                let doc = match parse_json(b) {
                    Some(d) => d,
                    None => {
                        self.phase = Phase::Done;
                        self.resolved = None;
                        return ResolveOutcome::Failed;
                    },
                };
                match commit_from_tag_doc(&doc) {
                    Some(sha) => {
                        self.phase = Phase::Done;
                        self.resolved = Some(sha.clone());
                        ResolveOutcome::Resolved(sha)
                    },
                    None => {
                        self.phase = Phase::Done;
                        self.resolved = None;
                        ResolveOutcome::Failed
                    },
                }
            },
            Phase::Done => {
                proof {
                    assert(false);
                }
                ResolveOutcome::Failed
            },
        }
    }

    /// How many fetches the session has issued.
    pub fn calls_made(&self) -> (n: u64)
        ensures
            n as nat == self.model().calls,
    {
        self.calls
    }
}

/// Law: a tag whose reference names a commit directly resolves with the
/// single reference fetch — one network call in total — to that very
/// identifier.
pub proof fn lemma_direct_tag_one_call(m: SessionModel, b: Seq<char>)
    requires
        m.phase is AwaitingRef,
        m.calls == 1,
        json_doc(b) is Some,
        spec_ref_info(json_doc(b)->0) matches Some(p) && p.0 == RefTarget::Commit,
    ensures
        step_model(m, Some(b)).phase == PhaseModel::Done(
            Some((spec_ref_info(json_doc(b)->0)->0).1),
        ),
        step_model(m, Some(b)).calls == 1,
{
}

/// Law: an annotated tag resolves with exactly one additional dereference
/// fetch — two network calls in total — to the commit named by the tag
/// object the second reply carries.
pub proof fn lemma_annotated_tag_two_calls(m: SessionModel, b1: Seq<char>, b2: Seq<char>)
    requires
        m.phase is AwaitingRef,
        m.calls == 1,
        json_doc(b1) is Some,
        spec_ref_info(json_doc(b1)->0) matches Some(p) && p.0 == RefTarget::Annotated,
        json_doc(b2) is Some,
        spec_tag_commit(json_doc(b2)->0) is Some,
    ensures
        step_model(m, Some(b1)).phase is AwaitingTag,
        step_model(m, Some(b1)).calls == 2,
        step_model(step_model(m, Some(b1)), Some(b2)).phase == PhaseModel::Done(
            Some(spec_tag_commit(json_doc(b2)->0)->0),
        ),
        step_model(step_model(m, Some(b1)), Some(b2)).calls == 2,
{
}

/// The successful resolutions among a stage's per-tag results, in completion
/// order; failures contribute nothing.
pub open spec fn spec_successes(rs: Seq<Option<String>>) -> Seq<String>
    decreases rs.len(),
{
    if rs.len() == 0 {
        Seq::empty()
    } else {
        spec_successes(rs.drop_last()) + (match rs.last() {
            Some(s) => seq![s],
            None => Seq::empty(),
        })
    }
}

/// Law: dropping failures never grows the list — at most one commit per tag.
pub proof fn lemma_successes_len(rs: Seq<Option<String>>)
    ensures
        spec_successes(rs).len() <= rs.len(),
    decreases rs.len(),
{
    if rs.len() > 0 {
        lemma_successes_len(rs.drop_last());
    }
}

/// Gathers the successful resolutions, dropping failed tags: one failure
/// aborts nothing but its own tag.
pub fn collect_successes(rs: &Vec<Option<String>>) -> (out: Vec<String>)
    ensures
        out@ == spec_successes(rs@),
        out@.len() <= rs@.len(),
{
    let mut out: Vec<String> = Vec::new();
    let mut i: usize = 0;
    proof {
        assert(rs@.take(0) =~= Seq::<Option<String>>::empty());
    }
    while i < rs.len()
        invariant
            i <= rs@.len(),
            out@ == spec_successes(rs@.take(i as int)),
        decreases rs@.len() - i,
    {
        proof {
            assert(rs@.take(i + 1).drop_last() =~= rs@.take(i as int));
            assert(rs@.take(i + 1).last() == rs@[i as int]);
        }
        match &rs[i] {
            Some(s) => {
                out.push(s.clone());
            },
            None => {},
        }
        i = i + 1;
    }
    proof {
        assert(rs@.take(rs@.len() as int) =~= rs@);
        lemma_successes_len(rs@);
    }
    out
}

} // verus!
