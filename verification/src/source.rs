//! Source identifiers: the address of a template repository, and the
//! addresses and names derived from it.

use vstd::prelude::*;
use vstd::string::StrSliceExecFns;
use vstd::string::StringExecFns;
use crate::text::same_text;

verus! {

/// The length of `https://github.com/`, the part before the owner's name.
pub const HOST_LEN: usize = 19;

/// Whether `url` starts with the host: `https://github`, then any one
/// character but a line feed, then `com/`.
pub open spec fn has_host(url: Seq<char>) -> bool {
    &&& url.len() >= HOST_LEN
    &&& url.subrange(0, 14) == "https://github"@
    &&& url[14] != '\n'
    &&& url.subrange(15, 19) == "com/"@
}

/// Whether `url` is the address of a repository whose owner and name are
/// parted by the slash at `slash`: the host, a non-empty owner, that slash,
/// a non-empty name, and no other slash behind the host.
pub open spec fn splits_at(url: Seq<char>, slash: int) -> bool {
    &&& has_host(url)
    &&& HOST_LEN < slash < url.len() - 1
    &&& url[slash] == '/'
    &&& forall|i: int| HOST_LEN <= i < url.len() && i != slash ==> url[i] != '/'
}

/// The first slash of `url` at or behind `from`, or the length of `url`
/// where there is none.
fn find_slash(url: &str, from: usize, len: usize) -> (at: usize)
    requires
        from <= len,
        len == url@.len(),
    ensures
        from <= at <= len,
        forall|i: int| from <= i < at ==> url@[i] != '/',
        at < len ==> url@[at as int] == '/',
{
    let mut i: usize = from;
    while i < len
        invariant
            from <= i <= len,
            len == url@.len(),
            forall|j: int| from <= j < i ==> url@[j] != '/',
        decreases len - i,
    {
        if url.get_char(i) == '/' {
            return i;
        }
        i += 1;
    }
    len
}

/// Parses the address of a repository into the owner's name and the
/// repository's name. An address of any other form gives nothing.
pub fn extract_username_and_repo(git_url: &str) -> (parts: Option<(String, String)>)
    ensures
        match parts {
            Some((username, repo_name)) => exists|slash: int|
                #![trigger splits_at(git_url@, slash)]
                splits_at(git_url@, slash) && username@ == git_url@.subrange(
                    HOST_LEN as int,
                    slash,
                ) && repo_name@ == git_url@.subrange(slash + 1, git_url@.len() as int),
            None => forall|slash: int| !splits_at(git_url@, slash),
        },
{
    let len = git_url.unicode_len();
    if len < HOST_LEN {
        return None;
    }
    if !same_text(git_url.substring_char(0, 14), "https://github") {
        return None;
    }
    if git_url.get_char(14) == '\n' {
        return None;
    }
    if !same_text(git_url.substring_char(15, 19), "com/") {
        return None;
    }
    let slash = find_slash(git_url, HOST_LEN, len);
    if slash >= len {
        return None;
    }
    let other = find_slash(git_url, slash + 1, len);
    if other < len {
        assert forall|s: int| !splits_at(git_url@, s) by {
            if splits_at(git_url@, s) {
                assert(git_url@[slash as int] == '/');
                assert(git_url@[other as int] == '/');
            }
        }
        return None;
    }
    if slash == HOST_LEN || slash + 1 == len {
        assert forall|s: int| !splits_at(git_url@, s) by {
            if splits_at(git_url@, s) {
                assert(git_url@[slash as int] == '/');
                assert(s == slash);
            }
        }
        return None;
    }
    let username = String::from_str(git_url.substring_char(HOST_LEN, slash));
    let repo_name = String::from_str(git_url.substring_char(slash + 1, len));
    assert(splits_at(git_url@, slash as int));
    Some((username, repo_name))
}

/// The address of the schema of the repository `repo_name` of `username`.
pub fn metadata_url(username: &str, repo_name: &str) -> (url: String)
    ensures
        url@ == "https://raw.githubusercontent.com/"@ + username@ + "/"@ + repo_name@
            + "/main/metadata.json"@,
{
    let mut url = String::from_str("https://raw.githubusercontent.com/");
    url.append(username);
    url.append("/");
    url.append(repo_name);
    url.append("/main/metadata.json");
    url
}

/// The address that the repository `repo_name` of `username` is cloned
/// from.
pub fn clone_url(username: &str, repo_name: &str) -> (url: String)
    ensures
        url@ == "https://github.com/"@ + username@ + "/"@ + repo_name@,
{
    let mut url = String::from_str("https://github.com/");
    url.append(username);
    url.append("/");
    url.append(repo_name);
    url
}

/// Where the last segment of `s` starts: behind its last slash, or at 0
/// where it has none.
pub open spec fn last_segment_start(s: Seq<char>) -> int
    decreases s.len(),
{
    if s.len() == 0 {
        0
    } else if s.last() == '/' {
        s.len() as int
    } else {
        last_segment_start(s.drop_last())
    }
}

/// The last segment starts at `at` where a slash stands before `at`, or
/// `at` is 0, and no slash stands at or behind it.
pub proof fn lemma_last_segment_start(s: Seq<char>, at: int)
    requires
        0 <= at <= s.len(),
        at == 0 || s[at - 1] == '/',
        forall|i: int| at <= i < s.len() ==> s[i] != '/',
    ensures
        last_segment_start(s) == at,
    decreases s.len(),
{
    if s.len() > 0 && at < s.len() {
        lemma_last_segment_start(s.drop_last(), at);
    }
}

/// The name of the folder that a template is checked out into: what
/// follows the last slash of `repo`, or all of it where it has no slash.
pub fn checkout_name(repo: &str) -> (name: String)
    ensures
        name@ == repo@.subrange(last_segment_start(repo@), repo@.len() as int),
{
    let len = repo.unicode_len();
    let mut at: usize = len;
    while at > 0 && repo.get_char(at - 1) != '/'
        invariant
            at <= len,
            len == repo@.len(),
            forall|i: int| at <= i < len ==> repo@[i] != '/',
        decreases at,
    {
        at -= 1;
    }
    proof {
        lemma_last_segment_start(repo@, at as int);
    }
    String::from_str(repo.substring_char(at, len))
}

/// How the acquisition of a template's source ended.
#[derive(Clone, Copy, Debug, PartialEq, Eq, Structural)]
pub enum Acquisition {
    /// The source was cloned.
    Cloned,
    /// A checkout was already there and is used again.
    AlreadyPresent,
    /// The source could not be had.
    Failed,
}

/// Whether rendering goes ahead after the acquisition: on a fresh clone and
/// on a checkout that was already there, and on nothing else.
pub fn may_render(acquired: Acquisition) -> (go: bool)
    ensures
        go == (acquired != Acquisition::Failed),
{
    match acquired {
        Acquisition::Cloned => true,
        Acquisition::AlreadyPresent => true,
        Acquisition::Failed => false,
    }
}

/// What is needed to make a project from a template, as mathematical
/// values.
pub struct PlanSpec {
    pub metadata_url: Seq<char>,
    pub clone_url: Seq<char>,
    pub checkout_name: Seq<char>,
}

/// What is needed to make a project from a template: where its schema is
/// fetched from, where its source is cloned from, and the name of the folder
/// that holds the checkout.
#[derive(Clone, Debug, PartialEq)]
pub struct ProjectPlan {
    pub metadata_url: String,
    pub clone_url: String,
    pub checkout_name: String,
}

impl View for ProjectPlan {
    type V = PlanSpec;

    open spec fn view(&self) -> PlanSpec {
        PlanSpec {
            metadata_url: self.metadata_url@,
            clone_url: self.clone_url@,
            checkout_name: self.checkout_name@,
        }
    }
}

/// The plan for the repository address `repo`, whose owner and name are
/// parted by the slash at `slash`.
pub open spec fn plan_of(repo: Seq<char>, slash: int) -> PlanSpec {
    PlanSpec {
        metadata_url: "https://raw.githubusercontent.com/"@ + repo.subrange(HOST_LEN as int, slash)
            + "/"@ + repo.subrange(slash + 1, repo.len() as int) + "/main/metadata.json"@,
        clone_url: "https://github.com/"@ + repo.subrange(HOST_LEN as int, slash) + "/"@
            + repo.subrange(slash + 1, repo.len() as int),
        checkout_name: repo.subrange(last_segment_start(repo), repo.len() as int),
    }
}

/// Plans a new project from the template at `repo`. An address that names
/// no repository gives nothing: no project can be made from it.
pub fn new_project(repo: &str) -> (plan: Option<ProjectPlan>)
    ensures
        match plan {
            Some(p) => exists|slash: int|
                #![trigger splits_at(repo@, slash)]
                splits_at(repo@, slash) && p@ == plan_of(repo@, slash),
            None => forall|slash: int| !splits_at(repo@, slash),
        },
{
    match extract_username_and_repo(repo) {
        Some((username, repo_name)) => {
            let plan = ProjectPlan {
                metadata_url: metadata_url(username.as_str(), repo_name.as_str()),
                clone_url: clone_url(username.as_str(), repo_name.as_str()),
                checkout_name: checkout_name(repo),
            };
            Some(plan)
        },
        None => None,
    }
}

} // verus!
