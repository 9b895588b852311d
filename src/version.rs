//! The version banner.
use vstd::prelude::*;

verus! {

/// Build information printed when the agent starts.
#[derive(Clone, Copy, Debug)]
pub struct VersionInfo {
    pub name: &'static str,
    pub branch: &'static str,
    pub commit_id: &'static str,
    pub rev_count: &'static str,
    pub compiler: &'static str,
    pub compile_time: &'static str,
    pub revision: &'static str,
}

pub const COMMUNITY: &'static str = "deepflow-agent-ce";
pub const ENTERPRISE: &'static str = "deepflow-agent-ee";
pub const COMMUNITY_NAME: &'static str = "deepflow-agent community edition";
pub const ENTERPRISE_NAME: &'static str = "deepflow-agent enterprise edition";

/// The edition that a package name stands for, if it is a known one.
pub open spec fn edition_of(name: Seq<char>) -> Option<Seq<char>> {
    if name == COMMUNITY@ {
        Some(COMMUNITY_NAME@)
    } else if name == ENTERPRISE@ {
        Some(ENTERPRISE_NAME@)
    } else {
        None
    }
}

/// The banner of a build of a known edition.
pub open spec fn banner_text(v: VersionInfo, edition: Seq<char>) -> Seq<char> {
    v.rev_count@ + "-"@ + v.commit_id@ + "\nName: "@ + edition + "\nBranch: "@ + v.branch@
        + "\nCommitId: "@ + v.commit_id@ + "\nRevCount: "@ + v.rev_count@ + "\nCompiler: "@
        + v.compiler@ + "\nCompileTime: "@ + v.compile_time@
}

/// The edition name of a package name, if it is a known one.
pub fn edition_name(name: &str) -> (r: Option<&'static str>)
    ensures
        r matches Some(e) ==> edition_of(name@) == Some(e@),
        r is None ==> edition_of(name@) is None,
{
    let n = String::from_str(name);
    if n == String::from_str(COMMUNITY) {
        Some(COMMUNITY_NAME)
    } else if n == String::from_str(ENTERPRISE) {
        Some(ENTERPRISE_NAME)
    } else {
        None
    }
}

impl VersionInfo {
    /// The multi-line version banner; `None` for an unknown edition.
    pub fn banner(&self) -> (r: Option<String>)
        ensures
            r is Some <==> edition_of(self.name@) is Some,
            r matches Some(s) ==> s@ == banner_text(*self, edition_of(self.name@)->0),
    {
        let edition = match edition_name(self.name) {
            Some(e) => e,
            None => {
                return None;
            },
        };
        let mut s = String::from_str(self.rev_count);
        s.append("-");
        s.append(self.commit_id);
        s.append("\nName: ");
        s.append(edition);
        s.append("\nBranch: ");
        s.append(self.branch);
        s.append("\nCommitId: ");
        s.append(self.commit_id);
        s.append("\nRevCount: ");
        s.append(self.rev_count);
        s.append("\nCompiler: ");
        s.append(self.compiler);
        s.append("\nCompileTime: ");
        s.append(self.compile_time);
        Some(s)
    }
}

} // verus!
