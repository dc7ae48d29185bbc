//! Version of this build.
use vstd::prelude::*;

verus! {

/// Commit, ref and build time of a build.
#[derive(Debug, Clone, PartialEq, Eq, Default)]
pub struct Version {
    pub git_commit: String,
    pub git_ref: String,
    pub build_time_utc: String,
}

/// The version reported for a build: the short commit hash ("unknown" when
/// there is none or it is empty), the head ref ("unknown" when there is none)
/// and the build time.
pub fn version_from_build_info(
    git_commit_hash_short: Option<&str>,
    git_head_ref: Option<&str>,
    built_time_utc: &str,
) -> (r: Version)
    ensures
        r.git_commit@ == match git_commit_hash_short {
            Some(hash) => if hash@.len() == 0 {
                "unknown"@
            } else {
                hash@
            },
            None => "unknown"@,
        },
        r.git_ref@ == match git_head_ref {
            Some(git_ref) => git_ref@,
            None => "unknown"@,
        },
        r.build_time_utc@ == built_time_utc@,
{
    let mut git_commit = String::new();
    if let Some(hash) = git_commit_hash_short {
        git_commit.append(hash);
    }
    if git_commit.as_str().is_empty() {
        git_commit.append("unknown");
    }
    let git_ref = match git_head_ref {
        Some(git_ref) => String::from_str(git_ref),
        None => String::from_str("unknown"),
    };
    Version { git_commit, git_ref, build_time_utc: String::from_str(built_time_utc) }
}

} // verus!
