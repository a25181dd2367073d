//! The description of the running deployment that the root route answers with.
use vstd::prelude::*;

verus! {

/// The site metadata, as it is rendered to JSON.
#[derive(Debug, Clone)]
pub struct SiteMetadata {
    /// `gamba:` followed by the deployed branch.
    pub name: String,
    pub version: String,
    pub deployed_sha: String,
    pub commit: String,
}

/// The value of a deployment variable, or "unknown" where it is not set.
pub open spec fn or_unknown(value: Option<String>) -> Seq<char> {
    match value {
        Some(v) => v@,
        None => "unknown"@,
    }
}

fn value_or_unknown(value: Option<String>) -> (r: String)
    ensures
        r@ == or_unknown(value),
{
    match value {
        Some(v) => v,
        None => String::from_str("unknown"),
    }
}

/// The site metadata of a deployment of the given version, from the deployed
/// commit (`SOURCE_COMMIT`) and branch (`COOLIFY_BRANCH`), each "unknown" where
/// it is not set.
pub fn site_metadata(source_commit: Option<String>, branch: Option<String>, version: &str) -> (m:
    SiteMetadata)
    ensures
        m.name@ == "gamba:"@ + or_unknown(branch),
        m.version@ == version@,
        m.deployed_sha@ == or_unknown(source_commit),
        m.commit@ == or_unknown(source_commit),
{
    let deployed_sha = value_or_unknown(source_commit);
    let branch = value_or_unknown(branch);
    let name = String::from_str("gamba:").concat(branch.as_str());
    SiteMetadata {
        name,
        version: String::from_str(version),
        deployed_sha: deployed_sha.clone(),
        commit: deployed_sha,
    }
}

} // verus!
