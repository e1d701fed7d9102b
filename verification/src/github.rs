use vstd::prelude::*;
use crate::outside::{url_parse, url_parse_of};
use crate::text::{concat2, contains_str, has_substring, owned, trim_end_matches_str, trim_end_str};

verus! {

/// What the GitHub API tells about a repository.
#[derive(Debug, Clone, Copy)]
pub struct RepoMetadata {
    /// Repository size in KiB, as GitHub reports it
    pub size_kb: u64,
    /// Whether `.gitattributes` routes files through LFS
    pub has_lfs: bool,
}

/// The non-empty items of `ss`, in order.
pub open spec fn non_empty(ss: Seq<Seq<char>>) -> Seq<Seq<char>>
    decreases ss.len(),
{
    if ss.len() == 0 {
        Seq::empty()
    } else if ss.last().len() > 0 {
        non_empty(ss.drop_last()).push(ss.last())
    } else {
        non_empty(ss.drop_last())
    }
}

/// The owner and name of a GitHub repository URL: the URL's host contains
/// `github.com` and its path has at least two non-empty segments, the second
/// without `.git` suffixes.
pub open spec fn github_owner_name(url: Seq<char>) -> Option<(Seq<char>, Seq<char>)> {
    match url_parse_of(url) {
        Err(_) => None,
        Ok((host, _, segments)) => match host {
            None => None,
            Some(h) => if !has_substring(h, "github.com"@) {
                None
            } else {
                match segments {
                    None => None,
                    Some(ss) => {
                        let ne = non_empty(ss);
                        if ne.len() < 2 {
                            None
                        } else {
                            Some((ne[0], trim_end_str(ne[1], ".git"@)))
                        }
                    },
                }
            },
        },
    }
}

/// The non-empty strings of `v`, in order.
fn non_empty_strings(v: &Vec<String>) -> (r: Vec<String>)
    ensures
        r@.map_values(|s: String| s@) == non_empty(v@.map_values(|s: String| s@)),
{
    let ghost all = v@.map_values(|s: String| s@);
    let mut r: Vec<String> = Vec::new();
    let mut i: usize = 0;
    assert(r@.map_values(|s: String| s@) =~= non_empty(all.take(0)));
    while i < v.len()
        invariant
            i <= v@.len(),
            all == v@.map_values(|s: String| s@),
            r@.map_values(|s: String| s@) == non_empty(all.take(i as int)),
        decreases v@.len() - i,
    {
        assert(all.take(i + 1).drop_last() =~= all.take(i as int));
        if v[i].unicode_len() > 0 {
            let ghost before = r@.map_values(|s: String| s@);
            r.push(v[i].clone());
            assert(r@.map_values(|s: String| s@) =~= before.push(v@[i as int]@));
        }
        i += 1;
    }
    assert(all.take(v@.len() as int) =~= all);
    r
}

/// The owner and name of a GitHub repository URL, if it is one.
pub fn parse_github_url(url: &str) -> (r: Option<(String, String)>)
    ensures
        match r {
            Some((o, n)) => github_owner_name(url@) == Some((o@, n@)),
            None => github_owner_name(url@) is None,
        },
{
    let parts = match url_parse(url) {
        Ok(p) => p,
        Err(_) => {
            return None;
        },
    };
    let host = match &parts.host {
        Some(h) => h,
        None => {
            return None;
        },
    };
    if !contains_str(host.as_str(), "github.com") {
        return None;
    }
    let segments = match &parts.segments {
        Some(s) => s,
        None => {
            return None;
        },
    };
    let ne = non_empty_strings(segments);
    let ghost nev = ne@.map_values(|s: String| s@);
    if ne.len() < 2 {
        return None;
    }
    assert(nev[0] == ne@[0]@);
    assert(nev[1] == ne@[1]@);
    let owner = ne[0].clone();
    let name = trim_end_matches_str(ne[1].as_str(), ".git");
    Some((owner, name))
}

/// The GitHub API address of a repository.
pub fn repo_api_url(owner: &str, name: &str) -> (u: String)
    ensures
        u@ == "https://api.github.com/repos/"@ + owner@ + "/"@ + name@,
{
    let mut u = owned("https://api.github.com/repos/");
    u.append(owner);
    u.append("/");
    u.append(name);
    u
}

/// The GitHub API address of a repository's `.gitattributes`.
pub fn gitattributes_api_url(owner: &str, name: &str) -> (u: String)
    ensures
        u@ == "https://api.github.com/repos/"@ + owner@ + "/"@ + name@ + "/contents/.gitattributes"@,
{
    let base = repo_api_url(owner, name);
    concat2(base.as_str(), "/contents/.gitattributes")
}

} // verus!
