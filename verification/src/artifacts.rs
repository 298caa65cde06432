//! Configuration of the artifact lookup and the real user's home.
//!
//! The recursive directory walk and MIME inference that answer a request
//! are delegated to the surrounding binary; what is computed here is the
//! verified part of that boundary: which name a request path asks for,
//! which directories are searched and in what order, and where a
//! non-privileged user's home is expected.

use vstd::prelude::*;
use vstd::string::StrSliceExecFns;
use vstd::string::StringExecFns;

verus! {

/// The text after the last `/` of a path; empty when the path is empty or
/// ends in `/`.
pub open spec fn spec_file_name(p: Seq<char>) -> Seq<char>
    decreases p.len(),
{
    if p.len() == 0 {
        Seq::empty()
    } else if p.last() == '/' {
        Seq::empty()
    } else {
        spec_file_name(p.drop_last()).push(p.last())
    }
}

proof fn lemma_file_name_subrange(p: Seq<char>, c: int)
    requires
        0 <= c <= p.len(),
        forall|j: int| c <= j < p.len() ==> p[j] != '/',
        c > 0 ==> p[c - 1] == '/',
    ensures
        spec_file_name(p) == p.subrange(c, p.len() as int),
    decreases p.len(),
{
    if p.len() == 0 {
        assert(spec_file_name(p) =~= p.subrange(c, p.len() as int));
    } else if c == p.len() {
        assert(p.last() == p[c - 1]);
        assert(spec_file_name(p) =~= p.subrange(c, p.len() as int));
    } else {
        assert(p.last() != '/');
        lemma_file_name_subrange(p.drop_last(), c);
        assert(p.subrange(c, p.len() as int) =~= p.drop_last().subrange(
            c,
            p.len() - 1,
        ).push(p.last()));
    }
}

/// The artifact name a request path asks for: the segment after the last
/// `/`.  `None` when that segment is empty, in which case the request is
/// rejected.
pub fn artifact_name(path: &str) -> (r: Option<String>)
    ensures
        r matches Some(name) ==> name@ == spec_file_name(path@) && name@.len() > 0,
        r is None ==> spec_file_name(path@).len() == 0,
{
    let n: usize = path.unicode_len();
    let mut c: usize = n;
    while c > 0 && path.get_char(c - 1) != '/'
        invariant
            0 <= c <= n,
            n == path@.len(),
            forall|j: int| c <= j < n ==> path@[j] != '/',
        decreases c,
    {
        c = c - 1;
    }
    proof {
        lemma_file_name_subrange(path@, c as int);
    }
    if c == n {
        None
    } else {
        Some(path.substring_char(c, n).to_owned())
    }
}

/// The directories searched for an artifact, in priority order: the real
/// user's downloads first when a home is known, then the removable-media
/// mount root, then the extra asset directory when one is configured.
pub open spec fn spec_search_roots(
    home: Option<Seq<char>>,
    asset_dir: Option<Seq<char>>,
) -> Seq<Seq<char>> {
    (match home {
        Some(h) => seq![h + "/Downloads"@],
        None => Seq::<Seq<char>>::empty(),
    }) + seq!["/media"@] + (match asset_dir {
        Some(a) => seq![a],
        None => Seq::<Seq<char>>::empty(),
    })
}

pub fn search_roots(home: &Option<String>, asset_dir: &Option<String>) -> (r: Vec<String>)
    ensures
        r.deep_view() == spec_search_roots(
            match home {
                Some(h) => Some(h@),
                None => None,
            },
            match asset_dir {
                Some(a) => Some(a@),
                None => None,
            },
        ),
{
    let mut out: Vec<String> = Vec::new();
    if let Some(h) = home {
        let mut d = h.clone();
        d.append("/Downloads");
        out.push(d);
    }
    out.push(String::from_str("/media"));
    if let Some(a) = asset_dir {
        out.push(a.clone());
    }
    proof {
        assert(out.deep_view() =~= spec_search_roots(
            match home {
                Some(h) => Some(h@),
                None => None,
            },
            match asset_dir {
                Some(a) => Some(a@),
                None => None,
            },
        ));
    }
    out
}

/// Where a non-privileged user's home directory is expected.  Whether it
/// exists is checked by the surrounding binary; absence only degrades the
/// browser-trust and downloads features.
pub fn home_candidate(username: &str) -> (r: String)
    ensures
        r@ == "/home/"@ + username@,
{
    let mut s = String::from_str("/home/");
    s.append(username);
    s
}

} // verus!
