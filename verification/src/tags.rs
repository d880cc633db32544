//! Tag resolution: given the tags of a repository, a package name and a
//! version string, find the tag that corresponds to the version.
//!
//! Candidates are tried in a fixed priority order — bare version,
//! `v`-prefixed version, `name-version`, `name-v-version` — and only an exact
//! whole-name match counts: a tag that merely contains a candidate as a
//! substring is never matched.

use vstd::prelude::*;
use vstd::string::StringExecFns;

verus! {

/// A candidate tag occurs in a tag listing as a whole name.
pub open spec fn tag_listing_has(tags: Seq<Seq<char>>, tag: Seq<char>) -> bool {
    exists|i: int| 0 <= i < tags.len() && tags[i] == tag
}

/// The fixed, ordered candidate tag names derived from a package name and a
/// version string.
pub open spec fn candidate_list(name: Seq<char>, version: Seq<char>) -> Seq<Seq<char>> {
    seq![
        version,
        "v"@ + version,
        name + "-"@ + version,
        name + "-v"@ + version,
    ]
}

/// The first candidate, in order, that occurs in the tag listing.
pub open spec fn first_match(tags: Seq<Seq<char>>, cands: Seq<Seq<char>>) -> Option<Seq<char>>
    decreases cands.len(),
{
    if cands.len() == 0 {
        None
    } else if tag_listing_has(tags, cands[0]) {
        Some(cands[0])
    } else {
        first_match(tags, cands.subrange(1, cands.len() as int))
    }
}

/// The tag that a listing resolves to for a package name and version.
pub open spec fn resolved_tag(tags: Seq<Seq<char>>, name: Seq<char>, version: Seq<char>) -> Option<
    Seq<char>,
> {
    first_match(tags, candidate_list(name, version))
}

/// Whole-name membership test of one candidate tag against a tag listing.
pub fn tags_contain(tags: &Vec<String>, tag: &String) -> (r: bool)
    ensures
        r == tag_listing_has(tags.deep_view(), tag@),
{
    let mut i: usize = 0;
    while i < tags.len()
        invariant
            0 <= i <= tags.len(),
            forall|k: int| 0 <= k < i ==> tags.deep_view()[k] != tag@,
        decreases tags.len() - i,
    {
        if tags[i].eq(tag) {
            assert(tags.deep_view()[i as int] == tag@);
            return true;
        }
        assert(tags.deep_view()[i as int] == tags@[i as int]@);
        i = i + 1;
    }
    false
}

/// Builds the candidate tag names for a package name and a version string, in
/// priority order.
pub fn candidate_tags(name: &str, version: &str) -> (r: Vec<String>)
    ensures
        r.deep_view() == candidate_list(name@, version@),
{
    let c0 = version.to_owned();
    let mut c1 = String::from_str("v");
    c1.append(version);
    let mut c2 = name.to_owned();
    c2.append("-");
    c2.append(version);
    let mut c3 = name.to_owned();
    c3.append("-v");
    c3.append(version);
    let mut r: Vec<String> = Vec::new();
    r.push(c0);
    r.push(c1);
    r.push(c2);
    r.push(c3);
    proof {
        assert(r.deep_view() =~= candidate_list(name@, version@));
    }
    r
}

/// Resolves the tag for a package name and version against a tag listing:
/// returns the first candidate, in priority order, that occurs in the listing
/// as a whole name, and nothing when no candidate occurs.
pub fn resolve_tag(tags: &Vec<String>, name: &str, version: &str) -> (r: Option<String>)
    ensures
        match r {
            Some(t) => resolved_tag(tags.deep_view(), name@, version@) == Some(t@),
            None => resolved_tag(tags.deep_view(), name@, version@) is None,
        },
{
    let cands = candidate_tags(name, version);
    let ghost cl = candidate_list(name@, version@);
    let ghost tagsv = tags.deep_view();
    let mut i: usize = 0;
    assert(cl.subrange(0, cl.len() as int) =~= cl);
    while i < cands.len()
        invariant
            cands.deep_view() == cl,
            cands@.len() == cl.len(),
            cl == candidate_list(name@, version@),
            tagsv == tags.deep_view(),
            0 <= i <= cands@.len(),
            first_match(tagsv, cl) == first_match(tagsv, cl.subrange(i as int, cl.len() as int)),
        decreases cands@.len() - i,
    {
        assert(cands.deep_view()[i as int] == cands@[i as int]@);
        if tags_contain(tags, &cands[i]) {
            proof {
                let sub = cl.subrange(i as int, cl.len() as int);
                assert(sub[0] == cl[i as int]);
                assert(cl[i as int] == cands@[i as int]@);
                assert(tag_listing_has(tagsv, sub[0]));
                assert(first_match(tagsv, sub) == Some(sub[0]));
            }
            let t = cands[i].clone();
            return Some(t);
        }
        proof {
            let sub = cl.subrange(i as int, cl.len() as int);
            assert(sub[0] == cl[i as int]);
            assert(sub.subrange(1, sub.len() as int) =~= cl.subrange(i + 1, cl.len() as int));
        }
        i = i + 1;
    }
    assert(cl.subrange(cands@.len() as int, cl.len() as int) =~= Seq::<Seq<char>>::empty());
    None
}

/// When some candidate occurs in the listing and every earlier candidate does
/// not, the resolver returns exactly that candidate: candidates are tried in
/// priority order and the first hit wins.
pub proof fn lemma_first_match_order(tags: Seq<Seq<char>>, cands: Seq<Seq<char>>, j: int)
    requires
        0 <= j < cands.len(),
        tag_listing_has(tags, cands[j]),
        forall|k: int| 0 <= k < j ==> !tag_listing_has(tags, cands[k]),
    ensures
        first_match(tags, cands) == Some(cands[j]),
    decreases j,
{
    if j == 0 {
    } else {
        let sub = cands.subrange(1, cands.len() as int);
        assert(sub[j - 1] == cands[j]);
        assert(forall|k: int| 0 <= k < j - 1 ==> sub[k] == cands[k + 1]);
        lemma_first_match_order(tags, sub, j - 1);
    }
}

/// When no candidate occurs in the listing, the resolver returns nothing.
pub proof fn lemma_first_match_none(tags: Seq<Seq<char>>, cands: Seq<Seq<char>>)
    requires
        forall|k: int| 0 <= k < cands.len() ==> !tag_listing_has(tags, #[trigger] cands[k]),
    ensures
        first_match(tags, cands) is None,
    decreases cands.len(),
{
    if cands.len() > 0 {
        let sub = cands.subrange(1, cands.len() as int);
        assert(forall|k: int| 0 <= k < sub.len() ==> sub[k] == cands[k + 1]);
        lemma_first_match_none(tags, sub);
    }
}

/// For every package name and version, the resolver tries the candidates in
/// exactly the order bare version, `v`-prefixed version, `name-version`,
/// `name-v-version`, and returns the first one that the listing has.
pub proof fn lemma_resolver_priority_order(
    tags: Seq<Seq<char>>,
    name: Seq<char>,
    version: Seq<char>,
    j: int,
)
    requires
        0 <= j < candidate_list(name, version).len(),
        tag_listing_has(tags, candidate_list(name, version)[j]),
        forall|k: int|
            0 <= k < j ==> !tag_listing_has(tags, #[trigger] candidate_list(name, version)[k]),
    ensures
        resolved_tag(tags, name, version) == Some(candidate_list(name, version)[j]),
{
    lemma_first_match_order(tags, candidate_list(name, version), j);
}

/// When no candidate occurs in the listing as a whole name, the resolver
/// reports a legitimately absent tag rather than picking anything else.
pub proof fn lemma_resolver_no_match(tags: Seq<Seq<char>>, name: Seq<char>, version: Seq<char>)
    requires
        forall|k: int|
            0 <= k < candidate_list(name, version).len() ==> !tag_listing_has(
                tags,
                #[trigger] candidate_list(name, version)[k],
            ),
    ensures
        resolved_tag(tags, name, version) is None,
{
    lemma_first_match_none(tags, candidate_list(name, version));
}

/// A resolved tag is always itself a member of the tag listing and one of the
/// four candidates: a tag that is a strict superstring of a candidate, and so
/// differs from every candidate, is never matched.
pub proof fn lemma_resolved_tag_is_listed(tags: Seq<Seq<char>>, name: Seq<char>, version: Seq<char>)
    ensures
        resolved_tag(tags, name, version) matches Some(t) ==> tag_listing_has(tags, t)
            && candidate_list(name, version).contains(t),
{
    lemma_first_match_in_listing(tags, candidate_list(name, version));
}

/// A first match is a member of both the listing and the candidate sequence.
pub proof fn lemma_first_match_in_listing(tags: Seq<Seq<char>>, cands: Seq<Seq<char>>)
    ensures
        first_match(tags, cands) matches Some(t) ==> tag_listing_has(tags, t) && cands.contains(t),
    decreases cands.len(),
{
    if cands.len() > 0 {
        if !tag_listing_has(tags, cands[0]) {
            let sub = cands.subrange(1, cands.len() as int);
            lemma_first_match_in_listing(tags, sub);
            if first_match(tags, sub) is Some {
                let t = first_match(tags, sub)->Some_0;
                let k = choose|k: int| 0 <= k < sub.len() && sub[k] == t;
                assert(cands[k + 1] == t);
            }
        }
    }
}

} // verus!
