//! Pattern templates: resolving the templates directory through its fixed
//! search order, turning directory entries into a sorted list of pattern
//! names, and naming the instruction file of one pattern.
use vstd::prelude::*;
use vstd::seq_lib::lemma_multiset_commutative;
use crate::strutil::{opt_view, str_le, str_le_exec, lemma_str_le_total, lemma_str_le_trans};

verus! {

/// A named template directory.
pub struct Pattern {
    pub name: String,
    pub path: String,
}

/// One directory entry as the filesystem reports it: its name and whether
/// it is itself a directory.
pub struct DirEntry {
    pub name: String,
    pub is_dir: bool,
}

/// Index of the first `true` in `s`, or `s.len()` if there is none.
pub open spec fn first_true(s: Seq<bool>) -> int
    decreases s.len(),
{
    if s.len() == 0 {
        0
    } else if s[0] {
        0
    } else {
        1 + first_true(s.drop_first())
    }
}

/// `first_true` stays within the sequence.
pub proof fn lemma_first_true_bounds(s: Seq<bool>)
    ensures
        0 <= first_true(s) <= s.len(),
    decreases s.len(),
{
    if s.len() == 0 || s[0] {
    } else {
        lemma_first_true_bounds(s.drop_first());
    }
}

/// `first_true` points at the first set flag.
pub proof fn lemma_first_true_at(s: Seq<bool>, k: int)
    requires
        0 <= k <= s.len(),
        forall|j: int| 0 <= j < k ==> !s[j],
        k < s.len() ==> s[k],
    ensures
        first_true(s) == k,
    decreases k,
{
    if k == 0 {
    } else {
        assert(!s[0]);
        assert forall|j: int| 0 <= j < k - 1 implies !s.drop_first()[j] by {
            assert(s.drop_first()[j] == s[j + 1]);
        }
        assert(k - 1 < s.drop_first().len() ==> s.drop_first()[k - 1] == s[k]);
        lemma_first_true_at(s.drop_first(), k - 1);
    }
}

/// Walks candidates in order and hands back the first that exists, going
/// by the existence flags the caller gathered, one per candidate.
pub fn first_existing(candidates: &Vec<String>, exists: &Vec<bool>) -> (r: Option<String>)
    requires
        candidates@.len() == exists@.len(),
    ensures
        match r {
            Some(s) => first_true(exists@) < exists@.len() && s@ == candidates@[first_true(
                exists@,
            )]@,
            None => first_true(exists@) == exists@.len(),
        },
{
    let mut i: usize = 0;
    while i < exists.len()
        invariant
            candidates@.len() == exists@.len(),
            i <= exists@.len(),
            forall|j: int| 0 <= j < i ==> !exists@[j],
        decreases exists@.len() - i,
    {
        if exists[i] {
            proof {
                lemma_first_true_at(exists@, i as int);
            }
            return Some(candidates[i].clone());
        }
        i += 1;
    }
    proof {
        lemma_first_true_at(exists@, exists@.len() as int);
    }
    None
}

/// The candidates for the templates directory, in their fixed search
/// order: the environment override if one is set, the two conventional
/// places under the home directory if one is known, and the hard-coded
/// repository location.
pub open spec fn spec_patterns_dir_candidates(
    env_dir: Option<Seq<char>>,
    home: Option<Seq<char>>,
) -> Seq<Seq<char>> {
    (match env_dir {
        Some(e) => seq![e],
        None => Seq::<Seq<char>>::empty(),
    }) + (match home {
        Some(h) => seq![h + "/.config/fabric/patterns"@, h + "/.fabric/patterns"@],
        None => Seq::<Seq<char>>::empty(),
    }) + seq!["G:\\Fabric\\data\\patterns"@]
}

/// Builds the candidate list for the templates directory.
pub fn patterns_dir_candidates(env_dir: &Option<String>, home: &Option<String>) -> (r: Vec<String>)
    ensures
        r.deep_view() == spec_patterns_dir_candidates(opt_view(*env_dir), opt_view(*home)),
{
    let mut r: Vec<String> = Vec::new();
    if let Some(e) = env_dir {
        r.push(e.clone());
    }
    if let Some(h) = home {
        let mut c1 = h.clone();
        c1.append("/.config/fabric/patterns");
        r.push(c1);
        let mut c2 = h.clone();
        c2.append("/.fabric/patterns");
        r.push(c2);
    }
    r.push(String::from_str("G:\\Fabric\\data\\patterns"));
    proof {
        assert(r.deep_view() =~= spec_patterns_dir_candidates(opt_view(*env_dir), opt_view(*home)));
    }
    r
}

/// The place taken for the templates directory when no candidate exists:
/// under the home directory if one is known, else relative.
pub open spec fn spec_fallback_patterns_dir(home: Option<Seq<char>>) -> Seq<char> {
    match home {
        Some(h) => h + "/.config/fabric/patterns"@,
        None => ".config/fabric/patterns"@,
    }
}

/// Builds the fallback location of the templates directory.
pub fn fallback_patterns_dir(home: &Option<String>) -> (r: String)
    ensures
        r@ == spec_fallback_patterns_dir(opt_view(*home)),
{
    match home {
        Some(h) => {
            let mut r = h.clone();
            r.append("/.config/fabric/patterns");
            r
        },
        None => String::from_str(".config/fabric/patterns"),
    }
}

/// The names of the entries that are directories, in the order given.
pub open spec fn spec_dir_names(entries: Seq<DirEntry>) -> Seq<Seq<char>>
    decreases entries.len(),
{
    if entries.len() == 0 {
        Seq::<Seq<char>>::empty()
    } else {
        let init = spec_dir_names(entries.drop_last());
        if entries.last().is_dir {
            init.push(entries.last().name@)
        } else {
            init
        }
    }
}

/// Keeps the names of the entries that are directories: those become the
/// pattern names.
pub fn collect_pattern_names(entries: &Vec<DirEntry>) -> (r: Vec<String>)
    ensures
        r.deep_view() == spec_dir_names(entries@),
{
    let mut r: Vec<String> = Vec::new();
    let mut i: usize = 0;
    proof {
        assert(entries@.subrange(0, 0) =~= Seq::<DirEntry>::empty());
        assert(r.deep_view() =~= spec_dir_names(entries@.subrange(0, 0)));
    }
    while i < entries.len()
        invariant
            i <= entries@.len(),
            r.deep_view() == spec_dir_names(entries@.subrange(0, i as int)),
        decreases entries@.len() - i,
    {
        let ghost dv0 = r.deep_view();
        if entries[i].is_dir {
            r.push(entries[i].name.clone());
            proof {
                assert(r.deep_view() =~= dv0.push(entries@[i as int].name@));
            }
        }
        proof {
            assert(entries@.subrange(0, i + 1).drop_last() =~= entries@.subrange(0, i as int));
            assert(entries@.subrange(0, i + 1).last() == entries@[i as int]);
        }
        i += 1;
    }
    proof {
        assert(entries@.subrange(0, entries@.len() as int) =~= entries@);
    }
    r
}

/// Every pair of positions is ordered.
pub open spec fn names_sorted(s: Seq<Seq<char>>) -> bool {
    forall|i: int, j: int| 0 <= i < j < s.len() ==> str_le(s[i], s[j])
}

/// Where a name belongs in an already sorted list: everything before the
/// point is at most the name, everything from it on is at least the name.
fn insertion_point(r: &Vec<String>, x: &String) -> (j: usize)
    requires
        names_sorted(r.deep_view()),
    ensures
        j <= r@.len(),
        forall|k: int| 0 <= k < j ==> str_le(r.deep_view()[k], x@),
        forall|k: int| j <= k < r.deep_view().len() ==> str_le(x@, r.deep_view()[k]),
{
    let ghost dv = r.deep_view();
    let mut j: usize = 0;
    while j < r.len()
        invariant
            j <= r@.len(),
            dv == r.deep_view(),
            dv.len() == r@.len(),
            names_sorted(dv),
            forall|k: int| 0 <= k < j ==> str_le(dv[k], x@),
        decreases r@.len() - j,
    {
        if !str_le_exec(r[j].as_str(), x.as_str()) {
            proof {
                lemma_str_le_total(dv[j as int], x@);
                assert forall|k: int| j <= k < dv.len() implies str_le(x@, dv[k]) by {
                    if k > j {
                        lemma_str_le_trans(x@, dv[j as int], dv[k]);
                    }
                }
            }
            return j;
        }
        j += 1;
    }
    j
}

/// Sorts names lexicographically by insertion, keeping exactly the same
/// names: the result is ordered and carries the same multiset.
pub fn sort_names(v: Vec<String>) -> (r: Vec<String>)
    ensures
        names_sorted(r.deep_view()),
        r.deep_view().to_multiset() == v.deep_view().to_multiset(),
{
    let mut r: Vec<String> = Vec::new();
    let mut i: usize = 0;
    proof {
        assert(v.deep_view().subrange(0, 0) =~= Seq::<Seq<char>>::empty());
        assert(r.deep_view() =~= Seq::<Seq<char>>::empty());
        Seq::<Seq<char>>::empty().to_multiset_ensures();
        assert(r.deep_view().to_multiset() =~= v.deep_view().subrange(0, i as int).to_multiset());
    }
    while i < v.len()
        invariant
            i <= v@.len(),
            v.deep_view().len() == v@.len(),
            names_sorted(r.deep_view()),
            r.deep_view().to_multiset() == v.deep_view().subrange(0, i as int).to_multiset(),
        decreases v@.len() - i,
    {
        let x = v[i].clone();
        let ghost dv0 = r.deep_view();
        let j = insertion_point(&r, &x);
        r.insert(j, x);
        proof {
            let xs = v.deep_view()[i as int];
            let dvx = dv0.insert(j as int, xs);
            assert(r.deep_view() =~= dvx);
            // ordering around the insertion point
            assert forall|a: int, b: int| 0 <= a < b < dvx.len() implies str_le(
                dvx[a],
                dvx[b],
            ) by {
                if b < j {
                    assert(dvx[a] == dv0[a] && dvx[b] == dv0[b]);
                } else if a < j && b == j {
                    assert(dvx[a] == dv0[a] && dvx[b] == xs);
                } else if a < j {
                    assert(dvx[a] == dv0[a] && dvx[b] == dv0[b - 1]);
                } else if a == j {
                    assert(dvx[a] == xs && dvx[b] == dv0[b - 1]);
                } else {
                    assert(dvx[a] == dv0[a - 1] && dvx[b] == dv0[b - 1]);
                }
            }
            // multiset bookkeeping
            let left = dv0.subrange(0, j as int);
            let right = dv0.subrange(j as int, dv0.len() as int);
            assert(dvx =~= left + (seq![xs] + right));
            lemma_multiset_commutative(left, seq![xs] + right);
            lemma_multiset_commutative(seq![xs], right);
            lemma_multiset_commutative(left, right);
            assert(left + right =~= dv0);
            seq![xs].to_multiset_ensures();
            Seq::<Seq<char>>::empty().to_multiset_ensures();
            assert(seq![xs] =~= Seq::<Seq<char>>::empty().push(xs));
            assert(dvx.to_multiset() =~= dv0.to_multiset().insert(xs));
            // one more taken from the input
            v.deep_view().subrange(0, i as int).to_multiset_ensures();
            assert(v.deep_view().subrange(0, i + 1) =~= v.deep_view().subrange(0, i as int).push(
                xs,
            ));
        }
        i += 1;
    }
    proof {
        assert(v.deep_view().subrange(0, v@.len() as int) =~= v.deep_view());
    }
    r
}

/// The instruction file inside a named pattern directory.
pub fn pattern_file_path(dir: &str, name: &str) -> (r: String)
    ensures
        r@ == dir@ + "/"@ + name@ + "/system.md"@,
{
    let mut r = dir.to_owned();
    r.append("/");
    r.append(name);
    r.append("/system.md");
    r
}

/// The report when no templates directory exists.
pub fn patterns_dir_missing_message() -> (r: String)
    ensures
        r@ == "Fabric patterns directory not found. Please install Fabric first."@,
{
    String::from_str("Fabric patterns directory not found. Please install Fabric first.")
}

/// The report when a pattern has no instruction file.
pub fn pattern_content_missing_message() -> (r: String)
    ensures
        r@ == "Pattern content (system.md) not found."@,
{
    String::from_str("Pattern content (system.md) not found.")
}

} // verus!
