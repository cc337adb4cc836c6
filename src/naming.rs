use vstd::prelude::*;

verus! {

/// The suffix that marks a combined cell as registered on the amorphous SiNx substrate.
pub open spec fn substrate_suffix() -> Seq<char> {
    seq!['_', 'S', 'i', 'N', 'x', '_', 'a', 'm']
}

/// The marker that a cluster cell name carries when it belongs to a density-of-states run.
pub open spec fn dos_marker() -> Seq<char> {
    seq!['D', 'O', 'S']
}

/// Whether `t` occurs in `s` starting at position `i`.
pub open spec fn occurs_at(s: Seq<char>, t: Seq<char>, i: int) -> bool {
    0 <= i && i + t.len() <= s.len() && s.subrange(i, i + t.len()) == t
}

/// Whether `t` occurs anywhere in `s`.
pub open spec fn contains_seq(s: Seq<char>, t: Seq<char>) -> bool {
    exists|i: int| occurs_at(s, t, i)
}

/// The file stem of a path, as `std::path::Path::file_stem` computes it.
pub uninterp spec fn stem_of(path: Seq<char>) -> Option<Seq<char>>;

/// Relies on `std::path::Path::file_stem`: the stem depends on the path text alone,
/// and a path given as `&str` is valid UTF-8, so the stem converts back to a string.
#[verifier::external_body]
fn path_file_stem(path: &str) -> (r: Option<String>)
    ensures
        match r {
            Some(s) => stem_of(path@) == Some(s@),
            None => stem_of(path@) is None,
        },
{
    std::path::Path::new(path).file_stem().and_then(|s| s.to_str()).map(|s| s.to_string())
}

/// Whether `s` holds `t` at position `i`, checked character by character.
fn occurs_at_exec(s: &str, t: &str, i: usize) -> (r: bool)
    requires
        i + t@.len() <= s@.len(),
        s@.len() <= usize::MAX,
    ensures
        r == occurs_at(s@, t@, i as int),
{
    let n = t.unicode_len();
    let mut k: usize = 0;
    while k < n
        invariant
            n == t@.len(),
            i + n <= s@.len(),
            s@.len() <= usize::MAX,
            k <= n,
            forall|m: int| 0 <= m < k ==> s@[i + m] == t@[m],
        decreases n - k,
    {
        if s.get_char(i + k) != t.get_char(k) {
            assert(s@.subrange(i as int, i + n)[k as int] != t@[k as int]);
            return false;
        }
        k = k + 1;
    }
    assert(s@.subrange(i as int, i + n) =~= t@);
    true
}

/// Whether `t` occurs somewhere in `s`.
pub fn contains_str(s: &str, t: &str) -> (r: bool)
    ensures
        r == contains_seq(s@, t@),
{
    let n = s.unicode_len();
    let m = t.unicode_len();
    if m > n {
        return false;
    }
    if m == 0 {
        assert(s@.subrange(0, 0) =~= t@);
        assert(occurs_at(s@, t@, 0));
        return true;
    }
    let mut i: usize = 0;
    while i <= n - m
        invariant
            n == s@.len(),
            m == t@.len(),
            1 <= m <= n,
            i <= n - m + 1,
            forall|j: int| 0 <= j < i ==> !occurs_at(s@, t@, j),
        decreases n - m + 1 - i,
    {
        if occurs_at_exec(s, t, i) {
            return true;
        }
        i = i + 1;
    }
    assert forall|j: int| !occurs_at(s@, t@, j) by {
        if 0 <= j && j + m <= n {
            assert(j < i);
        }
    }
    false
}

/// The seed name of the combined cell made from a cluster cell with the given stem.
pub fn seed_name_for_stem(stem: &str) -> (r: String)
    ensures
        r@ == stem@ + substrate_suffix(),
{
    let suffix = "_SiNx_am";
    proof {
        reveal_strlit("_SiNx_am");
    }
    let r = String::from_str(stem).concat(suffix);
    assert(suffix@ =~= substrate_suffix());
    r
}

/// The seed name of the combined cell made from the cluster cell at `ni_cell_path`:
/// its file stem followed by `_SiNx_am`, or `None` where the path has no file stem.
pub fn combined_cell_name(ni_cell_path: &str) -> (r: Option<String>)
    ensures
        match stem_of(ni_cell_path@) {
            Some(stem) => r is Some && r->0@ == stem + substrate_suffix(),
            None => r is None,
        },
{
    match path_file_stem(ni_cell_path) {
        Some(stem) => Some(seed_name_for_stem(stem.as_str())),
        None => None,
    }
}

/// Whether a cell with this file stem belongs to a density-of-states run.
pub fn is_dos_stem(stem: &str) -> (r: bool)
    ensures
        r == contains_seq(stem@, dos_marker()),
{
    let marker = "DOS";
    proof {
        reveal_strlit("DOS");
    }
    assert(marker@ =~= dos_marker());
    contains_str(stem, marker)
}

/// Whether the cluster cell at `path` is to be combined: it has a file stem,
/// and that stem does not name a density-of-states run.
pub fn should_process(path: &str) -> (r: bool)
    ensures
        r == match stem_of(path@) {
            Some(stem) => !contains_seq(stem, dos_marker()),
            None => false,
        },
{
    match path_file_stem(path) {
        Some(stem) => !is_dos_stem(stem.as_str()),
        None => false,
    }
}

/// Whether a seed name can stand as a single directory and file stem:
/// it is not empty and holds no path separator.
pub open spec fn valid_seed_name(name: Seq<char>) -> bool {
    name.len() > 0 && !name.contains('/') && !name.contains('\\')
}

/// Accepts a seed name that is not empty and holds no path separator.
pub fn check_seed_name(name: &str) -> (r: Result<(), crate::error::DeckError>)
    ensures
        match r {
            Ok(()) => valid_seed_name(name@),
            Err(crate::error::DeckError::InvalidSeedName { name: n }) => !valid_seed_name(name@)
                && n@ == name@,
            Err(_) => false,
        },
{
    let n = name.unicode_len();
    let mut i: usize = 0;
    let mut ok = n > 0;
    while i < n
        invariant
            n == name@.len(),
            i <= n,
            ok == (n > 0 && forall|j: int| 0 <= j < i ==> name@[j] != '/' && name@[j] != '\\'),
        decreases n - i,
    {
        let c = name.get_char(i);
        if c == '/' || c == '\\' {
            ok = false;
        }
        i = i + 1;
    }
    if ok {
        Ok(())
    } else {
        proof {
            if n > 0 {
                assert(exists|j: int| 0 <= j < n && (name@[j] == '/' || name@[j] == '\\'));
                let j = choose|j: int| 0 <= j < n && (name@[j] == '/' || name@[j] == '\\');
                if name@[j] == '/' {
                    assert(name@.contains('/'));
                } else {
                    assert(name@.contains('\\'));
                }
            }
        }
        Err(crate::error::DeckError::InvalidSeedName { name: String::from_str(name) })
    }
}

} // verus!
