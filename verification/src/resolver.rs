//! Choosing one input device out of an enumerated list by name.
//!
//! Matching is case-insensitive. An exact match of the whole name wins over
//! every substring match, wherever it stands in enumeration order; failing
//! that, the first device whose name contains the query wins. A device
//! without a name never qualifies; an unnamed device is handed in as an
//! empty name.

use vstd::prelude::*;

verus! {

/// What `str::to_lowercase` returns for a given sequence of characters.
/// The result depends on the characters alone.
pub uninterp spec fn lower_of(s: Seq<char>) -> Seq<char>;

/// Relies on str::to_lowercase: returns the lowercase equivalent of the
/// string, a pure function of its characters; an empty string stays empty.
/// The characters are handed back as a vector so that verified code can
/// walk them.
#[verifier::external_body]
fn lower_chars(s: &str) -> (r: Vec<char>)
    ensures
        r@ == lower_of(s@),
        s@.len() == 0 ==> r@.len() == 0,
{
    s.to_lowercase().chars().collect()
}

/// `needle` occurs contiguously somewhere in `hay`.
pub open spec fn is_substring(needle: Seq<char>, hay: Seq<char>) -> bool {
    exists|i: int|
        0 <= i && i + needle.len() <= hay.len() && #[trigger] hay.subrange(i, i + needle.len())
            == needle
}

/// A device name qualifies as an exact match: it is non-empty and equals
/// the query outright.
pub open spec fn exact_match(query: Seq<char>, name: Seq<char>) -> bool {
    name.len() > 0 && name == query
}

/// A device name qualifies as a substring match: it is non-empty and
/// contains the query.
pub open spec fn substring_match(query: Seq<char>, name: Seq<char>) -> bool {
    name.len() > 0 && is_substring(query, name)
}

/// Some entry of the list is an exact match.
pub open spec fn has_exact_match(query: Seq<char>, names: Seq<Seq<char>>) -> bool {
    exists|i: int| 0 <= i < names.len() && exact_match(query, names[i])
}

/// Some entry of the list is a substring match.
pub open spec fn has_substring_match(query: Seq<char>, names: Seq<Seq<char>>) -> bool {
    exists|i: int| 0 <= i < names.len() && substring_match(query, names[i])
}

/// `i` is the first exact match in enumeration order.
pub open spec fn is_first_exact_match(query: Seq<char>, names: Seq<Seq<char>>, i: int) -> bool {
    &&& 0 <= i < names.len()
    &&& exact_match(query, names[i])
    &&& forall|j: int| 0 <= j < i ==> !exact_match(query, names[j])
}

/// `i` is the first substring match in enumeration order.
pub open spec fn is_first_substring_match(query: Seq<char>, names: Seq<Seq<char>>, i: int) -> bool {
    &&& 0 <= i < names.len()
    &&& substring_match(query, names[i])
    &&& forall|j: int| 0 <= j < i ==> !substring_match(query, names[j])
}

/// The index the resolver must return, if any: the first exact match where
/// one exists, else the first substring match, else nothing.
pub open spec fn resolution_ok(
    query: Seq<char>,
    names: Seq<Seq<char>>,
    r: Option<usize>,
) -> bool {
    match r {
        Some(i) => {
            if has_exact_match(query, names) {
                is_first_exact_match(query, names, i as int)
            } else {
                is_first_substring_match(query, names, i as int)
            }
        },
        None => !has_substring_match(query, names) && !has_exact_match(query, names),
    }
}

/// Whether `hay` equals `needle` at offset `i`.
fn match_at(hay: &Vec<char>, needle: &Vec<char>, i: usize) -> (r: bool)
    requires
        i + needle@.len() <= hay@.len(),
    ensures
        r == (hay@.subrange(i as int, i as int + needle@.len() as int) == needle@),
{
    let n = needle.len();
    let h = hay.len();
    let mut j: usize = 0;
    while j < n
        invariant
            i + n <= h,
            h == hay@.len(),
            n == needle@.len(),
            j <= n,
            forall|k: int| 0 <= k < j ==> hay@[i + k] == needle@[k],
        decreases n - j,
    {
        if hay[i + j] != needle[j] {
            proof {
                assert(hay@.subrange(i as int, i as int + n as int)[j as int] == hay@[i + j]);
            }
            return false;
        }
        j = j + 1;
    }
    proof {
        assert(hay@.subrange(i as int, i as int + n as int) =~= needle@);
    }
    true
}

/// Whether the characters of `a` equal the characters of `b`.
fn chars_equal(a: &Vec<char>, b: &Vec<char>) -> (r: bool)
    ensures
        r == (a@ == b@),
{
    if a.len() != b.len() {
        return false;
    }
    let n = a.len();
    let mut i: usize = 0;
    while i < n
        invariant
            n == a@.len(),
            n == b@.len(),
            i <= n,
            forall|k: int| 0 <= k < i ==> a@[k] == b@[k],
        decreases n - i,
    {
        if a[i] != b[i] {
            return false;
        }
        i = i + 1;
    }
    proof {
        assert(a@ =~= b@);
    }
    true
}

/// Whether `hay` contains `needle` as a contiguous run of characters.
fn chars_contain(hay: &Vec<char>, needle: &Vec<char>) -> (r: bool)
    ensures
        r == is_substring(needle@, hay@),
{
    let n = needle.len();
    let h = hay.len();
    if n > h {
        return false;
    }
    if n == 0 {
        proof {
            assert(hay@.subrange(0, 0 + needle@.len() as int) =~= needle@);
            assert(is_substring(needle@, hay@));
        }
        return true;
    }
    let mut i: usize = 0;
    while i <= h - n
        invariant
            n == needle@.len(),
            h == hay@.len(),
            1 <= n <= h,
            i <= h - n + 1,
            forall|k: int| 0 <= k < i ==> #[trigger] hay@.subrange(k, k + n) != needle@,
        decreases h - n - i + 1,
    {
        if match_at(hay, needle, i) {
            return true;
        }
        i = i + 1;
    }
    false
}

/// Resolve a device among already-lowercased names: the first exact match
/// of the whole query wins; failing that, the first name that contains the
/// query; a device with an empty name never qualifies. Returns the index of
/// the chosen device, or `None` when nothing matches.
pub fn resolve_in_lowered(query: &Vec<char>, names: &Vec<Vec<char>>) -> (r: Option<usize>)
    ensures
        resolution_ok(query@, names.deep_view(), r),
{
    let ghost dnames: Seq<Seq<char>> = names.deep_view();
    let n = names.len();
    let mut best: Option<usize> = None;
    let mut i: usize = 0;
    while i < n
        invariant
            n == names@.len(),
            dnames == names.deep_view(),
            i <= n,
            forall|j: int| 0 <= j < i ==> !exact_match(query@, dnames[j]),
            match best {
                Some(b) => is_first_substring_match(query@, dnames, b as int),
                None => forall|j: int| 0 <= j < i ==> !substring_match(query@, dnames[j]),
            },
        decreases n - i,
    {
        let name = &names[i];
        proof {
            assert(dnames[i as int] =~= names@[i as int]@);
        }
        if name.len() > 0 {
            if chars_equal(name, query) {
                proof {
                    assert(exact_match(query@, dnames[i as int]));
                }
                return Some(i);
            }
            if best.is_none() && chars_contain(name, query) {
                proof {
                    assert(substring_match(query@, dnames[i as int]));
                }
                best = Some(i);
            }
        }
        i = i + 1;
    }
    proof {
        assert(!has_exact_match(query@, dnames));
        if best is None {
            assert(!has_substring_match(query@, dnames));
        }
    }
    best
}

/// The names of the enumerated devices, each lowercased.
pub open spec fn lowered_names(names: Seq<Seq<char>>) -> Seq<Seq<char>> {
    names.map_values(|s: Seq<char>| lower_of(s))
}

/// Resolve a device by name, case-insensitively: lowercase the query and
/// every device name, then pick the first exact match, or failing that the
/// first name containing the query. An unnamed device is handed in as an
/// empty string and never qualifies. Returns the index of the chosen
/// device in enumeration order, or `None` when no device matches.
pub fn find_device_index_by_name(query: &str, names: &Vec<String>) -> (r: Option<usize>)
    ensures
        resolution_ok(lower_of(query@), lowered_names(names.deep_view()), r),
{
    let ghost dnames: Seq<Seq<char>> = names.deep_view();
    let query_lower = lower_chars(query);
    let n = names.len();
    let mut names_lower: Vec<Vec<char>> = Vec::new();
    let mut i: usize = 0;
    while i < n
        invariant
            n == names@.len(),
            dnames == names.deep_view(),
            i <= n,
            names_lower@.len() == i as int,
            forall|j: int| 0 <= j < i ==> names_lower@[j]@ == lower_of(dnames[j]),
        decreases n - i,
    {
        proof {
            assert(dnames[i as int] =~= names@[i as int]@);
        }
        let lowered = lower_chars(names[i].as_str());
        names_lower.push(lowered);
        i = i + 1;
    }
    proof {
        assert(names_lower.deep_view() =~~= lowered_names(dnames));
    }
    resolve_in_lowered(&query_lower, &names_lower)
}

} // verus!
