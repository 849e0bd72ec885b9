//! Verified text helpers: stripping the quote characters that a
//! JSON-sourced configuration list carries around its entries,
//! membership in such a list, and substring search for the file-skip
//! check.
use vstd::prelude::*;

verus! {

/// `s` with every leading `"` removed.
pub open spec fn trim_front(s: Seq<char>) -> Seq<char>
    decreases s.len(),
{
    if s.len() > 0 && s[0] == '"' {
        trim_front(s.drop_first())
    } else {
        s
    }
}

/// `s` with every trailing `"` removed.
pub open spec fn trim_back(s: Seq<char>) -> Seq<char>
    decreases s.len(),
{
    if s.len() > 0 && s[s.len() - 1] == '"' {
        trim_back(s.drop_last())
    } else {
        s
    }
}

/// `s` with every leading and trailing `"` removed.
pub open spec fn trim_quotes_s(s: Seq<char>) -> Seq<char> {
    trim_back(trim_front(s))
}

/// Whether `l` holds an entry that equals `item` once its surrounding
/// quotes are stripped.
pub open spec fn list_contains_trimmed(l: Seq<Seq<char>>, item: Seq<char>) -> bool {
    exists|i: int| 0 <= i < l.len() && trim_quotes_s(#[trigger] l[i]) == item
}

/// Whether `needle` occurs contiguously inside `hay`.
pub open spec fn contains_sub(hay: Seq<char>, needle: Seq<char>) -> bool {
    exists|i: int|
        0 <= i && i + needle.len() <= hay.len() && #[trigger] hay.subrange(i, i + needle.len())
            == needle
}

/// Whether a file with path `filename` is exempt from the whole
/// transform: some entry of `ignore_files`, quotes stripped, occurs in
/// the path.
pub open spec fn should_skip_s(filename: Seq<char>, ignore_files: Seq<Seq<char>>) -> bool {
    exists|i: int|
        0 <= i < ignore_files.len() && contains_sub(
            filename,
            trim_quotes_s(#[trigger] ignore_files[i]),
        )
}

/// Strips every leading and trailing `"` character from `s`.
pub fn trim_quotes(s: &String) -> (r: String)
    ensures
        r@ == trim_quotes_s(s@),
{
    let st: &str = s.as_str();
    let n: usize = st.unicode_len();
    proof {
        assert(s@.subrange(0, n as int) =~= s@);
    }
    let mut a: usize = 0;
    while a < n && st.get_char(a) == '"'
        invariant
            0 <= a <= n,
            n == s@.len(),
            st@ == s@,
            trim_front(s@) == trim_front(s@.subrange(a as int, n as int)),
        decreases n - a,
    {
        proof {
            let t = s@.subrange(a as int, n as int);
            assert(t[0] == s@[a as int]);
            assert(t.drop_first() =~= s@.subrange(a as int + 1, n as int));
        }
        a = a + 1;
    }
    proof {
        let t = s@.subrange(a as int, n as int);
        if a < n {
            assert(t[0] == s@[a as int]);
        }
        assert(trim_front(t) == t);
    }
    let mut b: usize = n;
    while b > a && st.get_char(b - 1) == '"'
        invariant
            0 <= a <= b <= n,
            n == s@.len(),
            st@ == s@,
            trim_front(s@) == trim_front(s@.subrange(a as int, n as int)),
            trim_back(s@.subrange(a as int, n as int)) == trim_back(
                s@.subrange(a as int, b as int),
            ),
        decreases b,
    {
        proof {
            let t = s@.subrange(a as int, b as int);
            assert(t[t.len() - 1] == s@[b - 1]);
            assert(t.drop_last() =~= s@.subrange(a as int, b as int - 1));
        }
        b = b - 1;
    }
    proof {
        let t = s@.subrange(a as int, b as int);
        if b > a {
            assert(t[t.len() - 1] == s@[b - 1]);
        }
        assert(trim_back(t) == t);
    }
    let r: &str = st.substring_char(a, b);
    r.to_owned()
}

/// Whether one entry of `vec`, quotes stripped, equals `item`.
/// This is the ignore-list membership test.
pub fn vec_contains_string(vec: Vec<String>, item: String) -> (r: bool)
    ensures
        r == list_contains_trimmed(vec.deep_view(), item@),
{
    vec_contains_string_ref(&vec, &item)
}

/// Borrowing form of `vec_contains_string`.
pub fn vec_contains_string_ref(vec: &Vec<String>, item: &String) -> (r: bool)
    ensures
        r == list_contains_trimmed(vec.deep_view(), item@),
{
    let mut found = false;
    let mut i: usize = 0;
    while i < vec.len()
        invariant
            0 <= i <= vec.len(),
            found == exists|j: int|
                0 <= j < i && trim_quotes_s(#[trigger] vec.deep_view()[j]) == item@,
        decreases vec.len() - i,
    {
        proof {
            assert(vec.deep_view()[i as int] == vec@[i as int]@);
        }
        let t = trim_quotes(&vec[i]);
        if t == *item {
            found = true;
        }
        i = i + 1;
    }
    found
}

/// Whether `needle` occurs contiguously inside `hay`.
pub fn string_contains(hay: &String, needle: &String) -> (r: bool)
    ensures
        r == contains_sub(hay@, needle@),
{
    let h: &str = hay.as_str();
    let nd: &str = needle.as_str();
    let hn: usize = h.unicode_len();
    let nn: usize = nd.unicode_len();
    if nn > hn {
        return false;
    }
    let mut i: usize = 0;
    loop
        invariant
            0 <= i <= hn - nn,
            nn <= hn,
            hn == hay@.len(),
            nn == needle@.len(),
            h@ == hay@,
            nd@ == needle@,
            forall|k: int|
                0 <= k < i ==> #[trigger] hay@.subrange(k, k + needle@.len()) != needle@,
        decreases hn - nn - i,
    {
        let mut j: usize = 0;
        let mut matched = true;
        while j < nn
            invariant
                0 <= j <= nn,
                0 <= i <= hn - nn,
                nn <= hn,
                hn == hay@.len(),
                nn == needle@.len(),
                h@ == hay@,
                nd@ == needle@,
                matched == forall|k: int| 0 <= k < j ==> hay@[i + k] == needle@[k],
            decreases nn - j,
        {
            let hc = h.get_char(i + j);
            let nc = nd.get_char(j);
            if hc != nc {
                proof {
                    assert(hay@[i + j] != needle@[j as int]);
                }
                matched = false;
                j = nn;
            } else {
                proof {
                    assert(matched ==> forall|k: int|
                        0 <= k < j + 1 ==> hay@[i + k] == needle@[k]);
                }
                j = j + 1;
            }
        }
        if matched {
            proof {
                assert(hay@.subrange(i as int, i as int + needle@.len()) =~= needle@);
            }
            return true;
        }
        proof {
            let k = choose|k: int| 0 <= k < needle@.len() && hay@[i + k] != needle@[k];
            assert(hay@.subrange(i as int, i as int + needle@.len())[k] == hay@[i + k]);
        }
        if i == hn - nn {
            return false;
        }
        i = i + 1;
    }
}

/// Decides the whole-file bypass: whether some configured ignore
/// entry occurs in the file's path.
pub fn should_skip(filename: &String, ignore_files: &Vec<String>) -> (r: bool)
    ensures
        r == should_skip_s(filename@, ignore_files.deep_view()),
{
    let mut i: usize = 0;
    let mut skip = false;
    while i < ignore_files.len()
        invariant
            0 <= i <= ignore_files.len(),
            skip == exists|j: int|
                0 <= j < i && contains_sub(
                    filename@,
                    trim_quotes_s(#[trigger] ignore_files.deep_view()[j]),
                ),
        decreases ignore_files.len() - i,
    {
        proof {
            assert(ignore_files.deep_view()[i as int] == ignore_files@[i as int]@);
        }
        let t = trim_quotes(&ignore_files[i]);
        if string_contains(filename, &t) {
            skip = true;
        }
        i = i + 1;
    }
    skip
}

} // verus!
