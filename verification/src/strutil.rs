//! String helpers the directory decoder rests on: permissive decoding of
//! stored name bytes, trailing-space trimming, and ASCII case-insensitive
//! comparison.
use vstd::prelude::*;

verus! {

/// What `String::from_utf8_lossy` returns for a byte sequence: the decoded
/// characters, with invalid sequences replaced. Named here because spelling
/// out UTF-8 decoding would restate the library being relied on.
pub uninterp spec fn lossy_of(s: Seq<u8>) -> Seq<char>;

/// Whether every byte of `s` is ASCII.
pub open spec fn all_ascii(s: Seq<u8>) -> bool {
    forall|i: int| 0 <= i < s.len() ==> s[i] < 0x80
}

/// Relies on `String::from_utf8_lossy`: the result is a function of the
/// bytes alone, and ASCII bytes decode to their own characters.
#[verifier::external_body]
pub fn lossy_string(v: &[u8]) -> (r: String)
    ensures
        r@ == lossy_of(v@),
        all_ascii(v@) ==> r@ == v@.map_values(|b: u8| b as char),
{
    String::from_utf8_lossy(v).into_owned()
}

/// The length of `s` once trailing ASCII spaces are dropped.
pub open spec fn spec_trimmed_len(s: Seq<u8>) -> nat
    decreases s.len(),
{
    if s.len() == 0 {
        0
    } else if s[s.len() - 1] == 0x20 {
        spec_trimmed_len(s.drop_last())
    } else {
        s.len()
    }
}

/// `s` with its trailing ASCII spaces dropped.
pub open spec fn spec_trimmed(s: Seq<u8>) -> Seq<u8> {
    s.take(spec_trimmed_len(s) as int)
}

/// Copies `v` up to, but not including, its trailing run of ASCII spaces.
pub fn trim_trailing_spaces(v: &[u8]) -> (r: Vec<u8>)
    ensures
        r@ == spec_trimmed(v@),
{
    let mut end: usize = v.len();
    proof {
        assert(v@.take(end as int) =~= v@);
    }
    while end > 0 && v[end - 1] == 0x20
        invariant
            end <= v@.len(),
            spec_trimmed_len(v@) == spec_trimmed_len(v@.take(end as int)),
        decreases end,
    {
        proof {
            assert(v@.take(end as int).drop_last() =~= v@.take(end - 1));
        }
        end = end - 1;
    }
    proof {
        assert(spec_trimmed_len(v@.take(end as int)) == end);
    }
    let mut r: Vec<u8> = Vec::new();
    let mut i: usize = 0;
    while i < end
        invariant
            i <= end,
            end <= v@.len(),
            r@ =~= v@.take(end as int).take(i as int),
        decreases end - i,
    {
        r.push(v[i]);
        i = i + 1;
        proof {
            assert(r@ =~= v@.take(end as int).take(i as int));
        }
    }
    proof {
        assert(r@ =~= spec_trimmed(v@));
    }
    r
}

/// One character folded to lowercase over its scalar value, the way ASCII
/// case-insensitive comparison sees it.
pub open spec fn spec_lower(x: u32) -> u32 {
    if 0x41 <= x && x <= 0x5a {
        (x + 0x20) as u32
    } else {
        x
    }
}

/// Whether two character sequences are an ASCII case-insensitive match.
pub open spec fn spec_eq_ignore_ascii_case(a: Seq<char>, b: Seq<char>) -> bool {
    a.len() == b.len() && forall|i: int|
        0 <= i < a.len() ==> spec_lower(a[i] as u32) == spec_lower(b[i] as u32)
}

/// Relies on `str::eq_ignore_ascii_case`: true exactly when the two strings
/// agree once ASCII letters are folded to one case, everything else compared
/// as it stands.
#[verifier::external_body]
pub fn eq_ignore_ascii_case(a: &str, b: &str) -> (r: bool)
    ensures
        r == spec_eq_ignore_ascii_case(a@, b@),
{
    a.eq_ignore_ascii_case(b)
}

} // verus!
