//! Text utilities for resource identifiers: decimal page numbers and the
//! query pairs of a resource URL.
//!
//! Splitting a URL into its query pairs (with percent-decoding) is the one
//! job delegated to the `url` crate; everything done with the pairs is
//! verified here against exact specifications.

use vstd::prelude::*;

verus! {

/// The query pairs of the URL written as `s`, or `None` where `s` is not a
/// valid URL. The pairs are a function of the text alone.
pub uninterp spec fn url_query_pairs_of(s: Seq<char>) -> Option<Seq<(Seq<char>, Seq<char>)>>;

/// Relies on `url::Url::parse` and `url::Url::query_pairs`: parsing either
/// fails, or yields the URL's query pairs in order, percent-decoded; both
/// depend on the URL text alone.
#[verifier::external_body]
pub(crate) fn url_query_pairs(s: &str) -> (r: Option<Vec<(String, String)>>)
    ensures
        r is Some <==> url_query_pairs_of(s@) is Some,
        r matches Some(v) ==> v.deep_view() == url_query_pairs_of(s@).unwrap(),
{
    match url::Url::parse(s) {
        Ok(u) => Some(u.query_pairs().map(|(k, v)| (k.into_owned(), v.into_owned())).collect()),
        Err(_) => None,
    }
}

/// The value of the last query pair whose key is `key`, if any.
pub open spec fn last_value(pairs: Seq<(Seq<char>, Seq<char>)>, key: Seq<char>) -> Option<Seq<char>>
    decreases pairs.len(),
{
    if pairs.len() == 0 {
        None
    } else if pairs.last().0 == key {
        Some(pairs.last().1)
    } else {
        last_value(pairs.drop_last(), key)
    }
}

/// The value of the last query pair whose key is *not* `key`, if any.
pub open spec fn last_other_value(
    pairs: Seq<(Seq<char>, Seq<char>)>,
    key: Seq<char>,
) -> Option<Seq<char>>
    decreases pairs.len(),
{
    if pairs.len() == 0 {
        None
    } else if pairs.last().0 != key {
        Some(pairs.last().1)
    } else {
        last_other_value(pairs.drop_last(), key)
    }
}

/// An optional text, with the empty text standing for absence.
pub open spec fn or_empty(v: Option<Seq<char>>) -> Seq<char> {
    match v {
        Some(s) => s,
        None => Seq::empty(),
    }
}

/// Scans query pairs for the last value under `key` (as query strings
/// repeat a key, the last occurrence wins).
pub fn find_last_value(pairs: &Vec<(String, String)>, key: &str) -> (r: Option<String>)
    ensures
        match r {
            Some(v) => last_value(pairs.deep_view(), key@) == Some(v@),
            None => last_value(pairs.deep_view(), key@) is None,
        },
{
    let k = key.to_owned();
    let n = pairs.len();
    let mut i: usize = 0;
    let mut found: Option<String> = None;
    while i < n
        invariant
            k@ == key@,
            n == pairs.deep_view().len(),
            0 <= i <= n,
            match found {
                Some(v) => last_value(pairs.deep_view().take(i as int), key@) == Some(v@),
                None => last_value(pairs.deep_view().take(i as int), key@) is None,
            },
        decreases n - i,
    {
        proof {
            let dv = pairs.deep_view();
            assert(dv.take(i + 1).drop_last() =~= dv.take(i as int));
            assert(dv.take(i + 1).last() == dv[i as int]);
            assert(dv[i as int] == (pairs@[i as int].0@, pairs@[i as int].1@));
        }
        if pairs[i].0 == k {
            found = Some(pairs[i].1.clone());
        }
        i = i + 1;
    }
    proof {
        assert(pairs.deep_view().take(n as int) =~= pairs.deep_view());
    }
    found
}

/// Scans query pairs for the last value under any key other than `key`.
pub fn find_last_other_value(pairs: &Vec<(String, String)>, key: &str) -> (r: Option<String>)
    ensures
        match r {
            Some(v) => last_other_value(pairs.deep_view(), key@) == Some(v@),
            None => last_other_value(pairs.deep_view(), key@) is None,
        },
{
    let k = key.to_owned();
    let n = pairs.len();
    let mut i: usize = 0;
    let mut found: Option<String> = None;
    while i < n
        invariant
            k@ == key@,
            n == pairs.deep_view().len(),
            0 <= i <= n,
            match found {
                Some(v) => last_other_value(pairs.deep_view().take(i as int), key@) == Some(v@),
                None => last_other_value(pairs.deep_view().take(i as int), key@) is None,
            },
        decreases n - i,
    {
        proof {
            let dv = pairs.deep_view();
            assert(dv.take(i + 1).drop_last() =~= dv.take(i as int));
            assert(dv.take(i + 1).last() == dv[i as int]);
            assert(dv[i as int] == (pairs@[i as int].0@, pairs@[i as int].1@));
        }
        if !(pairs[i].0 == k) {
            found = Some(pairs[i].1.clone());
        }
        i = i + 1;
    }
    proof {
        assert(pairs.deep_view().take(n as int) =~= pairs.deep_view());
    }
    found
}

/// Parses an unsigned decimal number, as found in page links and in URL
/// query values. Returns `None` on the empty string, on any non-digit
/// character, and on values that do not fit in `u16`.
pub fn parse_u16(s: &str) -> (r: Option<u16>)
    ensures
        r matches Some(n) ==> dec_spec(s@) == Some(n as nat),
        r is None ==> dec_spec(s@) is None || dec_spec(s@).unwrap() > u16::MAX,
{
    let len = s.unicode_len();
    if len == 0 {
        return None;
    }
    let mut value: u32 = 0;
    let mut i: usize = 0;
    while i < len
        invariant
            0 < len == s@.len(),
            0 <= i <= len,
            dec_spec_prefix(s@, i as int) == Some(value as nat),
            value <= 0xFFFF,
        decreases len - i,
    {
        let c = s.get_char(i);
        if c < '0' || c > '9' {
            proof {
                lemma_dec_spec_bad_digit(s@, i as int);
            }
            return None;
        }
        let d: u32 = (c as u32) - ('0' as u32);
        let next: u32 = value * 10 + d;
        if next > 0xFFFF {
            proof {
                lemma_dec_spec_grows(s@, i as int);
            }
            return None;
        }
        proof {
            let t = s@.take(i + 1);
            if i == 0 {
                assert(t.len() == 1);
                assert(t[0] == s@[0]);
            } else {
                assert(t.drop_last() =~= s@.take(i as int));
                assert(t.last() == s@[i as int]);
            }
        }
        value = next;
        i = i + 1;
    }
    proof {
        assert(s@.take(len as int) =~= s@);
    }
    Some(value as u16)
}

/// The number denoted by a sequence of decimal digits, or `None` if the
/// sequence is empty or contains a non-digit.
pub open spec fn dec_spec(s: Seq<char>) -> Option<nat>
    decreases s.len(),
{
    if s.len() == 0 {
        None
    } else if s.len() == 1 {
        digit_spec(s[0])
    } else {
        match (dec_spec(s.drop_last()), digit_spec(s.last())) {
            (Some(hi), Some(lo)) => Some(hi * 10 + lo),
            _ => None,
        }
    }
}

/// The value of a single decimal digit character.
pub open spec fn digit_spec(c: char) -> Option<nat> {
    if '0' <= c <= '9' {
        Some((c as nat - '0' as nat) as nat)
    } else {
        None
    }
}

spec fn dec_spec_prefix(s: Seq<char>, i: int) -> Option<nat> {
    if i == 0 {
        Some(0)
    } else {
        dec_spec(s.take(i))
    }
}

proof fn lemma_dec_spec_bad_digit(s: Seq<char>, i: int)
    requires
        0 <= i < s.len(),
        digit_spec(s[i]) is None,
    ensures
        dec_spec(s) is None,
    decreases s.len(),
{
    if s.len() > 0 {
        if i == s.len() - 1 {
        } else {
            lemma_dec_spec_bad_digit(s.drop_last(), i);
        }
    }
}

proof fn lemma_dec_spec_grows(s: Seq<char>, i: int)
    requires
        0 <= i < s.len(),
        dec_spec_prefix(s, i) is Some,
        digit_spec(s[i]) is Some,
    ensures
        dec_spec(s) is Some ==> dec_spec(s).unwrap()
            >= dec_spec_prefix(s, i).unwrap() * 10 + digit_spec(s[i]).unwrap(),
    decreases s.len(),
{
    if s.len() == 0 {
    } else if i == s.len() - 1 {
        if i == 0 {
        } else {
            assert(s.take(i) =~= s.drop_last());
        }
    } else {
        lemma_dec_spec_step(s, i);
        assert(s.drop_last().take(i) =~= s.take(i));
        assert(s.drop_last()[i] == s[i]);
        lemma_dec_spec_grows(s.drop_last(), i);
    }
}

proof fn lemma_dec_spec_step(s: Seq<char>, i: int)
    requires
        0 <= i < s.len() - 1,
    ensures
        dec_spec(s) is Some ==> dec_spec(s.drop_last()) is Some
            && dec_spec(s).unwrap() >= dec_spec(s.drop_last()).unwrap(),
{
    if dec_spec(s) is Some {
    }
}

} // verus!
