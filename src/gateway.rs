use vstd::prelude::*;

verus! {

/// A space, tab, newline or carriage return.
pub open spec fn is_space(b: u8) -> bool {
    b == 32 || b == 9 || b == 10 || b == 13
}

/// The first index from `i` on that is not a space (or the end).
pub open spec fn skip_spaces(s: Seq<u8>, i: nat) -> nat
    decreases s.len() - i,
{
    if i < s.len() && is_space(s[i as int]) {
        skip_spaces(s, i + 1)
    } else {
        i
    }
}

/// The first index from `i` on that is a space (or the end).
pub open spec fn word_end(s: Seq<u8>, i: nat) -> nat
    decreases s.len() - i,
{
    if i < s.len() && !is_space(s[i as int]) {
        word_end(s, i + 1)
    } else {
        i
    }
}

/// The whole word `via` starts at `i`.
pub open spec fn via_at(s: Seq<u8>, i: int) -> bool {
    &&& 0 <= i
    &&& i + 3 <= s.len()
    &&& i == 0 || is_space(s[i - 1])
    &&& s[i] == 118u8 && s[i + 1] == 105u8 && s[i + 2] == 97u8
    &&& i + 3 == s.len() || is_space(s[i + 3])
}

/// The start of the last word `via` that begins before index `i`.
pub open spec fn last_via(s: Seq<u8>, i: nat) -> Option<nat>
    decreases i,
{
    if i == 0 {
        None
    } else if via_at(s, i - 1) {
        Some((i - 1) as nat)
    } else {
        last_via(s, (i - 1) as nat)
    }
}

/// Where the gateway stands in the output of `ip route show 0/0`: the word after
/// the last word `via`, as a start and end index.
pub open spec fn gateway_span_of(s: Seq<u8>) -> Option<(nat, nat)> {
    match last_via(s, s.len()) {
        Some(i) => {
            let k = skip_spaces(s, i + 3);
            if k < s.len() {
                Some((k, word_end(s, k)))
            } else {
                None
            }
        },
        None => None,
    }
}

fn space(b: u8) -> (r: bool)
    ensures
        r == is_space(b),
{
    b == 32 || b == 9 || b == 10 || b == 13
}

fn via_here(s: &[u8], i: usize) -> (r: bool)
    requires
        i < s@.len(),
    ensures
        r == via_at(s@, i as int),
{
    if s.len() - i < 3 {
        return false;
    }
    if i > 0 && !space(s[i - 1]) {
        return false;
    }
    if !(s[i] == 118 && s[i + 1] == 105 && s[i + 2] == 97) {
        return false;
    }
    i + 3 == s.len() || space(s[i + 3])
}

/// The start and end of the gateway's address in the output of
/// `ip route show 0/0`; `None` when no word follows a word `via`.
pub fn gateway_span(s: &[u8]) -> (r: Option<(usize, usize)>)
    ensures
        match gateway_span_of(s@) {
            Some((a, b)) => r == Some((a as usize, b as usize)) && a < b <= s@.len(),
            None => r is None,
        },
{
    let mut i: usize = s.len();
    while i > 0 && !via_here(s, i - 1)
        invariant
            i <= s@.len(),
            last_via(s@, i as nat) == last_via(s@, s@.len()),
        decreases i,
    {
        i = i - 1;
    }
    if i == 0 {
        return None;
    }
    let mut k: usize = i + 2;
    while k < s.len() && space(s[k])
        invariant
            i + 2 <= k <= s@.len(),
            skip_spaces(s@, k as nat) == skip_spaces(s@, (i + 2) as nat),
        decreases s@.len() - k,
    {
        k = k + 1;
    }
    if k == s.len() {
        return None;
    }
    let mut e: usize = k;
    while e < s.len() && !space(s[e])
        invariant
            k <= e <= s@.len(),
            word_end(s@, e as nat) == word_end(s@, k as nat),
        decreases s@.len() - e,
    {
        e = e + 1;
    }
    assert(e > k) by {
        assert(!is_space(s@[k as int]));
    }
    Some((k, e))
}

} // verus!
