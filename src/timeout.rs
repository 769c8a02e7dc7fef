//! Reading the requested delay from a request path, and clamping it.
use vstd::prelude::*;
use vstd::string::*;

verus! {

pub open spec fn is_digit(c: char) -> bool {
    '0' <= c && c <= '9'
}

/// A path of the accepted shape: `/` followed by zero or more decimal digits.
pub open spec fn path_shape(p: Seq<char>) -> bool {
    &&& p.len() >= 1
    &&& p[0] == '/'
    &&& forall|i: int| 1 <= i < p.len() ==> is_digit(#[trigger] p[i])
}

/// The number that a string of decimal digits denotes (`0` for no digits).
pub open spec fn digits_value(s: Seq<char>) -> nat
    decreases s.len(),
{
    if s.len() == 0 {
        0
    } else {
        digits_value(s.drop_last()) * 10 + (s.last() as nat - '0' as nat) as nat
    }
}

/// The delay a path of the accepted shape asks for: the value of its
/// digits, or `0` where that value does not fit in eight bits.
pub open spec fn requested_timeout(p: Seq<char>) -> u8 {
    let v = digits_value(p.subrange(1, p.len() as int));
    if v <= 255 {
        v as u8
    } else {
        0
    }
}

/// The delay actually waited: the request, but never above the ceiling.
pub open spec fn clamp_timeout(requested: u8, max_timeout: u8) -> u8 {
    if requested <= max_timeout {
        requested
    } else {
        max_timeout
    }
}

/// Appending a digit never makes the value smaller.
proof fn lemma_digits_value_push(s: Seq<char>, c: char)
    requires
        is_digit(c),
    ensures
        digits_value(s.push(c)) == digits_value(s) * 10 + (c as nat - '0' as nat),
        digits_value(s.push(c)) >= digits_value(s),
{
    assert(s.push(c).drop_last() =~= s);
}

/// Reads the delay that `path` asks for. `None` when the path is not `/`
/// followed by decimal digits only; a value above 255 reads as `0`.
pub fn parse_timeout_path(path: &str) -> (r: Option<u8>)
    ensures
        r == (if path_shape(path@) {
            Some(requested_timeout(path@))
        } else {
            None::<u8>
        }),
{
    let n = path.unicode_len();
    if n == 0 || path.get_char(0) != '/' {
        return None;
    }
    let ghost p = path@;
    let mut value: u16 = 0;
    let mut overflow = false;
    let mut i: usize = 1;
    while i < n
        invariant
            p == path@,
            n == p.len(),
            1 <= i <= n,
            p[0] == '/',
            forall|j: int| 1 <= j < i ==> is_digit(#[trigger] p[j]),
            overflow ==> digits_value(p.subrange(1, i as int)) > 255,
            !overflow ==> value as nat == digits_value(p.subrange(1, i as int)) && value <= 255,
        decreases n - i,
    {
        let c = path.get_char(i);
        if c < '0' || c > '9' {
            assert(!path_shape(p));
            return None;
        }
        proof {
            assert(p.subrange(1, i as int + 1) =~= p.subrange(1, i as int).push(c));
            lemma_digits_value_push(p.subrange(1, i as int), c);
        }
        if !overflow {
            let v: u16 = value * 10 + (c as u32 - '0' as u32) as u16;
            if v > 255 {
                overflow = true;
            } else {
                value = v;
            }
        }
        i = i + 1;
    }
    assert(p.subrange(1, n as int) =~= p.subrange(1, p.len() as int));
    if overflow {
        Some(0)
    } else {
        Some(value as u8)
    }
}

/// The delay to wait for a request of `requested` seconds under the ceiling
/// `max_timeout`: the smaller of the two.
pub fn effective_timeout(requested: u8, max_timeout: u8) -> (r: u8)
    ensures
        r == clamp_timeout(requested, max_timeout),
        r <= max_timeout,
        r <= requested,
{
    if requested > max_timeout {
        max_timeout
    } else {
        requested
    }
}

} // verus!
