//! The written form of handles and of identity-token addresses.

use vstd::prelude::*;

verus! {

/// The character every handle starts with.
pub const HANDLE_SENTINEL: char = '@';

/// Whether `c` may follow the sentinel in a handle: a lowercase ASCII letter or
/// an ASCII digit.
pub open spec fn is_handle_char(c: char) -> bool {
    ('a' <= c && c <= 'z') || ('0' <= c && c <= '9')
}

/// Whether `s` is a handle: the sentinel, then one or more handle characters.
pub open spec fn is_valid_handle(s: Seq<char>) -> bool {
    &&& s.len() >= 2
    &&& s[0] == HANDLE_SENTINEL
    &&& forall|i: int| 1 <= i < s.len() ==> is_handle_char(#[trigger] s[i])
}

/// The four characters an identity token's address has to end with.
pub open spec fn vanity_suffix() -> Seq<char> {
    seq!['N', 'E', 'B', 'U']
}

/// Whether `s` ends with `suffix`.
pub open spec fn ends_with(s: Seq<char>, suffix: Seq<char>) -> bool {
    s.len() >= suffix.len() && s.subrange(s.len() - suffix.len(), s.len() as int) == suffix
}

/// Whether an address, in its written form, carries the vanity suffix.
pub open spec fn has_vanity_suffix(address: Seq<char>) -> bool {
    ends_with(address, vanity_suffix())
}

fn handle_char(c: char) -> (r: bool)
    ensures
        r == is_handle_char(c),
{
    (c >= 'a' && c <= 'z') || (c >= '0' && c <= '9')
}

/// Decides whether `handle` has the form of a handle.
pub fn check_handle_format(handle: &str) -> (ok: bool)
    ensures
        ok == is_valid_handle(handle@),
{
    let n: usize = handle.unicode_len();
    if n < 2 {
        return false;
    }
    if handle.get_char(0) != HANDLE_SENTINEL {
        return false;
    }
    let mut i: usize = 1;
    while i < n
        invariant
            1 <= i <= n,
            n == handle@.len(),
            forall|j: int| 1 <= j < i ==> is_handle_char(#[trigger] handle@[j]),
        decreases n - i,
    {
        if !handle_char(handle.get_char(i)) {
            return false;
        }
        i += 1;
    }
    true
}

/// Decides whether the written form of an address ends with the vanity suffix.
pub fn check_vanity_suffix(address: &str) -> (ok: bool)
    ensures
        ok == has_vanity_suffix(address@),
{
    let n: usize = address.unicode_len();
    if n < 4 {
        return false;
    }
    let ok = address.get_char(n - 4) == 'N' && address.get_char(n - 3) == 'E'
        && address.get_char(n - 2) == 'B' && address.get_char(n - 1) == 'U';
    proof {
        if ok {
            assert(address@.subrange(n - 4, n as int) =~= vanity_suffix());
        }
    }
    ok
}

} // verus!
