//! Validity of host-chain account identifiers.
//!
//! The host chain's account identifiers are 2 to 64 characters from a
//! fixed lowercase set.  The library models that invariant itself, so a
//! destination that could break the relay call's framing (a quote, a
//! backslash, anything outside the set) is refused before any
//! transaction is compiled for it.

use vstd::prelude::*;

use vstd::string::StrSliceExecFns;

verus! {

/// Whether `c` may appear in an account identifier: a lowercase letter,
/// a digit, `.`, `_` or `-`.
pub open spec fn valid_account_char(c: char) -> bool {
    ||| 'a' as u32 <= c as u32 && c as u32 <= 'z' as u32
    ||| '0' as u32 <= c as u32 && c as u32 <= '9' as u32
    ||| c as u32 == '.' as u32
    ||| c as u32 == '_' as u32
    ||| c as u32 == '-' as u32
}

/// Whether `s` is a well-formed account identifier: 2 to 64 characters,
/// all from the account character set.
pub open spec fn valid_account_id(s: Seq<char>) -> bool {
    &&& 2 <= s.len() <= 64
    &&& forall|i: int| 0 <= i < s.len() ==> valid_account_char(#[trigger] s[i])
}

/// Checks an account identifier against the host chain's character and
/// length rules.
pub fn is_valid_account_id(s: &str) -> (r: bool)
    ensures
        r == valid_account_id(s@),
{
    let n = s.unicode_len();
    if n < 2 || n > 64 {
        return false;
    }
    let mut i: usize = 0;
    while i < n
        invariant
            i <= n,
            n == s@.len(),
            2 <= n <= 64,
            forall|j: int| 0 <= j < i ==> valid_account_char(#[trigger] s@[j]),
        decreases n - i,
    {
        let u = s.get_char(i) as u32;
        let ok = (97 <= u && u <= 122) || (48 <= u && u <= 57) || u == 46 || u == 95 || u == 45;
        if !ok {
            return false;
        }
        i = i + 1;
    }
    true
}

} // verus!
