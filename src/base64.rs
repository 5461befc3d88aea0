use vstd::prelude::*;
use vstd::string::StringSliceAdditionalSpecFns;

verus! {

/// Whether a byte belongs to the standard base64 alphabet (`A-Z`, `a-z`, `0-9`, `+`, `/`).
pub open spec fn is_base64_digit(c: u8) -> bool {
    (65 <= c && c <= 90) || (97 <= c && c <= 122) || (48 <= c && c <= 57) || c == 43 || c == 47
}

/// Number of trailing `=` padding bytes (at most two).
pub open spec fn padding_len(b: Seq<u8>) -> int {
    if b.len() >= 2 && b[b.len() - 1] == 61u8 && b[b.len() - 2] == 61u8 {
        2
    } else if b.len() >= 1 && b[b.len() - 1] == 61u8 {
        1
    } else {
        0
    }
}

/// Syntactic base64: non-empty, a multiple of four long, alphabet bytes followed
/// by at most two `=`.
pub open spec fn is_base64(b: Seq<u8>) -> bool {
    &&& b.len() > 0
    &&& b.len() % 4 == 0
    &&& forall|i: int| 0 <= i < b.len() - padding_len(b) ==> is_base64_digit(#[trigger] b[i])
}

fn is_digit_byte(c: u8) -> (r: bool)
    ensures
        r == is_base64_digit(c),
{
    (65 <= c && c <= 90) || (97 <= c && c <= 122) || (48 <= c && c <= 57) || c == 43 || c == 47
}

/// Checks that `s` is syntactically valid, non-empty base64.
pub fn is_valid_base64(s: &str) -> (r: bool)
    ensures
        r == is_base64(s.spec_bytes()),
{
    let b = s.as_bytes();
    let n = b.len();
    if n == 0 || n % 4 != 0 {
        return false;
    }
    let pad: usize = if n >= 2 && b[n - 1] == 61u8 && b[n - 2] == 61u8 {
        2
    } else if b[n - 1] == 61u8 {
        1
    } else {
        0
    };
    assert(pad as int == padding_len(b@));
    let mut i: usize = 0;
    while i < n - pad
        invariant
            b@ == s.spec_bytes(),
            n == b@.len(),
            pad as int == padding_len(b@),
            pad <= n,
            i <= n - pad,
            forall|j: int| 0 <= j < i ==> is_base64_digit(#[trigger] b@[j]),
        decreases n - pad - i,
    {
        if !is_digit_byte(b[i]) {
            return false;
        }
        i = i + 1;
    }
    true
}

} // verus!
