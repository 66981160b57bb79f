//! Clipboard bridge, decision side: whether a piece of text can be
//! handed to the host clipboard at all. The host API takes a
//! NUL-terminated string, so text with an embedded NUL byte cannot be
//! encoded and is silently dropped by the host layer.

use vstd::prelude::*;

verus! {

/// Text can be encoded for the host clipboard exactly when it has no
/// embedded NUL byte.
pub open spec fn host_encodable(text: Seq<u8>) -> bool {
    forall|i: int| 0 <= i < text.len() ==> text[i] != 0
}

/// Decides [`host_encodable`]: scans the text for an embedded NUL.
pub fn text_is_host_encodable(text: &[u8]) -> (ok: bool)
    ensures
        ok == host_encodable(text@),
{
    let n = text.len();
    let mut i: usize = 0;
    while i < n
        invariant
            i <= n,
            n == text@.len(),
            forall|j: int| 0 <= j < i ==> text@[j] != 0,
        decreases n - i,
    {
        if text[i] == 0 {
            return false;
        }
        i += 1;
    }
    true
}

} // verus!
