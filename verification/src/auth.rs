//! Deriving secret keys and granting access.
use crate::error::S3Failure;
use vstd::prelude::*;

verus! {

/// `s` read back to front.
pub open spec fn reversed(s: Seq<char>) -> Seq<char> {
    Seq::new(s.len(), |i: int| s[s.len() - 1 - i])
}

/// The secret key that belongs to an access key: the access key reversed.
pub open spec fn secret_for(access_key: Seq<char>) -> Seq<char> {
    reversed(access_key)
}

/// The characters of `s` in reverse order.
pub fn reverse_chars(s: &str) -> (res: String)
    ensures
        res@ == reversed(s@),
        res@.len() == s@.len(),
        forall|i: int| 0 <= i < s@.len() ==> #[trigger] res@[i] == s@[s@.len() - 1 - i],
{
    let n = s.unicode_len();
    let mut out = String::new();
    let mut i = n;
    while i > 0
        invariant
            n == s@.len(),
            i <= n,
            out@ == reversed(s@.subrange(i as int, n as int)),
        decreases i,
    {
        i = i - 1;
        let c = s.substring_char(i, i + 1);
        out.append(c);
        assert(out@ =~= reversed(s@.subrange(i as int, n as int)));
    }
    assert(s@.subrange(0, n as int) =~= s@);
    out
}

/// Reversing a key twice gives it back: the secret of a secret key is the
/// access key it came from.
pub proof fn lemma_secret_key_involutive(access_key: Seq<char>)
    ensures
        secret_for(secret_for(access_key)) == access_key,
        secret_for(access_key).len() == access_key.len(),
{
    assert(secret_for(secret_for(access_key)) =~= access_key);
}

/// The secret of an access key is the key read back to front: it has the same
/// length, and its character at position `i` is the key's character at
/// position `len - 1 - i`, for every key of any length.
pub proof fn lemma_secret_is_access_key_reversed(access_key: Seq<char>)
    ensures
        secret_for(access_key).len() == access_key.len(),
        forall|i: int|
            0 <= i < access_key.len() ==> #[trigger] secret_for(access_key)[i] == access_key[access_key.len() - 1 - i],
{
}

/// The authentication backend that accepts every request.
pub struct AuthBackend {}

impl AuthBackend {
    /// The secret key of `access_key`: for now the access key reversed.
    pub fn get_secret_key(&self, access_key: &str) -> (res: Result<String, S3Failure>)
        ensures
            res is Ok,
            res->Ok_0@ == secret_for(access_key@),
            res->Ok_0@.len() == access_key@.len(),
            forall|i: int| 0 <= i < access_key@.len() ==> #[trigger] res->Ok_0@[i] == access_key@[access_key@.len() - 1 - i],
    {
        Ok(reverse_chars(access_key))
    }

    /// Every request is allowed.
    pub fn check_access(&self) -> (res: Result<(), S3Failure>)
        ensures
            res is Ok,
    {
        Ok(())
    }
}

} // verus!
