use vstd::prelude::*;

verus! {

/// Mask folded into every code point of a credential before it is stored.
pub const DIGEST_MASK: u32 = 0xA5C3_96E7;

/// The stored form of a credential: each character's code point combined
/// with a fixed mask. The store keeps only this form, never the plain
/// credential, and verification compares digests instead of reversing one.
/// The transform is deterministic and equality-faithful
/// (`lemma_digest_injective`); cryptographic strength is outside this
/// library's scope.
pub open spec fn digest_of(s: Seq<char>) -> Seq<u32> {
    Seq::new(s.len(), |i: int| (s[i] as u32) ^ DIGEST_MASK)
}

/// Computes the stored digest of a credential.
pub fn credential_digest(s: &str) -> (r: Vec<u32>)
    ensures
        r@ == digest_of(s@),
{
    let n = s.unicode_len();
    let mut out: Vec<u32> = Vec::new();
    let mut i: usize = 0;
    while i < n
        invariant
            n == s@.len(),
            i <= n,
            out@.len() == i,
            forall|j: int| 0 <= j < i ==> out@[j] == (s@[j] as u32) ^ DIGEST_MASK,
        decreases n - i,
    {
        let c = s.get_char(i);
        out.push((c as u32) ^ DIGEST_MASK);
        i = i + 1;
    }
    proof {
        assert(out@ =~= digest_of(s@));
    }
    out
}

/// Two credentials with the same digest are the same credential, so a
/// digest match during login implies the supplied password equals the
/// stored one.
pub proof fn lemma_digest_injective(a: Seq<char>, b: Seq<char>)
    requires
        digest_of(a) == digest_of(b),
    ensures
        a == b,
{
    assert(digest_of(a).len() == a.len());
    assert(digest_of(b).len() == b.len());
    assert(a.len() == b.len());
    assert forall|i: int| 0 <= i < a.len() implies a[i] == b[i] by {
        assert(digest_of(a)[i] == digest_of(b)[i]);
        let x = a[i] as u32;
        let y = b[i] as u32;
        assert(digest_of(a)[i] == x ^ DIGEST_MASK);
        assert(digest_of(b)[i] == y ^ DIGEST_MASK);
        assert(x ^ DIGEST_MASK == y ^ DIGEST_MASK);
        assert((x ^ 0xA5C3_96E7u32 == y ^ 0xA5C3_96E7u32) ==> x == y) by (bit_vector);
        assert(x == y);
        vstd::utf8::char_u32_cast(a[i], x);
        vstd::utf8::char_u32_cast(b[i], y);
    }
    assert(a =~= b);
}

} // verus!
