//! The synthetic transaction hash built from the relay's transaction
//! identifier: hyphens stripped, left-padded with ASCII zeros to 64
//! hexadecimal digits. The value is hash-shaped so callers can poll with the
//! usual pending-transaction semantics; it is not a real chain transaction
//! hash.

use vstd::prelude::*;

verus! {

/// ASCII code of the hyphen separating the groups of a textual identifier.
pub open spec fn hyphen() -> u8 {
    45
}

/// ASCII code of the digit zero, used for the left padding.
pub open spec fn zero_digit() -> u8 {
    48
}

/// Whether a byte is the ASCII code of a hexadecimal digit
/// (`0`-`9` is 48-57, `a`-`f` is 97-102, `A`-`F` is 65-70).
pub open spec fn is_hex_digit(b: u8) -> bool {
    (48 <= b && b <= 57) || (97 <= b && b <= 102) || (65 <= b && b <= 70)
}

/// Decides whether a byte is the ASCII code of a hexadecimal digit.
pub fn hex_digit(b: u8) -> (r: bool)
    ensures
        r == is_hex_digit(b),
{
    (48 <= b && b <= 57) || (97 <= b && b <= 102) || (65 <= b && b <= 70)
}

/// Whether every byte of `s` is a hexadecimal digit.
pub open spec fn all_hex_digits(s: Seq<u8>) -> bool {
    forall|i: int| 0 <= i < s.len() ==> is_hex_digit(#[trigger] s[i])
}

/// `s` with every hyphen removed, the other bytes kept in order.
pub open spec fn strip_hyphens(s: Seq<u8>) -> Seq<u8>
    decreases s.len(),
{
    if s.len() == 0 {
        Seq::empty()
    } else if s.last() == hyphen() {
        strip_hyphens(s.drop_last())
    } else {
        strip_hyphens(s.drop_last()).push(s.last())
    }
}

/// The number of hyphens in `s`.
pub open spec fn count_hyphens(s: Seq<u8>) -> int
    decreases s.len(),
{
    if s.len() == 0 {
        0
    } else {
        count_hyphens(s.drop_last()) + if s.last() == hyphen() {
            1int
        } else {
            0int
        }
    }
}

/// `s` left-padded with ASCII zeros to 64 bytes.
pub open spec fn zero_pad64(s: Seq<u8>) -> Seq<u8>
    recommends
        s.len() <= 64,
{
    Seq::new((64 - s.len()) as nat, |i: int| zero_digit()) + s
}

/// The synthetic transaction hash for a relay identifier: the identifier's
/// hexadecimal digits with hyphens stripped, left-padded with zeros to 64
/// digits; nothing where the stripped digits are more than 64 or are not all
/// hexadecimal.
pub open spec fn hash_of_id(id: Seq<u8>) -> Option<Seq<u8>> {
    let t = strip_hyphens(id);
    if t.len() <= 64 && all_hex_digits(t) {
        Some(zero_pad64(t))
    } else {
        None
    }
}

/// Builds the synthetic transaction hash for the identifier bytes `id`, or
/// returns nothing where the identifier is not hash-shaped.
pub fn transform_transaction_id(id: &Vec<u8>) -> (r: Option<Vec<u8>>)
    ensures
        match r {
            Some(h) => hash_of_id(id@) == Some(h@),
            None => hash_of_id(id@) is None,
        },
{
    let mut stripped: Vec<u8> = Vec::new();
    let mut i: usize = 0;
    while i < id.len()
        invariant
            i <= id.len(),
            stripped@ == strip_hyphens(id@.take(i as int)),
        decreases id.len() - i,
    {
        let b = id[i];
        if b != 45 {
            stripped.push(b);
        }
        proof {
            assert(id@.take(i as int + 1).drop_last() =~= id@.take(i as int));
            assert(id@.take(i as int + 1).last() == id@[i as int]);
        }
        i += 1;
    }
    proof {
        assert(id@.take(id.len() as int) =~= id@);
    }
    if stripped.len() > 64 {
        return None;
    }
    let mut j: usize = 0;
    while j < stripped.len()
        invariant
            j <= stripped.len(),
            stripped@ == strip_hyphens(id@),
            stripped@.len() <= 64,
            forall|k: int| 0 <= k < j ==> is_hex_digit(#[trigger] stripped@[k]),
        decreases stripped.len() - j,
    {
        if !hex_digit(stripped[j]) {
            return None;
        }
        j += 1;
    }
    let mut out: Vec<u8> = Vec::new();
    let pad = 64 - stripped.len();
    while out.len() < pad
        invariant
            pad == 64 - stripped@.len(),
            out@.len() <= pad,
            out@ =~= Seq::new(out@.len(), |i: int| zero_digit()),
        decreases pad - out.len(),
    {
        out.push(48);
        proof {
            assert(out@ =~= Seq::new(out@.len(), |i: int| zero_digit()));
        }
    }
    let mut j: usize = 0;
    while j < stripped.len()
        invariant
            j <= stripped.len(),
            pad == 64 - stripped@.len(),
            out@ =~= Seq::new(pad as nat, |i: int| zero_digit()) + stripped@.take(j as int),
        decreases stripped.len() - j,
    {
        out.push(stripped[j]);
        j += 1;
        proof {
            assert(out@ =~= Seq::new(pad as nat, |i: int| zero_digit()) + stripped@.take(
                j as int,
            ));
        }
    }
    proof {
        assert(stripped@.take(stripped@.len() as int) =~= stripped@);
        assert(out@ =~= zero_pad64(strip_hyphens(id@)));
    }
    Some(out)
}

/// Every byte of a stripped sequence is a non-hyphen byte of the source, so
/// stripping keeps hexadecimal digits hexadecimal; and stripping removes
/// exactly the hyphens.
proof fn lemma_strip_hyphens_facts(s: Seq<u8>)
    requires
        forall|i: int| 0 <= i < s.len() && s[i] != hyphen() ==> is_hex_digit(#[trigger] s[i]),
    ensures
        all_hex_digits(strip_hyphens(s)),
        strip_hyphens(s).len() + count_hyphens(s) == s.len(),
    decreases s.len(),
{
    if s.len() > 0 {
        lemma_strip_hyphens_facts(s.drop_last());
    }
}

/// Whether `u` is shaped like a hyphenated textual UUID: 36 bytes, hyphens
/// exactly at positions 8, 13, 18 and 23, hexadecimal digits everywhere else.
pub open spec fn is_uuid_shaped(u: Seq<u8>) -> bool {
    &&& u.len() == 36
    &&& forall|i: int|
        0 <= i < 36 ==> (if i == 8 || i == 13 || i == 18 || i == 23 {
            #[trigger] u[i] == hyphen()
        } else {
            is_hex_digit(u[i])
        })
}

/// A UUID-shaped identifier has exactly four hyphens among its first `n`
/// positions counted off against the fixed hyphen positions.
proof fn lemma_uuid_hyphen_count(u: Seq<u8>, n: int)
    requires
        is_uuid_shaped(u),
        0 <= n <= 36,
    ensures
        count_hyphens(u.take(n)) == (if n <= 8 {
            0int
        } else if n <= 13 {
            1int
        } else if n <= 18 {
            2int
        } else if n <= 23 {
            3int
        } else {
            4int
        }),
    decreases n,
{
    if n > 0 {
        lemma_uuid_hyphen_count(u, n - 1);
        assert(u.take(n).drop_last() =~= u.take(n - 1));
        assert(u.take(n).last() == u[n - 1]);
    }
}

/// Identifier transform shape: for a hyphenated UUID identifier the transform
/// succeeds and yields exactly 64 hexadecimal digits, the first 32 of them
/// ASCII zeros and the last 32 the UUID's own digits with the hyphens removed,
/// in order.
pub proof fn lemma_uuid_hash_shape(u: Seq<u8>)
    requires
        is_uuid_shaped(u),
    ensures
        hash_of_id(u) matches Some(h) && {
            &&& h.len() == 64
            &&& all_hex_digits(h)
            &&& forall|i: int| 0 <= i < 32 ==> #[trigger] h[i] == zero_digit()
            &&& h.subrange(32, 64) =~= strip_hyphens(u)
            &&& strip_hyphens(u).len() == 32
        },
{
    lemma_strip_hyphens_facts(u);
    assert(u.take(36) =~= u);
    lemma_uuid_hyphen_count(u, 36);
    let t = strip_hyphens(u);
    assert(t.len() == 32);
    let h = zero_pad64(t);
    assert(h.subrange(32, 64) =~= t);
    assert(forall|i: int| 0 <= i < 64 ==> is_hex_digit(#[trigger] h[i])) by {
        assert(forall|i: int| 0 <= i < 32 ==> #[trigger] h[i] == zero_digit());
        assert(forall|i: int| 32 <= i < 64 ==> #[trigger] h[i] == t[i - 32]);
    }
}

} // verus!
