//! A stable 64-bit hash of a semaphore name under a fixed namespace salt.
//!
//! Two processes that derive a key for the same name must obtain the same
//! value, in any process on any machine, so the hash is a pure function of
//! the characters alone: FNV-1a over the code points of the salt followed by
//! the code points of the name, each fed in as four bytes, low byte first.

use vstd::prelude::*;

verus! {

/// Offset basis of the 64-bit FNV-1a hash.
pub const HASH_OFFSET_BASIS: u64 = 0xcbf2_9ce4_8422_2325;

/// Multiplier of the 64-bit FNV-1a hash.
pub const HASH_PRIME: u64 = 0x100_0000_01b3;

/// One FNV-1a step: fold one byte into the running hash.
pub open spec fn mix_byte(h: u64, b: u8) -> u64 {
    vstd::wrapping::u64_specs::wrapping_mul(h ^ (b as u64), HASH_PRIME)
}

/// Fold one character into the running hash: its code point as four bytes,
/// low byte first.
pub open spec fn mix_char(h: u64, c: char) -> u64 {
    mix_byte(
        mix_byte(
            mix_byte(mix_byte(h, (c as u32 % 256) as u8), (c as u32 / 256 % 256) as u8),
            (c as u32 / 65536 % 256) as u8,
        ),
        (c as u32 / 16777216 % 256) as u8,
    )
}

/// The hash of a whole character sequence folded onto a running hash `h`.
pub open spec fn hash_chars(s: Seq<char>, h: u64) -> u64
    decreases s.len(),
{
    if s.len() == 0 {
        h
    } else {
        hash_chars(s.drop_first(), mix_char(h, s[0]))
    }
}

/// The fixed namespace salt. It isolates this library's semaphores from
/// unrelated software that names kernel objects under the same temporary
/// directory; changing it breaks interoperation with every earlier build.
pub open spec fn spec_salt() -> Seq<char> {
    "ipc-rs"@
}

/// The salt as a string slice.
pub fn salt() -> (s: &'static str)
    ensures
        s@ == spec_salt(),
{
    "ipc-rs"
}

/// The stable hash of a name: the salt folded in first, then the name.
pub open spec fn salted_hash(name: Seq<char>) -> u64 {
    hash_chars(name, hash_chars(spec_salt(), HASH_OFFSET_BASIS))
}

fn mix_char_exec(h: u64, c: char) -> (r: u64)
    ensures
        r == mix_char(h, c),
{
    let u: u32 = c as u32;
    let b0: u8 = (u % 256) as u8;
    let b1: u8 = (u / 256 % 256) as u8;
    let b2: u8 = (u / 65536 % 256) as u8;
    let b3: u8 = (u / 16777216 % 256) as u8;
    let h0: u64 = (h ^ (b0 as u64)).wrapping_mul(HASH_PRIME);
    let h1: u64 = (h0 ^ (b1 as u64)).wrapping_mul(HASH_PRIME);
    let h2: u64 = (h1 ^ (b2 as u64)).wrapping_mul(HASH_PRIME);
    let h3: u64 = (h2 ^ (b3 as u64)).wrapping_mul(HASH_PRIME);
    h3
}

proof fn lemma_hash_chars_step(s: Seq<char>, i: int, h: u64)
    requires
        0 <= i < s.len(),
    ensures
        hash_chars(s.skip(i), h) == hash_chars(s.skip(i + 1), mix_char(h, s[i])),
{
    assert(s.skip(i).drop_first() =~= s.skip(i + 1));
    assert(s.skip(i)[0] == s[i]);
}

/// Fold every character of `s` onto the running hash `h0`, in order.
pub fn hash_str_onto(s: &str, h0: u64) -> (r: u64)
    ensures
        r == hash_chars(s@, h0),
{
    let n = s.unicode_len();
    let mut h = h0;
    let mut i: usize = 0;
    proof {
        assert(s@.skip(0) =~= s@);
    }
    while i < n
        invariant
            n == s@.len(),
            i <= n,
            hash_chars(s@, h0) == hash_chars(s@.skip(i as int), h),
        decreases n - i,
    {
        let c = s.get_char(i);
        proof {
            lemma_hash_chars_step(s@, i as int, h);
        }
        h = mix_char_exec(h, c);
        i = i + 1;
    }
    proof {
        assert(s@.skip(n as int) =~= Seq::<char>::empty());
    }
    h
}

/// The stable salted hash of `name`, as the kernel-key derivation uses it.
pub fn hash_name(name: &str) -> (r: u64)
    ensures
        r == salted_hash(name@),
{
    let base = hash_str_onto(salt(), HASH_OFFSET_BASIS);
    hash_str_onto(name, base)
}

} // verus!
