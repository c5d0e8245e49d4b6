//! Derivation of the rendezvous token from a semaphore name.
//!
//! The token is a file name made of the name's ASCII alphanumeric characters
//! followed by `-` and the decimal salted hash of the whole name. Identical
//! names always derive identical tokens; names whose salted hashes differ
//! always derive different tokens. The token file itself is pure rendezvous
//! state: its path is fed to the host's key-derivation facility, its contents
//! are never read or written.

use vstd::prelude::*;

use crate::hashing::hash_name;
use crate::hashing::salted_hash;

verus! {

/// A character the sanitizer keeps: ASCII alphanumeric.
pub open spec fn is_token_char(c: char) -> bool {
    (48 <= c as u32 && c as u32 <= 57) || (65 <= c as u32 && c as u32 <= 90) || (97 <= c as u32
        && c as u32 <= 122)
}

/// The filesystem-safe fragment of a name: its ASCII alphanumeric
/// characters in order; everything else is dropped, not escaped.
pub open spec fn fragment_of(s: Seq<char>) -> Seq<char>
    decreases s.len(),
{
    if s.len() == 0 {
        Seq::empty()
    } else if is_token_char(s.last()) {
        fragment_of(s.drop_last()).push(s.last())
    } else {
        fragment_of(s.drop_last())
    }
}

/// The digit character for one decimal digit.
pub open spec fn digit_char(d: nat) -> char
    recommends
        d < 10,
{
    ((48 + d) as u8) as char
}

/// The decimal digits of `n`, most significant first, no leading zeros.
pub open spec fn dec_chars(n: nat) -> Seq<char>
    decreases n,
{
    if n < 10 {
        seq![digit_char(n)]
    } else {
        dec_chars(n / 10).push(digit_char(n % 10))
    }
}

/// The rendezvous token's file name for `name`:
/// the sanitized fragment, a dash, and the decimal salted hash.
pub open spec fn spec_token_file_name(name: Seq<char>) -> Seq<char> {
    fragment_of(name) + seq!['-'] + dec_chars(salted_hash(name) as nat)
}

/// The directory under the system temporary directory that holds every
/// token file this library ever creates.
pub open spec fn spec_namespace_dir() -> Seq<char> {
    "ipc-rs-sems"@
}

/// The full token path for `name` under the given temporary directory.
pub open spec fn spec_rendezvous_path(temp_dir: Seq<char>, name: Seq<char>) -> Seq<char> {
    temp_dir + "/"@ + spec_namespace_dir() + "/"@ + spec_token_file_name(name)
}

/// The namespace directory name as a string slice.
pub fn namespace_dir() -> (s: &'static str)
    ensures
        s@ == spec_namespace_dir(),
{
    "ipc-rs-sems"
}

/// The sanitized fragment of `name`, one character at a time.
pub fn fragment(name: &str) -> (r: Vec<char>)
    ensures
        r@ == fragment_of(name@),
{
    let n = name.unicode_len();
    let mut out: Vec<char> = Vec::new();
    let mut i: usize = 0;
    proof {
        assert(name@.take(0) =~= Seq::<char>::empty());
    }
    while i < n
        invariant
            n == name@.len(),
            i <= n,
            out@ == fragment_of(name@.take(i as int)),
        decreases n - i,
    {
        let c = name.get_char(i);
        let u: u32 = c as u32;
        proof {
            assert(name@.take(i + 1).drop_last() =~= name@.take(i as int));
            assert(name@.take(i + 1).last() == name@[i as int]);
        }
        if (48 <= u && u <= 57) || (65 <= u && u <= 90) || (97 <= u && u <= 122) {
            out.push(c);
        }
        i = i + 1;
    }
    proof {
        assert(name@.take(n as int) =~= name@);
    }
    out
}

/// Append the decimal digits of `n` to `out`, most significant first.
fn push_decimal(n: u64, out: &mut Vec<char>)
    ensures
        final(out)@ == old(out)@ + dec_chars(n as nat),
    decreases n,
{
    if n < 10 {
        out.push((48 + n as u8) as char);
        proof {
            assert(final(out)@ =~= old(out)@ + dec_chars(n as nat));
        }
    } else {
        push_decimal(n / 10, out);
        out.push((48 + (n % 10) as u8) as char);
        proof {
            assert(final(out)@ =~= old(out)@ + dec_chars(n as nat));
        }
    }
}

/// The decimal digits of `n` as characters, most significant first.
pub fn decimal_chars(n: u64) -> (r: Vec<char>)
    ensures
        r@ == dec_chars(n as nat),
{
    let mut v: Vec<char> = Vec::new();
    push_decimal(n, &mut v);
    proof {
        assert(v@ =~= dec_chars(n as nat));
    }
    v
}

/// Relies on `String`'s `FromIterator<char>` impl: collecting characters
/// yields a string whose character sequence is exactly the collected one.
#[verifier::external_body]
fn chars_to_string(v: &Vec<char>) -> (r: String)
    ensures
        r@ == v@,
{
    v.iter().collect()
}

/// The rendezvous token's file name for `name`.
pub fn token_file_name(name: &str) -> (r: String)
    ensures
        r@ == spec_token_file_name(name@),
{
    let mut v = fragment(name);
    v.push('-');
    let h = hash_name(name);
    push_decimal(h, &mut v);
    proof {
        assert(v@ =~= spec_token_file_name(name@));
    }
    chars_to_string(&v)
}

/// A character kept in the handle-backend object name: everything except a
/// backslash, which the host forbids inside an object name.
pub open spec fn is_object_char(c: char) -> bool {
    c != '\\'
}

/// A name with its backslashes dropped.
pub open spec fn object_fragment_of(s: Seq<char>) -> Seq<char>
    decreases s.len(),
{
    if s.len() == 0 {
        Seq::empty()
    } else if is_object_char(s.last()) {
        object_fragment_of(s.drop_last()).push(s.last())
    } else {
        object_fragment_of(s.drop_last())
    }
}

/// The namespaced kernel object name for the handle-based backend: the
/// global namespace prefix, the name without backslashes, a dash, and the
/// same decimal salted hash the token file name carries.
pub open spec fn spec_object_name(name: Seq<char>) -> Seq<char> {
    "Global\\"@ + object_fragment_of(name) + seq!['-'] + dec_chars(salted_hash(name) as nat)
}

/// The namespaced kernel object name for `name`.
pub fn object_name(name: &str) -> (r: String)
    ensures
        r@ == spec_object_name(name@),
{
    let n = name.unicode_len();
    let mut v: Vec<char> = Vec::new();
    let mut i: usize = 0;
    proof {
        assert(name@.take(0) =~= Seq::<char>::empty());
    }
    while i < n
        invariant
            n == name@.len(),
            i <= n,
            v@ == object_fragment_of(name@.take(i as int)),
        decreases n - i,
    {
        let c = name.get_char(i);
        proof {
            assert(name@.take(i + 1).drop_last() =~= name@.take(i as int));
            assert(name@.take(i + 1).last() == name@[i as int]);
        }
        if c != '\\' {
            v.push(c);
        }
        i = i + 1;
    }
    proof {
        assert(name@.take(n as int) =~= name@);
    }
    v.push('-');
    let h = hash_name(name);
    push_decimal(h, &mut v);
    let mut s = String::new();
    s.append("Global\\");
    let tail = chars_to_string(&v);
    s.append(tail.as_str());
    proof {
        assert(s@ =~= spec_object_name(name@));
    }
    s
}

/// Law: derivation is deterministic. The token file name, the full token
/// path and the object name are pure functions of the semaphore name, so
/// two derivations from the same name agree in every process.
pub proof fn lemma_derivation_deterministic(a: Seq<char>, b: Seq<char>)
    requires
        a == b,
    ensures
        salted_hash(a) == salted_hash(b),
        spec_token_file_name(a) == spec_token_file_name(b),
        spec_object_name(a) == spec_object_name(b),
        forall|t: Seq<char>| spec_rendezvous_path(t, a) == spec_rendezvous_path(t, b),
{
}

/// Every character of a sanitized fragment is a token character.
proof fn lemma_fragment_chars(s: Seq<char>)
    ensures
        forall|i: int|
            0 <= i < fragment_of(s).len() ==> is_token_char(#[trigger] fragment_of(s)[i]),
    decreases s.len(),
{
    if s.len() > 0 {
        lemma_fragment_chars(s.drop_last());
        let f = fragment_of(s);
        let fp = fragment_of(s.drop_last());
        if is_token_char(s.last()) {
            assert(f == fp.push(s.last()));
            assert forall|i: int| 0 <= i < f.len() implies is_token_char(f[i]) by {
                if i < fp.len() {
                    assert(f[i] == fp[i]);
                } else {
                    assert(f[i] == s.last());
                }
            }
        }
    }
}

/// Decimal digit sequences are nonempty and hold digit characters only.
proof fn lemma_dec_chars_digits(n: nat)
    ensures
        dec_chars(n).len() >= 1,
        forall|i: int|
            0 <= i < dec_chars(n).len() ==> 48 <= (#[trigger] dec_chars(n)[i]) as u32 <= 57,
    decreases n,
{
    if n < 10 {
        assert(digit_char(n) as u32 == 48 + n);
    } else {
        lemma_dec_chars_digits(n / 10);
        assert(digit_char(n % 10) as u32 == 48 + n % 10);
    }
}

/// The decimal rendering is injective: equal digit sequences come from
/// equal numbers.
proof fn lemma_dec_chars_injective(m: nat, n: nat)
    requires
        dec_chars(m) == dec_chars(n),
    ensures
        m == n,
    decreases m,
{
    lemma_dec_chars_digits(m);
    lemma_dec_chars_digits(n);
    if m < 10 && n < 10 {
        assert(dec_chars(m)[0] == dec_chars(n)[0]);
        assert(dec_chars(m)[0] == digit_char(m));
        assert(dec_chars(n)[0] == digit_char(n));
        assert(digit_char(m) == digit_char(n));
        assert(digit_char(m) as u32 == 48 + m);
        assert(digit_char(n) as u32 == 48 + n);
        assert(m == n);
    } else if m < 10 {
        lemma_dec_chars_digits(n / 10);
        assert(dec_chars(n) == dec_chars(n / 10).push(digit_char(n % 10)));
        assert(dec_chars(n).len() >= 2);
    } else if n < 10 {
        lemma_dec_chars_digits(m / 10);
        assert(dec_chars(m) == dec_chars(m / 10).push(digit_char(m % 10)));
        assert(dec_chars(m).len() >= 2);
    } else {
        assert(dec_chars(m) == dec_chars(m / 10).push(digit_char(m % 10)));
        assert(dec_chars(n) == dec_chars(n / 10).push(digit_char(n % 10)));
        assert(dec_chars(m).last() == digit_char(m % 10));
        assert(dec_chars(n).last() == digit_char(n % 10));
        assert(digit_char(m % 10) as u32 == 48 + m % 10);
        assert(digit_char(n % 10) as u32 == 48 + n % 10);
        assert(m % 10 == n % 10);
        assert(dec_chars(m).drop_last() =~= dec_chars(m / 10));
        assert(dec_chars(n).drop_last() =~= dec_chars(n / 10));
        lemma_dec_chars_injective(m / 10, n / 10);
        assert(m / 10 == n / 10);
        vstd::arithmetic::div_mod::lemma_fundamental_div_mod(m as int, 10);
        vstd::arithmetic::div_mod::lemma_fundamental_div_mod(n as int, 10);
        assert(m == 10 * (m / 10) + m % 10);
        assert(n == 10 * (n / 10) + n % 10);
        assert(m == n);
    }
}

/// Law: names whose salted hashes differ derive different token file
/// names. The fragment holds no dash and the digits hold none either, so
/// the token's single dash separates them unambiguously: a collision of
/// tokens would force a collision of the embedded decimal hashes.
pub proof fn lemma_distinct_hashes_distinct_tokens(a: Seq<char>, b: Seq<char>)
    requires
        salted_hash(a) != salted_hash(b),
    ensures
        spec_token_file_name(a) != spec_token_file_name(b),
{
    let fa = fragment_of(a);
    let fb = fragment_of(b);
    let da = dec_chars(salted_hash(a) as nat);
    let db = dec_chars(salted_hash(b) as nat);
    let ta = spec_token_file_name(a);
    let tb = spec_token_file_name(b);
    if ta == tb {
        lemma_fragment_chars(a);
        lemma_fragment_chars(b);
        lemma_dec_chars_digits(salted_hash(a) as nat);
        lemma_dec_chars_digits(salted_hash(b) as nat);
        assert(ta.len() == fa.len() + 1 + da.len());
        assert(tb.len() == fb.len() + 1 + db.len());
        assert('-' as u32 == 45);
        if fa.len() < fb.len() {
            assert(ta[fa.len() as int] == '-');
            assert(tb[fa.len() as int] == fb[fa.len() as int]);
            assert(is_token_char(fb[fa.len() as int]));
            assert(false);
        }
        if fb.len() < fa.len() {
            assert(tb[fb.len() as int] == '-');
            assert(ta[fb.len() as int] == fa[fb.len() as int]);
            assert(is_token_char(fa[fb.len() as int]));
            assert(false);
        }
        assert(fa.len() == fb.len());
        assert(da.len() == db.len());
        assert(da =~= db) by {
            assert forall|i: int| 0 <= i < da.len() implies da[i] == db[i] by {
                assert(ta[fa.len() + 1 + i] == da[i]);
                assert(tb[fb.len() + 1 + i] == db[i]);
            }
        }
        lemma_dec_chars_injective(salted_hash(a) as nat, salted_hash(b) as nat);
        assert(false);
    }
}

/// The rendezvous token path for `name` under `temp_dir`. The caller
/// supplies the system temporary directory; derivation itself never touches
/// the filesystem, so it cannot fail.
pub fn rendezvous_path(temp_dir: &str, name: &str) -> (r: String)
    ensures
        r@ == spec_rendezvous_path(temp_dir@, name@),
{
    let mut s = String::new();
    s.append(temp_dir);
    s.append("/");
    s.append(namespace_dir());
    s.append("/");
    let t = token_file_name(name);
    s.append(t.as_str());
    s
}

} // verus!
