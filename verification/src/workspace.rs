//! Derivation of the remote workspace path: a stable scratch directory name
//! computed from the canonical path of the local project root.
//!
//! The path is `~/remote-builds/<hash>/`, where `<hash>` is the decimal
//! rendering of a 64-bit FNV-1a digest of the root's canonical path (with
//! trailing slashes normalized away, so two spellings of one directory agree).
//! The same root therefore always maps to the same remote directory, and two
//! distinct roots collide only on a 64-bit hash collision — an accepted design
//! risk of the fixed hash width, not a correctness claim made here.

use crate::textfmt::{dec_digits, digit_char, u64_to_dec};
use vstd::prelude::*;

verus! {

pub const FNV_OFFSET_BASIS: u64 = 0xcbf29ce484222325;

pub const FNV_PRIME: u64 = 0x100000001b3;

/// One FNV-1a round: fold the byte `b` into the running state `h`.
pub open spec fn fnv1a_step(h: u64, b: u8) -> u64 {
    vstd::wrapping::u64_specs::wrapping_mul(h ^ (b as u64), FNV_PRIME)
}

/// The 64-bit FNV-1a digest of `bytes`.
pub open spec fn fnv1a_of(bytes: Seq<u8>) -> u64
    decreases bytes.len(),
{
    if bytes.len() == 0 {
        FNV_OFFSET_BASIS
    } else {
        fnv1a_step(fnv1a_of(bytes.drop_last()), bytes.last())
    }
}

/// Computes the 64-bit FNV-1a digest of `bytes`.
pub fn fnv1a(bytes: &Vec<u8>) -> (h: u64)
    ensures
        h == fnv1a_of(bytes@),
{
    let mut h: u64 = FNV_OFFSET_BASIS;
    let mut i: usize = 0;
    while i < bytes.len()
        invariant
            i <= bytes.len(),
            h == fnv1a_of(bytes@.take(i as int)),
        decreases bytes.len() - i,
    {
        proof {
            assert(bytes@.take(i + 1 as int).drop_last() =~= bytes@.take(i as int));
            assert(bytes@.take(i + 1 as int).last() == bytes@[i as int]);
        }
        h = (h ^ (bytes[i] as u64)).wrapping_mul(FNV_PRIME);
        i += 1;
    }
    proof {
        assert(bytes@.take(bytes.len() as int) =~= bytes@);
    }
    h
}

/// `s` with every trailing `'/'` removed.
pub open spec fn strip_trailing_slashes(s: Seq<char>) -> Seq<char>
    decreases s.len(),
{
    if s.len() > 0 && s.last() == '/' {
        strip_trailing_slashes(s.drop_last())
    } else {
        s
    }
}

/// Removes every trailing `'/'` from `path`.
pub fn normalize_root<'a>(path: &'a str) -> (r: &'a str)
    ensures
        r@ == strip_trailing_slashes(path@),
{
    let n = path.unicode_len();
    proof {
        assert(path@.subrange(0, n as int) =~= path@);
    }
    let mut k: usize = n;
    while k > 0 && path.get_char(k - 1) == '/'
        invariant
            k <= n,
            n == path@.len(),
            strip_trailing_slashes(path@.subrange(0, k as int)) == strip_trailing_slashes(path@),
        decreases k,
    {
        proof {
            assert(path@.subrange(0, k as int).drop_last() =~= path@.subrange(0, k - 1 as int));
            assert(path@.subrange(0, k as int).last() == path@[k - 1 as int]);
        }
        k = k - 1;
    }
    proof {
        assert(strip_trailing_slashes(path@.subrange(0, k as int)) == path@.subrange(
            0,
            k as int,
        ));
    }
    path.substring_char(0, k)
}

/// The digest that identifies the project root `root`: FNV-1a over the UTF-8
/// bytes of the root's canonical path, trailing slashes removed.
pub open spec fn workspace_hash(root: Seq<char>) -> u64 {
    fnv1a_of(vstd::utf8::encode_utf8(strip_trailing_slashes(root)))
}

/// The remote scratch directory for the project root `root`.
pub open spec fn workspace_path_spec(root: Seq<char>) -> Seq<char> {
    "~/remote-builds/"@ + dec_digits(workspace_hash(root) as nat) + "/"@
}

/// Derives the remote workspace path for a project whose canonical root path
/// is `project_root`: `~/remote-builds/<hash>/`.
pub fn workspace_path(project_root: &str) -> (p: String)
    ensures
        p@ == workspace_path_spec(project_root@),
{
    let stripped = normalize_root(project_root);
    let bytes = stripped.as_bytes_vec();
    let digits = u64_to_dec(fnv1a(&bytes));
    let mut p = String::from_str("~/remote-builds/");
    p.append(digits.as_str());
    p.append("/");
    p
}

/// Two spellings of one directory — with and without trailing slashes — are
/// given the same workspace path, so the derivation is stable across runs
/// however the root is written.
pub proof fn lemma_workspace_path_deterministic(r1: Seq<char>, r2: Seq<char>)
    requires
        strip_trailing_slashes(r1) == strip_trailing_slashes(r2),
    ensures
        workspace_path_spec(r1) == workspace_path_spec(r2),
{
}

proof fn lemma_dec_digits_len(n: nat)
    ensures
        dec_digits(n).len() >= 1,
        n >= 10 ==> dec_digits(n).len() >= 2,
    decreases n,
{
    if n >= 10 {
        lemma_dec_digits_len(n / 10);
    }
}

proof fn lemma_dec_digits_injective(a: nat, b: nat)
    requires
        a != b,
    ensures
        dec_digits(a) != dec_digits(b),
    decreases a + b,
{
    lemma_dec_digits_len(a);
    lemma_dec_digits_len(b);
    if a < 10 && b < 10 {
        assert(dec_digits(a) == seq![digit_char(a)]);
        assert(dec_digits(b) == seq![digit_char(b)]);
        assert(digit_char(a) != digit_char(b));
        assert(dec_digits(a)[0] != dec_digits(b)[0]);
    } else if a < 10 && b >= 10 {
        assert(dec_digits(a).len() < dec_digits(b).len());
    } else if a >= 10 && b < 10 {
        assert(dec_digits(a).len() > dec_digits(b).len());
    } else {
        if a % 10 != b % 10 {
            assert(dec_digits(a).last() == digit_char(a % 10));
            assert(dec_digits(b).last() == digit_char(b % 10));
            assert(digit_char(a % 10) != digit_char(b % 10));
            if dec_digits(a) == dec_digits(b) {
                assert(dec_digits(a).last() == dec_digits(b).last());
                assert(false);
            }
        } else {
            assert(a / 10 != b / 10) by {
                if a / 10 == b / 10 {
                    assert(a == (a / 10) * 10 + a % 10) by (nonlinear_arith);
                    assert(b == (b / 10) * 10 + b % 10) by (nonlinear_arith);
                    assert(false);
                }
            }
            lemma_dec_digits_injective(a / 10, b / 10);
            if dec_digits(a) == dec_digits(b) {
                assert(dec_digits(a) == dec_digits(a / 10) + seq![digit_char(a % 10)]);
                assert(dec_digits(b) == dec_digits(b / 10) + seq![digit_char(b % 10)]);
                assert((dec_digits(a / 10) + seq![digit_char(a % 10)]).drop_last()
                    =~= dec_digits(a / 10));
                assert((dec_digits(b / 10) + seq![digit_char(b % 10)]).drop_last()
                    =~= dec_digits(b / 10));
                assert(dec_digits(a).drop_last() == dec_digits(b).drop_last());
                assert(false);
            }
        }
    }
}

/// Distinct project roots receive distinct workspace paths whenever their
/// digests differ; only a 64-bit hash collision can make two roots share a
/// remote directory.
pub proof fn lemma_workspace_path_separates(r1: Seq<char>, r2: Seq<char>)
    requires
        workspace_hash(r1) != workspace_hash(r2),
    ensures
        workspace_path_spec(r1) != workspace_path_spec(r2),
{
    let pre = "~/remote-builds/"@;
    let suf = "/"@;
    let d1 = dec_digits(workspace_hash(r1) as nat);
    let d2 = dec_digits(workspace_hash(r2) as nat);
    lemma_dec_digits_injective(workspace_hash(r1) as nat, workspace_hash(r2) as nat);
    if workspace_path_spec(r1) == workspace_path_spec(r2) {
        assert((pre + d1 + suf).len() == (pre + d2 + suf).len());
        assert(d1.len() == d2.len());
        assert forall|i: int| 0 <= i < d1.len() implies d1[i] == d2[i] by {
            assert((pre + d1 + suf)[pre.len() + i] == d1[i]);
            assert((pre + d2 + suf)[pre.len() + i] == d2[i]);
        }
        assert(d1 =~= d2);
        assert(false);
    }
}

} // verus!
