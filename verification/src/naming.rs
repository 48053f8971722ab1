//! Canonical on-disk identity of a parameter artifact.
//!
//! The cache is keyed by file name alone, so the name derived from a
//! `(strategy, width)` pair must be deterministic and collision-free:
//! identical pairs always resolve to the identical name, and distinct pairs
//! never share one.  Both properties are proved here.

use vstd::prelude::*;
use vstd::string::StringExecFns;
use vstd::arithmetic::div_mod::lemma_fundamental_div_mod;
use crate::config::NovaImpl;

verus! {

/// The decimal digit character for `d`, for `d < 10`.
pub open spec fn digit_char_of(d: nat) -> char {
    if d == 0 {
        '0'
    } else if d == 1 {
        '1'
    } else if d == 2 {
        '2'
    } else if d == 3 {
        '3'
    } else if d == 4 {
        '4'
    } else if d == 5 {
        '5'
    } else if d == 6 {
        '6'
    } else if d == 7 {
        '7'
    } else if d == 8 {
        '8'
    } else {
        '9'
    }
}

/// Base-10 rendering of `n`: most significant digit first, no leading
/// zeros (zero itself renders as the single digit `0`).
pub open spec fn decimal_chars(n: nat) -> Seq<char>
    decreases n,
{
    if n < 10 {
        seq![digit_char_of(n)]
    } else {
        decimal_chars(n / 10).push(digit_char_of(n % 10))
    }
}

/// The tag that names a strategy inside a parameter file name.  All tags
/// have the same length and differ in their first character, which keeps
/// distinct strategies from ever colliding.
pub open spec fn variant_tag(nova_impl: NovaImpl) -> Seq<char> {
    match nova_impl {
        NovaImpl::Sequential => "seq-"@,
        NovaImpl::Parallel => "par-"@,
        NovaImpl::ParallelCompressible => "com-"@,
    }
}

/// The canonical file name of the parameter artifact for one
/// `(strategy, width)` pair.
pub open spec fn params_file_name(nova_impl: NovaImpl, k: nat) -> Seq<char> {
    "nexus-public-"@ + variant_tag(nova_impl) + decimal_chars(k) + ".zst"@
}

/// The single-character string holding the decimal digit for `d`.
fn digit_str(d: usize) -> (s: &'static str)
    requires
        d < 10,
    ensures
        s@ == seq![digit_char_of(d as nat)],
{
    if d == 0 {
        proof { reveal_strlit("0"); }
        "0"
    } else if d == 1 {
        proof { reveal_strlit("1"); }
        "1"
    } else if d == 2 {
        proof { reveal_strlit("2"); }
        "2"
    } else if d == 3 {
        proof { reveal_strlit("3"); }
        "3"
    } else if d == 4 {
        proof { reveal_strlit("4"); }
        "4"
    } else if d == 5 {
        proof { reveal_strlit("5"); }
        "5"
    } else if d == 6 {
        proof { reveal_strlit("6"); }
        "6"
    } else if d == 7 {
        proof { reveal_strlit("7"); }
        "7"
    } else if d == 8 {
        proof { reveal_strlit("8"); }
        "8"
    } else {
        proof { reveal_strlit("9"); }
        "9"
    }
}

/// Appends the decimal rendering of `n` to `out`.
fn push_decimal_chars(n: usize, out: &mut String)
    ensures
        final(out)@ == old(out)@ + decimal_chars(n as nat),
    decreases n,
{
    if n >= 10 {
        push_decimal_chars(n / 10, out);
    }
    let s = digit_str(n % 10);
    out.append(s);
    proof {
        assert(out@ =~= old(out)@ + decimal_chars(n as nat));
    }
}

/// Derives the canonical parameter file name for a strategy and width.
/// The result is a pure function of its arguments, so repeated derivations
/// for the same pair always agree.
pub fn format_params_file(nova_impl: NovaImpl, k: usize) -> (name: String)
    ensures
        name@ == params_file_name(nova_impl, k as nat),
{
    let mut name = String::from_str("nexus-public-");
    match nova_impl {
        NovaImpl::Sequential => name.append("seq-"),
        NovaImpl::Parallel => name.append("par-"),
        NovaImpl::ParallelCompressible => name.append("com-"),
    }
    push_decimal_chars(k, &mut name);
    name.append(".zst");
    proof {
        assert(name@ =~= params_file_name(nova_impl, k as nat));
    }
    name
}

/// Joins a file name under a directory with a single separator.
pub fn join_path(dir: &str, file: &str) -> (path: String)
    ensures
        path@ == dir@ + "/"@ + file@,
{
    let mut path = String::from_str(dir);
    path.append("/");
    path.append(file);
    proof {
        assert(path@ =~= dir@ + "/"@ + file@);
    }
    path
}

/// A decimal rendering is never empty.
proof fn lemma_decimal_chars_nonempty(n: nat)
    ensures
        decimal_chars(n).len() >= 1,
{
}

/// Distinct digits render as distinct characters.
proof fn lemma_digit_char_of_injective(x: nat, y: nat)
    requires
        x < 10,
        y < 10,
        digit_char_of(x) == digit_char_of(y),
    ensures
        x == y,
{
}

/// The decimal rendering is injective: equal renderings come from equal
/// numbers.
proof fn lemma_decimal_chars_injective(a: nat, b: nat)
    requires
        decimal_chars(a) == decimal_chars(b),
    ensures
        a == b,
    decreases a,
{
    let da = decimal_chars(a);
    let db = decimal_chars(b);
    if a < 10 && b < 10 {
        assert(da[0] == digit_char_of(a));
        assert(db[0] == digit_char_of(b));
        lemma_digit_char_of_injective(a, b);
    } else if a < 10 {
        lemma_decimal_chars_nonempty(b / 10);
        assert(da.len() == 1);
        assert(db.len() >= 2);
        assert(false);
    } else if b < 10 {
        lemma_decimal_chars_nonempty(a / 10);
        assert(db.len() == 1);
        assert(da.len() >= 2);
        assert(false);
    } else {
        assert(da.last() == digit_char_of(a % 10));
        assert(db.last() == digit_char_of(b % 10));
        lemma_digit_char_of_injective(a % 10, b % 10);
        assert(da.drop_last() =~= decimal_chars(a / 10));
        assert(db.drop_last() =~= decimal_chars(b / 10));
        lemma_decimal_chars_injective(a / 10, b / 10);
        lemma_fundamental_div_mod(a as int, 10);
        lemma_fundamental_div_mod(b as int, 10);
    }
}

/// Determinism of the naming scheme: any two file names derived for the
/// same strategy and width are the identical string.
pub proof fn lemma_params_file_name_deterministic(
    nova_impl: NovaImpl,
    k: nat,
    name1: Seq<char>,
    name2: Seq<char>,
)
    requires
        name1 == params_file_name(nova_impl, k),
        name2 == params_file_name(nova_impl, k),
    ensures
        name1 == name2,
{
}

/// Collision freedom of the naming scheme: distinct `(strategy, width)`
/// pairs always derive distinct file names.
pub proof fn lemma_params_file_name_injective(v1: NovaImpl, k1: nat, v2: NovaImpl, k2: nat)
    requires
        params_file_name(v1, k1) == params_file_name(v2, k2),
    ensures
        v1 == v2,
        k1 == k2,
{
    reveal_strlit("nexus-public-");
    reveal_strlit("seq-");
    reveal_strlit("par-");
    reveal_strlit("com-");
    reveal_strlit(".zst");
    let p = "nexus-public-"@;
    let t1 = variant_tag(v1);
    let t2 = variant_tag(v2);
    let d1 = decimal_chars(k1);
    let d2 = decimal_chars(k2);
    let n1 = params_file_name(v1, k1);
    let n2 = params_file_name(v2, k2);
    assert(p.len() == 13);
    assert(t1.len() == 4);
    assert(t2.len() == 4);
    assert(n1.len() == 17 + d1.len() + 4);
    assert(n2.len() == 17 + d2.len() + 4);
    assert(d1.len() == d2.len());
    assert(n1[13] == t1[0]);
    assert(n2[13] == t2[0]);
    assert(t1[0] == t2[0]);
    assert(v1 == v2);
    assert forall|i: int| 0 <= i < d1.len() implies d1[i] == d2[i] by {
        assert(n1[17 + i] == d1[i]);
        assert(n2[17 + i] == d2[i]);
    }
    assert(d1 =~= d2);
    lemma_decimal_chars_injective(k1, k2);
}

} // verus!
