//! Small shared helpers: identifier generation, default-value checks used
//! when encoding outbound payloads, and flatteners for batched lookups.

use vstd::prelude::*;
use vstd::string::StringExecFns;

verus! {

/// Relies on rand::random: a fresh pseudo-random number. Nothing can be
/// promised of its value.
#[verifier::external_body]
fn random_u32() -> (r: u32) {
    ::rand::random::<u32>()
}

#[verifier::external_type_specification]
#[verifier::external_body]
pub struct ExAnyhowError(anyhow::Error);

/// The character for one decimal digit.
pub open spec fn digit_char(d: nat) -> char {
    if d == 0 {
        '0'
    } else if d == 1 {
        '1'
    } else if d == 2 {
        '2'
    } else if d == 3 {
        '3'
    } else if d == 4 {
        '4'
    } else if d == 5 {
        '5'
    } else if d == 6 {
        '6'
    } else if d == 7 {
        '7'
    } else if d == 8 {
        '8'
    } else {
        '9'
    }
}

/// The decimal digits of a number, most significant first, with no leading
/// zero except for the number zero itself.
pub open spec fn dec_digits(n: nat) -> Seq<char>
    decreases n,
{
    if n < 10 {
        seq![digit_char(n)]
    } else {
        dec_digits(n / 10).push(digit_char(n % 10))
    }
}

/// The one-character string for a decimal digit.
fn digit_str(d: u32) -> (r: &'static str)
    requires
        d < 10,
    ensures
        r@ == seq![digit_char(d as nat)],
{
    proof {
        reveal_strlit("0");
        reveal_strlit("1");
        reveal_strlit("2");
        reveal_strlit("3");
        reveal_strlit("4");
        reveal_strlit("5");
        reveal_strlit("6");
        reveal_strlit("7");
        reveal_strlit("8");
        reveal_strlit("9");
    }
    if d == 0 {
        proof {
            assert("0"@ =~= seq![digit_char(d as nat)]);
        }
        "0"
    } else if d == 1 {
        proof {
            assert("1"@ =~= seq![digit_char(d as nat)]);
        }
        "1"
    } else if d == 2 {
        proof {
            assert("2"@ =~= seq![digit_char(d as nat)]);
        }
        "2"
    } else if d == 3 {
        proof {
            assert("3"@ =~= seq![digit_char(d as nat)]);
        }
        "3"
    } else if d == 4 {
        proof {
            assert("4"@ =~= seq![digit_char(d as nat)]);
        }
        "4"
    } else if d == 5 {
        proof {
            assert("5"@ =~= seq![digit_char(d as nat)]);
        }
        "5"
    } else if d == 6 {
        proof {
            assert("6"@ =~= seq![digit_char(d as nat)]);
        }
        "6"
    } else if d == 7 {
        proof {
            assert("7"@ =~= seq![digit_char(d as nat)]);
        }
        "7"
    } else if d == 8 {
        proof {
            assert("8"@ =~= seq![digit_char(d as nat)]);
        }
        "8"
    } else {
        proof {
            assert("9"@ =~= seq![digit_char(d as nat)]);
        }
        "9"
    }
}

/// Appends the decimal digits of a number to a string.
fn push_decimal(n: u32, out: &mut String)
    ensures
        final(out)@ == old(out)@ + dec_digits(n as nat),
    decreases n,
{
    let ghost start = out@;
    if n >= 10 {
        push_decimal(n / 10, out);
    }
    let d = n % 10;
    out.append(digit_str(d));
    proof {
        if n >= 10 {
            assert(dec_digits(n as nat) == dec_digits((n as nat) / 10).push(
                digit_char((n as nat) % 10),
            ));
            assert((n / 10) as nat == (n as nat) / 10);
            assert((n % 10) as nat == (n as nat) % 10);
            assert(out@ =~= start + dec_digits(n as nat));
        } else {
            assert(dec_digits(n as nat) == seq![digit_char(n as nat)]);
            assert(out@ =~= start + dec_digits(n as nat));
        }
    }
}

/// A freshly generated identifier: the decimal form of a random 32-bit
/// number.
pub fn rand() -> (r: String)
    ensures
        exists|n: u32| r@ == dec_digits(n as nat),
{
    let n = random_u32();
    let mut s = String::new();
    push_decimal(n, &mut s);
    proof {
        assert(s@ =~= dec_digits(n as nat));
    }
    s
}

/// True exactly when the flag is false; tells a caller whether a boolean
/// field still holds its default value and so need not be sent.
pub fn is_false(i: &bool) -> (r: bool)
    ensures
        r == !*i,
{
    !*i
}

/// True unless the option holds `true`; tells a caller whether an optional
/// flag still holds a default value and so need not be sent.
pub fn is_none_bool(i: &Option<bool>) -> (r: bool)
    ensures
        r == !(*i == Some(true)),
{
    !matches!(i, Some(true))
}

/// The values found behind `Ok(Some(..))`, in order; failures and misses
/// contribute nothing.
pub open spec fn flatten_spec<T>(s: Seq<Result<Option<T>, anyhow::Error>>) -> Seq<T>
    decreases s.len(),
{
    if s.len() == 0 {
        Seq::empty()
    } else {
        let rest = flatten_spec(s.drop_first());
        match s[0] {
            Ok(Some(v)) => seq![v] + rest,
            _ => rest,
        }
    }
}

/// Keeps the values of the lookups that succeeded and found something,
/// dropping failures and misses.
pub fn flatten<T>(input: Vec<Result<Option<T>, anyhow::Error>>) -> (r: Vec<T>)
    ensures
        r@ == flatten_spec(input@),
{
    let ghost orig = input@;
    let mut input = input;
    let mut out: Vec<T> = Vec::new();
    while input.len() > 0
        invariant
            flatten_spec(orig) == out@ + flatten_spec(input@),
        decreases input@.len(),
    {
        let ghost before = input@;
        let ghost out_before = out@;
        let x = input.remove(0);
        proof {
            assert(input@ =~= before.drop_first());
            assert(x == before[0]);
        }
        match x {
            Ok(Some(v)) => {
                out.push(v);
                proof {
                    assert(flatten_spec(before) == seq![out@.last()] + flatten_spec(
                        before.drop_first(),
                    ));
                    assert(out_before + flatten_spec(before) =~= out@ + flatten_spec(input@));
                }
            },
            _ => {
                proof {
                    assert(flatten_spec(before) == flatten_spec(before.drop_first()));
                }
            },
        }
    }
    proof {
        assert(flatten_spec(input@) == Seq::<T>::empty());
        assert(out@ + flatten_spec(input@) =~= out@);
    }
    out
}

/// The contents of the `Ok` vectors, concatenated in order; failures
/// contribute nothing.
pub open spec fn flatten_vec_spec<T>(s: Seq<Result<Vec<T>, anyhow::Error>>) -> Seq<T>
    decreases s.len(),
{
    if s.len() == 0 {
        Seq::empty()
    } else {
        let rest = flatten_vec_spec(s.drop_first());
        match s[0] {
            Ok(v) => v@ + rest,
            Err(_) => rest,
        }
    }
}

/// Concatenates the vectors of the lookups that succeeded, dropping
/// failures.
pub fn flatten_vec<T>(input: Vec<Result<Vec<T>, anyhow::Error>>) -> (r: Vec<T>)
    ensures
        r@ == flatten_vec_spec(input@),
{
    let ghost orig = input@;
    let mut input = input;
    let mut out: Vec<T> = Vec::new();
    while input.len() > 0
        invariant
            flatten_vec_spec(orig) == out@ + flatten_vec_spec(input@),
        decreases input@.len(),
    {
        let ghost before = input@;
        let ghost out_before = out@;
        let x = input.remove(0);
        proof {
            assert(input@ =~= before.drop_first());
            assert(x == before[0]);
        }
        match x {
            Ok(v) => {
                let ghost v0 = v@;
                let mut v = v;
                out.append(&mut v);
                proof {
                    assert(flatten_vec_spec(before) == v0 + flatten_vec_spec(
                        before.drop_first(),
                    ));
                    assert(out_before + flatten_vec_spec(before) =~= out@ + flatten_vec_spec(
                        input@,
                    ));
                }
            },
            Err(_) => {
                proof {
                    assert(flatten_vec_spec(before) == flatten_vec_spec(before.drop_first()));
                }
            },
        }
    }
    proof {
        assert(flatten_vec_spec(input@) == Seq::<T>::empty());
        assert(out@ + flatten_vec_spec(input@) =~= out@);
    }
    out
}

} // verus!
