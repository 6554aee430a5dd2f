//! Verified text utilities: string equality, the `@`-stripping applied to
//! user names, joining argument tokens, and decimal parsing/formatting.

use vstd::prelude::*;
use vstd::string::StrSliceExecFns;
use vstd::string::StringExecFns;

verus! {

/// Exact string comparison: true iff the two views are the same
/// character sequence.
pub fn str_eq(a: &str, b: &str) -> (r: bool)
    ensures
        r == (a@ == b@),
{
    let n = a.unicode_len();
    if n != b.unicode_len() {
        return false;
    }
    let mut i: usize = 0;
    while i < n
        invariant
            n == a@.len(),
            n == b@.len(),
            i <= n,
            forall|j: int| 0 <= j < i ==> a@[j] == b@[j],
        decreases n - i,
    {
        if a.get_char(i) != b.get_char(i) {
            return false;
        }
        i = i + 1;
    }
    proof {
        assert(a@ =~= b@);
    }
    true
}

/// The character sequence with every `'@'` removed.
pub open spec fn strip_at_spec(s: Seq<char>) -> Seq<char>
    decreases s.len(),
{
    if s.len() == 0 {
        Seq::empty()
    } else if s.last() == '@' {
        strip_at_spec(s.drop_last())
    } else {
        strip_at_spec(s.drop_last()).push(s.last())
    }
}

/// Removes every `'@'` from a string, as chat user names are often written
/// with a leading mention sigil.
pub fn strip_at(s: &str) -> (r: String)
    ensures
        r@ == strip_at_spec(s@),
{
    let n = s.unicode_len();
    let mut r = String::new();
    let mut i: usize = 0;
    while i < n
        invariant
            n == s@.len(),
            i <= n,
            r@ == strip_at_spec(s@.subrange(0, i as int)),
        decreases n - i,
    {
        let c = s.get_char(i);
        proof {
            assert(s@.subrange(0, i as int + 1).drop_last() =~= s@.subrange(0, i as int));
            assert(s@.subrange(0, i as int + 1).last() == s@[i as int]);
        }
        if c != '@' {
            let piece = s.substring_char(i, i + 1);
            r.append(piece);
            proof {
                assert(r@ =~= strip_at_spec(s@.subrange(0, i as int)).push(s@[i as int]));
            }
        }
        i = i + 1;
    }
    proof {
        assert(s@.subrange(0, n as int) =~= s@);
    }
    r
}

/// The argument tokens joined with a single space between each pair.
pub open spec fn join_spaces_spec(args: Seq<Seq<char>>) -> Seq<char>
    decreases args.len(),
{
    if args.len() == 0 {
        Seq::empty()
    } else if args.len() == 1 {
        args[0]
    } else {
        join_spaces_spec(args.drop_last()) + " "@ + args.last()
    }
}

/// Joins argument tokens with single spaces, e.g. to rebuild a location
/// name that was split on whitespace.
pub fn join_spaces(args: &Vec<String>) -> (r: String)
    requires
        args.len() >= 1,
    ensures
        r@ == join_spaces_spec(args.deep_view()),
{
    let mut r = String::from_str(args[0].as_str());
    let mut i: usize = 1;
    proof {
        assert(args.deep_view().subrange(0, 1) =~= seq![args.deep_view()[0]]);
    }
    while i < args.len()
        invariant
            1 <= i <= args.len(),
            args.deep_view().len() == args.len(),
            r@ == join_spaces_spec(args.deep_view().subrange(0, i as int)),
        decreases args.len() - i,
    {
        r.append(" ");
        r.append(args[i].as_str());
        proof {
            let d = args.deep_view();
            assert(d.subrange(0, i as int + 1).drop_last() =~= d.subrange(0, i as int));
            assert(d.subrange(0, i as int + 1).last() == d[i as int]);
        }
        i = i + 1;
    }
    proof {
        assert(args.deep_view().subrange(0, args.len() as int) =~= args.deep_view());
    }
    r
}

/// An ASCII decimal digit.
pub open spec fn is_dec_digit(c: char) -> bool {
    ('0' as u32) <= (c as u32) && (c as u32) <= ('9' as u32)
}

/// The numeric value of one decimal digit.
pub open spec fn digit_val(c: char) -> int {
    (c as u32) - ('0' as u32)
}

/// The digit character for a value below ten.
pub open spec fn digit_char(d: int) -> char {
    if d == 0 { '0' }
    else if d == 1 { '1' }
    else if d == 2 { '2' }
    else if d == 3 { '3' }
    else if d == 4 { '4' }
    else if d == 5 { '5' }
    else if d == 6 { '6' }
    else if d == 7 { '7' }
    else if d == 8 { '8' }
    else { '9' }
}

/// The decimal numeral of a non-negative number, most significant digit
/// first, with no leading zeros (`0` itself is `"0"`).
pub open spec fn dec_str(n: int) -> Seq<char>
    decreases n,
{
    if n < 10 {
        seq![digit_char(n)]
    } else {
        dec_str(n / 10).push(digit_char(n % 10))
    }
}

/// The value of a digit sequence read as a decimal numeral.
pub open spec fn dec_val(s: Seq<char>) -> int
    decreases s.len(),
{
    if s.len() == 0 {
        0
    } else {
        dec_val(s.drop_last()) * 10 + digit_val(s.last())
    }
}

/// Every character of the sequence is a decimal digit.
pub open spec fn all_dec_digits(s: Seq<char>) -> bool {
    forall|i: int| 0 <= i < s.len() ==> is_dec_digit(#[trigger] s[i])
}

/// What parsing a string as an unsigned decimal number yields: the value,
/// if the string is one or more digits and the value fits in a `u64`;
/// nothing otherwise.
pub open spec fn parse_u64_spec(s: Seq<char>) -> Option<u64> {
    if s.len() > 0 && all_dec_digits(s) && dec_val(s) <= u64::MAX {
        Some(dec_val(s) as u64)
    } else {
        None
    }
}

proof fn lemma_dec_val_nonneg(s: Seq<char>)
    requires
        all_dec_digits(s),
    ensures
        dec_val(s) >= 0,
    decreases s.len(),
{
    if s.len() > 0 {
        assert(all_dec_digits(s.drop_last())) by {
            assert(forall|i: int| 0 <= i < s.len() - 1 ==> s.drop_last()[i] == s[i]);
        }
        lemma_dec_val_nonneg(s.drop_last());
        assert(is_dec_digit(s.last()));
    }
}

proof fn lemma_dec_val_prefix(s: Seq<char>, i: int)
    requires
        all_dec_digits(s),
        0 <= i <= s.len(),
    ensures
        dec_val(s.subrange(0, i)) <= dec_val(s),
    decreases s.len() - i,
{
    if i == s.len() {
        assert(s.subrange(0, i) =~= s);
    } else {
        let p = s.subrange(0, i);
        let q = s.subrange(0, i + 1);
        assert(q.drop_last() =~= p);
        assert(q.last() == s[i]);
        assert(all_dec_digits(p)) by {
            assert(forall|j: int| 0 <= j < i ==> p[j] == s[j]);
        }
        lemma_dec_val_nonneg(p);
        assert(is_dec_digit(s[i]));
        assert(dec_val(p) <= dec_val(p) * 10 + digit_val(s[i])) by (nonlinear_arith)
            requires
                dec_val(p) >= 0,
                digit_val(s[i]) >= 0,
        ;
        lemma_dec_val_prefix(s, i + 1);
    }
}

/// Parses an unsigned decimal numeral, exactly as [`parse_u64_spec`]
/// describes: one or more digits whose value fits in a `u64`.
pub fn parse_u64(s: &str) -> (r: Option<u64>)
    ensures
        r == parse_u64_spec(s@),
{
    let n = s.unicode_len();
    if n == 0 {
        return None;
    }
    // First make sure every character is a digit.
    let mut i: usize = 0;
    while i < n
        invariant
            n == s@.len(),
            i <= n,
            forall|j: int| 0 <= j < i ==> is_dec_digit(#[trigger] s@[j]),
        decreases n - i,
    {
        let c = s.get_char(i);
        let v = c as u32;
        if v < 48 || v > 57 {
            proof {
                assert(!is_dec_digit(s@[i as int]));
            }
            return None;
        }
        i = i + 1;
    }
    assert(all_dec_digits(s@));
    // Then accumulate the value, stopping if it no longer fits.
    let mut acc: u64 = 0;
    let mut i: usize = 0;
    while i < n
        invariant
            n == s@.len(),
            i <= n,
            all_dec_digits(s@),
            acc as int == dec_val(s@.subrange(0, i as int)),
        decreases n - i,
    {
        let c = s.get_char(i);
        let d = ((c as u32) - 48) as u64;
        proof {
            assert(is_dec_digit(s@[i as int]));
            assert(s@.subrange(0, i as int + 1).drop_last() =~= s@.subrange(0, i as int));
            assert(s@.subrange(0, i as int + 1).last() == s@[i as int]);
        }
        let next = match acc.checked_mul(10) {
            Some(m) => m.checked_add(d),
            None => None,
        };
        match next {
            Some(x) => {
                acc = x;
            }
            None => {
                proof {
                    assert(dec_val(s@.subrange(0, i as int + 1)) > u64::MAX);
                    lemma_dec_val_prefix(s@, i as int + 1);
                }
                return None;
            }
        }
        i = i + 1;
    }
    proof {
        assert(s@.subrange(0, n as int) =~= s@);
    }
    Some(acc)
}

/// The one-character string for a digit value.
fn digit_str(d: u64) -> (s: &'static str)
    requires
        d < 10,
    ensures
        s@ == seq![digit_char(d as int)],
{
    let s: &'static str = match d {
        0 => "0",
        1 => "1",
        2 => "2",
        3 => "3",
        4 => "4",
        5 => "5",
        6 => "6",
        7 => "7",
        8 => "8",
        _ => "9",
    };
    proof {
        reveal_strlit("0");
        reveal_strlit("1");
        reveal_strlit("2");
        reveal_strlit("3");
        reveal_strlit("4");
        reveal_strlit("5");
        reveal_strlit("6");
        reveal_strlit("7");
        reveal_strlit("8");
        reveal_strlit("9");
        assert(s@ =~= seq![digit_char(d as int)]);
    }
    s
}

fn push_decimal(r: &mut String, n: u64)
    ensures
        final(r)@ == old(r)@ + dec_str(n as int),
    decreases n,
{
    if n < 10 {
        r.append(digit_str(n));
        proof {
            assert(r@ =~= old(r)@ + dec_str(n as int));
        }
    } else {
        push_decimal(r, n / 10);
        r.append(digit_str(n % 10));
        proof {
            assert(r@ =~= old(r)@ + dec_str(n as int));
        }
    }
}

/// Renders a number as its decimal numeral, exactly [`dec_str`].
pub fn u64_to_dec(n: u64) -> (r: String)
    ensures
        r@ == dec_str(n as int),
{
    let mut r = String::new();
    push_decimal(&mut r, n);
    proof {
        assert(r@ =~= dec_str(n as int));
    }
    r
}

} // verus!
