//! Small string helpers: views of string lists, joining, character
//! replacement and number formatting.

use vstd::prelude::*;
use vstd::string::*;

verus! {

/// The contents of a list of strings.
pub open spec fn views(v: Seq<String>) -> Seq<Seq<char>> {
    Seq::new(v.len(), |i: int| v[i]@)
}

/// Appending a string to a list appends its contents to the list's contents.
pub proof fn lemma_views_push(v: Seq<String>, s: String)
    ensures
        views(v.push(s)) == views(v).push(s@),
{
    assert(views(v.push(s)) =~= views(v).push(s@));
}

/// The contents of the empty list.
pub proof fn lemma_views_empty()
    ensures
        views(Seq::<String>::empty()) == Seq::<Seq<char>>::empty(),
{
    assert(views(Seq::<String>::empty()) =~= Seq::<Seq<char>>::empty());
}

/// Appending in two steps appends the concatenation of the two.
pub proof fn lemma_concat_assoc<T>(a: Seq<T>, b: Seq<T>, c: Seq<T>)
    ensures
        (a + b) + c == a + (b + c),
{
    assert((a + b) + c =~= a + (b + c));
}

/// An owned string made of `a` followed by `b`.
pub fn join2(a: &str, b: &str) -> (r: String)
    ensures
        r@ == a@ + b@,
{
    let mut r = String::from_str(a);
    r.append(b);
    r
}

/// An owned string made of `a`, `b` and `c` in that order.
pub fn join3(a: &str, b: &str, c: &str) -> (r: String)
    ensures
        r@ == a@ + b@ + c@,
{
    let mut r = String::from_str(a);
    r.append(b);
    r.append(c);
    r
}

/// The contents of a list of string slices.
pub open spec fn str_views(v: Seq<&str>) -> Seq<Seq<char>> {
    Seq::new(v.len(), |i: int| v[i]@)
}

/// `s` with every occurrence of the character `a` or `b` replaced by `with`.
pub open spec fn replaced(s: Seq<char>, a: char, b: char, with: Seq<char>) -> Seq<char>
    decreases s.len(),
{
    if s.len() == 0 {
        Seq::empty()
    } else {
        replaced(s.drop_last(), a, b, with) + if s.last() == a || s.last() == b {
            with
        } else {
            seq![s.last()]
        }
    }
}

/// Replaces every occurrence of the character `a` or `b` in `s` by `with`.
pub fn replace_chars(s: &str, a: char, b: char, with: &str) -> (r: String)
    ensures
        r@ == replaced(s@, a, b, with@),
{
    let n = s.unicode_len();
    let mut r = String::new();
    let mut i: usize = 0;
    while i < n
        invariant
            i <= n,
            n == s@.len(),
            r@ == replaced(s@.take(i as int), a, b, with@),
        decreases n - i,
    {
        let c = s.get_char(i);
        if c == a || c == b {
            r.append(with);
        } else {
            r.append(s.substring_char(i, i + 1));
        }
        proof {
            assert(s@.take(i + 1).drop_last() =~= s@.take(i as int));
            assert(s@.subrange(i as int, i + 1) =~= seq![s@[i as int]]);
        }
        i += 1;
    }
    proof {
        assert(s@.take(n as int) =~= s@);
    }
    r
}

/// The character that stands for the digit `d` in bases up to sixteen,
/// with lower-case letters above nine.
pub open spec fn digit(d: nat) -> char {
    if d == 0 {
        '0'
    } else if d == 1 {
        '1'
    } else if d == 2 {
        '2'
    } else if d == 3 {
        '3'
    } else if d == 4 {
        '4'
    } else if d == 5 {
        '5'
    } else if d == 6 {
        '6'
    } else if d == 7 {
        '7'
    } else if d == 8 {
        '8'
    } else if d == 9 {
        '9'
    } else if d == 10 {
        'a'
    } else if d == 11 {
        'b'
    } else if d == 12 {
        'c'
    } else if d == 13 {
        'd'
    } else if d == 14 {
        'e'
    } else {
        'f'
    }
}

/// The digits of `n`, most significant first and without padding, in
/// base sixteen where `hex` holds and in base ten where it does not. Zero
/// is written as a single `0`.
pub open spec fn digits(n: nat, hex: bool) -> Seq<char>
    decreases n,
{
    let q = if hex {
        n / 16
    } else {
        n / 10
    };
    let r = if hex {
        n % 16
    } else {
        n % 10
    };
    if q == 0 {
        seq![digit(r)]
    } else {
        digits(q, hex) + seq![digit(r)]
    }
}

fn digit_str(d: u32) -> (r: &'static str)
    requires
        d < 16,
    ensures
        r@ == seq![digit(d as nat)],
{
    proof {
        reveal_strlit("0");
        reveal_strlit("1");
        reveal_strlit("2");
        reveal_strlit("3");
        reveal_strlit("4");
        reveal_strlit("5");
        reveal_strlit("6");
        reveal_strlit("7");
        reveal_strlit("8");
        reveal_strlit("9");
        reveal_strlit("a");
        reveal_strlit("b");
        reveal_strlit("c");
        reveal_strlit("d");
        reveal_strlit("e");
        reveal_strlit("f");
    }
    let r = match d {
        0 => "0",
        1 => "1",
        2 => "2",
        3 => "3",
        4 => "4",
        5 => "5",
        6 => "6",
        7 => "7",
        8 => "8",
        9 => "9",
        10 => "a",
        11 => "b",
        12 => "c",
        13 => "d",
        14 => "e",
        _ => "f",
    };
    assert(r@ =~= seq![digit(d as nat)]);
    r
}

fn radix(n: u32, hex: bool) -> (r: String)
    ensures
        r@ == digits(n as nat, hex),
{
    let mut m: u32 = if hex {
        n / 16
    } else {
        n / 10
    };
    let mut r = String::from_str(digit_str(if hex {
        n % 16
    } else {
        n % 10
    }));
    while m > 0
        invariant
            digits(n as nat, hex) == if m > 0 {
                digits(m as nat, hex) + r@
            } else {
                r@
            },
        decreases m,
    {
        let ghost before = r@;
        let q: u32 = if hex {
            m / 16
        } else {
            m / 10
        };
        let d: u32 = if hex {
            m % 16
        } else {
            m % 10
        };
        r = join2(digit_str(d), r.as_str());
        proof {
            let ds = seq![digit(d as nat)];
            if q > 0 {
                assert((digits(q as nat, hex) + ds) + before =~= digits(q as nat, hex) + (ds
                    + before));
            }
        }
        m = q;
    }
    r
}

/// `n` written in decimal.
pub fn decimal(n: u32) -> (r: String)
    ensures
        r@ == digits(n as nat, false),
{
    radix(n, false)
}

/// `n` written in lower-case hexadecimal, without a prefix.
pub fn lower_hex(n: u32) -> (r: String)
    ensures
        r@ == digits(n as nat, true),
{
    radix(n, true)
}

} // verus!
