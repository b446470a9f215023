//! Small string helpers shared by the rest of the crate.

use vstd::prelude::*;
use vstd::string::*;

verus! {

/// The characters after the final `/` of `s`; all of `s` when no `/` occurs.
pub open spec fn last_segment(s: Seq<char>) -> Seq<char>
    decreases s.len(),
{
    if s.len() == 0 {
        s
    } else if s[s.len() - 1] == '/' {
        Seq::empty()
    } else {
        last_segment(s.drop_last()).push(s[s.len() - 1])
    }
}

/// When nothing at or after position `k` is a `/` and position `k - 1`
/// (if any) is one, the last segment is exactly the suffix from `k`.
pub(crate) proof fn lemma_last_segment_suffix(s: Seq<char>, k: int)
    requires
        0 <= k <= s.len(),
        forall|j: int| k <= j < s.len() ==> s[j] != '/',
        k > 0 ==> s[k - 1] == '/',
    ensures
        last_segment(s) == s.subrange(k, s.len() as int),
    decreases s.len(),
{
    if s.len() == 0 {
        assert(s.subrange(0, 0) =~= s);
    } else if k == s.len() {
        assert(s.subrange(k, s.len() as int) =~= Seq::<char>::empty());
    } else {
        lemma_last_segment_suffix(s.drop_last(), k);
        assert(s.drop_last().subrange(k, s.len() - 1).push(s[s.len() - 1]) =~= s.subrange(
            k,
            s.len() as int,
        ));
    }
}

/// The view of an optional string, or the empty sequence when it is absent.
pub open spec fn opt_str_or_empty(o: Option<Seq<char>>) -> Seq<char> {
    match o {
        Some(s) => s,
        None => Seq::empty(),
    }
}

/// The elements of `items` joined by single spaces.
pub open spec fn join_space(items: Seq<Seq<char>>) -> Seq<char>
    decreases items.len(),
{
    if items.len() == 0 {
        Seq::empty()
    } else if items.len() == 1 {
        items[0]
    } else {
        items[0] + seq![' '] + join_space(items.drop_first())
    }
}

proof fn lemma_join_space_push(items: Seq<Seq<char>>, x: Seq<char>)
    ensures
        join_space(items.push(x)) == if items.len() == 0 {
            x
        } else {
            join_space(items) + seq![' '] + x
        },
    decreases items.len(),
{
    if items.len() == 0 {
        assert(items.push(x)[0] == x);
        assert(join_space(items.push(x)) == x);
    } else {
        assert(items.push(x).drop_first() =~= items.drop_first().push(x));
        assert(items.push(x)[0] == items[0]);
        lemma_join_space_push(items.drop_first(), x);
        if items.len() == 1 {
            assert(join_space(items.push(x)) == items[0] + seq![' '] + x);
        } else {
            assert(items[0] + seq![' '] + (join_space(items.drop_first()) + seq![' '] + x) =~= (
            items[0] + seq![' '] + join_space(items.drop_first())) + seq![' '] + x);
        }
    }
}

/// Join the strings of `items` with single spaces between them.
pub fn join_with_space(items: &Vec<String>) -> (r: String)
    ensures
        r@ == join_space(items.deep_view()),
{
    let mut r = String::new();
    let mut idx: usize = 0;
    proof {
        assert(items.deep_view().take(0) =~= Seq::<Seq<char>>::empty());
    }
    while idx < items.len()
        invariant
            idx <= items.len(),
            r@ == join_space(items.deep_view().take(idx as int)),
        decreases items.len() - idx,
    {
        if idx > 0 {
            r.append(" ");
        }
        r.append(items[idx].as_str());
        proof {
            reveal_strlit(" ");
            assert(" "@ =~= seq![' ']);
            lemma_join_space_push(
                items.deep_view().take(idx as int),
                items.deep_view()[idx as int],
            );
            assert(items.deep_view().take(idx + 1) =~= items.deep_view().take(idx as int).push(
                items.deep_view()[idx as int],
            ));
        }
        idx = idx + 1;
    }
    proof {
        assert(items.deep_view().take(items.len() as int) =~= items.deep_view());
    }
    r
}

/// Whether `c` is one of the decimal digits `0` to `9`.
pub open spec fn is_dec_digit(c: char) -> bool {
    '0' <= c && c <= '9'
}

/// The numeric value of a decimal digit character.
pub open spec fn digit_val(c: char) -> nat {
    (c as int - '0' as int) as nat
}

/// Whether every character of `s` is a decimal digit.
pub open spec fn all_dec_digits(s: Seq<char>) -> bool {
    forall|i: int| 0 <= i < s.len() ==> is_dec_digit(s[i])
}

/// The numeric value of `s` read as a decimal numeral.
pub open spec fn dec_value(s: Seq<char>) -> nat
    decreases s.len(),
{
    if s.len() == 0 {
        0
    } else {
        dec_value(s.drop_last()) * 10 + digit_val(s.last())
    }
}

/// Reading more digits never decreases the value of a numeral.
proof fn lemma_dec_value_prefix(s: Seq<char>, m: int)
    requires
        0 <= m <= s.len(),
    ensures
        dec_value(s.take(m)) <= dec_value(s),
    decreases s.len() - m,
{
    if m == s.len() {
        assert(s.take(m) =~= s);
    } else {
        lemma_dec_value_prefix(s, m + 1);
        assert(s.take(m + 1).drop_last() =~= s.take(m));
        assert(dec_value(s.take(m + 1)) == dec_value(s.take(m)) * 10 + digit_val(s.take(m + 1).last()));
        assert(dec_value(s.take(m)) * 10 >= dec_value(s.take(m)));
    }
}

/// The sign-stripped part of a numeral: a single leading `+` is dropped.
pub open spec fn parse_u8_body(s: Seq<char>) -> Seq<char> {
    if s.len() > 0 && s[0] == '+' {
        s.drop_first()
    } else {
        s
    }
}

/// The result of reading `s` as an unsigned decimal numeral that fits in
/// a `u8`: an optional `+` sign, then at least one digit, value at most 255.
pub open spec fn spec_parse_u8(s: Seq<char>) -> Option<u8> {
    let t = parse_u8_body(s);
    if t.len() > 0 && all_dec_digits(t) && dec_value(t) <= 255 {
        Some(dec_value(t) as u8)
    } else {
        None
    }
}

/// Read `s` as an unsigned decimal numeral that fits in a `u8`.
pub fn parse_u8_dec(s: &str) -> (r: Option<u8>)
    ensures
        r == spec_parse_u8(s@),
{
    let n = s.unicode_len();
    let start: usize = if n > 0 && s.get_char(0) == '+' {
        1
    } else {
        0
    };
    let ghost t = parse_u8_body(s@);
    proof {
        assert(t =~= s@.subrange(start as int, n as int));
    }
    if start == n {
        return None;
    }
    let mut acc: u16 = 0;
    let mut j = start;
    while j < n
        invariant
            start <= j <= n,
            n == s@.len(),
            t == parse_u8_body(s@),
            t == s@.subrange(start as int, n as int),
            acc <= 255,
            acc == dec_value(t.take(j - start)),
            all_dec_digits(t.take(j - start)),
        decreases n - j,
    {
        let c = s.get_char(j);
        let cv = c as u32;
        let ghost prefix = t.take(j - start);
        proof {
            assert(t[j - start] == s@[j as int]);
            assert(t.take(j - start + 1).drop_last() =~= prefix);
            assert(t.take(j - start + 1).last() == s@[j as int]);
            assert(c as int == cv as int);
        }
        if cv < 48 || cv > 57 {
            proof {
                assert(!is_dec_digit(t[j - start]));
            }
            return None;
        }
        let d = (cv - 48) as u16;
        acc = acc * 10 + d;
        proof {
            assert(is_dec_digit(t[j - start]));
            assert(digit_val(t[j - start]) == d as nat);
            assert(dec_value(t.take(j - start + 1)) == dec_value(prefix) * 10 + digit_val(
                t[j - start],
            ));
            assert(forall|i: int|
                0 <= i < j - start + 1 ==> is_dec_digit(#[trigger] t.take(j - start + 1)[i]));
        }
        if acc > 255 {
            proof {
                assert(dec_value(t.take(j - start + 1)) > 255);
                lemma_dec_value_prefix(t, j - start + 1);
            }
            return None;
        }
        j = j + 1;
    }
    proof {
        assert(t.take(n - start) =~= t);
    }
    Some(acc as u8)
}

/// The decimal numeral of `n`, most significant digit first.
pub open spec fn u8_dec(n: nat) -> Seq<char>
    decreases n,
{
    if n < 10 {
        seq![dec_digit_char(n)]
    } else {
        u8_dec(n / 10).push(dec_digit_char(n % 10))
    }
}

/// The character of a single decimal digit.
pub open spec fn dec_digit_char(n: nat) -> char {
    if n == 0 {
        '0'
    } else if n == 1 {
        '1'
    } else if n == 2 {
        '2'
    } else if n == 3 {
        '3'
    } else if n == 4 {
        '4'
    } else if n == 5 {
        '5'
    } else if n == 6 {
        '6'
    } else if n == 7 {
        '7'
    } else if n == 8 {
        '8'
    } else {
        '9'
    }
}

fn digit_to_str(d: u8) -> (r: &'static str)
    requires
        d < 10,
    ensures
        r@ == seq![dec_digit_char(d as nat)],
{
    proof {
        reveal_strlit("0");
        reveal_strlit("1");
        reveal_strlit("2");
        reveal_strlit("3");
        reveal_strlit("4");
        reveal_strlit("5");
        reveal_strlit("6");
        reveal_strlit("7");
        reveal_strlit("8");
        reveal_strlit("9");
        assert("0"@ =~= seq!['0']);
        assert("1"@ =~= seq!['1']);
        assert("2"@ =~= seq!['2']);
        assert("3"@ =~= seq!['3']);
        assert("4"@ =~= seq!['4']);
        assert("5"@ =~= seq!['5']);
        assert("6"@ =~= seq!['6']);
        assert("7"@ =~= seq!['7']);
        assert("8"@ =~= seq!['8']);
        assert("9"@ =~= seq!['9']);
    }
    match d {
        0 => "0",
        1 => "1",
        2 => "2",
        3 => "3",
        4 => "4",
        5 => "5",
        6 => "6",
        7 => "7",
        8 => "8",
        _ => "9",
    }
}

/// Write `n` as a decimal numeral.
pub fn u8_to_dec_string(n: u8) -> (r: String)
    ensures
        r@ == u8_dec(n as nat),
{
    if n < 10 {
        String::from_str(digit_to_str(n))
    } else if n < 100 {
        let r = String::from_str(digit_to_str(n / 10)).concat(digit_to_str(n % 10));
        proof {
            assert(u8_dec(n as nat) == u8_dec(n as nat / 10).push(dec_digit_char(n as nat % 10)));
            assert(r@ =~= u8_dec(n as nat));
        }
        r
    } else {
        let r = String::from_str(digit_to_str(n / 100)).concat(digit_to_str((n / 10) % 10)).concat(
            digit_to_str(n % 10),
        );
        proof {
            assert(u8_dec(n as nat) == u8_dec(n as nat / 10).push(dec_digit_char(n as nat % 10)));
            assert(u8_dec(n as nat / 10) == u8_dec(n as nat / 10 / 10).push(
                dec_digit_char(n as nat / 10 % 10),
            ));
            assert(n as nat / 10 / 10 == n as nat / 100);
            assert(r@ =~= u8_dec(n as nat));
        }
        r
    }
}

/// The part of `s` after its final `/`, or all of `s` when it has none.
pub fn segment_after_last_slash(s: &str) -> (r: String)
    ensures
        r@ == last_segment(s@),
{
    let n = s.unicode_len();
    let mut k = n;
    while k > 0 && s.get_char(k - 1) != '/'
        invariant
            k <= n,
            n == s@.len(),
            forall|j: int| k <= j < s@.len() ==> s@[j] != '/',
        decreases k,
    {
        k = k - 1;
    }
    proof {
        lemma_last_segment_suffix(s@, k as int);
    }
    let seg = s.substring_char(k, n);
    seg.to_owned()
}

} // verus!
