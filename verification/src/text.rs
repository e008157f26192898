//! Text helpers: comma-separated fields, decimal numbers and joining.
use vstd::arithmetic::power::{lemma_pow0, pow};
use vstd::prelude::*;

verus! {

/// The characters of `s` between its commas. A text without a comma is one
/// field, so there is always at least one.
pub open spec fn fields(s: Seq<char>) -> Seq<Seq<char>>
    decreases s.len(),
{
    if s.len() == 0 {
        seq![Seq::empty()]
    } else {
        let before = fields(s.drop_last());
        if s.last() == ',' {
            before.push(Seq::empty())
        } else {
            before.drop_last().push(before.last().push(s.last()))
        }
    }
}

/// The items of `list`, in order, with `sep` between neighbours.
pub open spec fn joined(list: Seq<Seq<char>>, sep: Seq<char>) -> Seq<char>
    decreases list.len(),
{
    if list.len() == 0 {
        Seq::empty()
    } else if list.len() == 1 {
        list[0]
    } else {
        joined(list.drop_last(), sep) + sep + list.last()
    }
}

/// `c` is one of the ten decimal digits.
pub open spec fn is_digit(c: char) -> bool {
    '0' <= c <= '9'
}

/// What the digits of `s` stand for in base ten.
pub open spec fn decimal_value(s: Seq<char>) -> nat
    decreases s.len(),
{
    if s.len() == 0 {
        0
    } else {
        10 * decimal_value(s.drop_last()) + (s.last() as nat - '0' as nat) as nat
    }
}

/// `s` without one leading plus sign, if it has one.
pub open spec fn unsigned_part(s: Seq<char>) -> Seq<char> {
    if s.len() > 0 && s[0] == '+' {
        s.skip(1)
    } else {
        s
    }
}

/// The number that `s` writes: an optional plus sign, then digits and nothing
/// else, with a value of 64 bits. `None` for every other text.
pub open spec fn parsed_u64(s: Seq<char>) -> Option<u64> {
    let digits = unsigned_part(s);
    if digits.len() > 0 && (forall|i: int| 0 <= i < digits.len() ==> is_digit(#[trigger] digits[i]))
        && decimal_value(digits) <= u64::MAX {
        Some(decimal_value(digits) as u64)
    } else {
        None
    }
}

/// The decimal digit that stands for `d`.
pub open spec fn digit_char(d: nat) -> char {
    ('0' as nat + d) as char
}

/// `n` in decimal, without leading zeros.
pub open spec fn decimal_text(n: nat) -> Seq<char>
    decreases n,
{
    if n < 10 {
        seq![digit_char(n)]
    } else {
        decimal_text(n / 10).push(digit_char(n % 10))
    }
}

/// The views of a list of character vectors.
pub open spec fn char_views(list: Seq<Vec<char>>) -> Seq<Seq<char>> {
    list.map_values(|f: Vec<char>| f@)
}

/// The views of a list of strings.
pub open spec fn string_views(list: Seq<String>) -> Seq<Seq<char>> {
    list.map_values(|f: String| f@)
}

/// Splits `text` at its commas.
pub fn split_fields(text: &str) -> (r: Vec<Vec<char>>)
    ensures
        char_views(r@) == fields(text@),
{
    let mut done: Vec<Vec<char>> = Vec::new();
    let mut open_field: Vec<char> = Vec::new();
    for c in it: text.chars()
        invariant
            it.seq() == text@,
            char_views(done@).push(open_field@) == fields(text@.take(it.index() as int)),
    {
        proof {
            assert(text@.take(it.index() + 1).drop_last() =~= text@.take(it.index() as int));
        }
        if c == ',' {
            done.push(open_field);
            open_field = Vec::new();
        } else {
            open_field.push(c);
        }
    }
    proof {
        assert(text@.take(text@.len() as int) =~= text@);
    }
    done.push(open_field);
    done
}

/// Reads a decimal number of 64 bits.
pub fn parse_u64(text: &Vec<char>) -> (r: Option<u64>)
    ensures
        r == parsed_u64(text@),
{
    let start: usize = if text.len() > 0 && text[0] == '+' { 1 } else { 0 };
    let ghost digits = unsigned_part(text@);
    proof {
        assert(digits =~= text@.skip(start as int));
    }
    if text.len() == start {
        return None;
    }
    let mut value: u64 = 0;
    let mut i: usize = start;
    while i < text.len()
        invariant
            start <= i <= text.len(),
            digits == unsigned_part(text@),
            digits == text@.skip(start as int),
            digits.len() > 0,
            forall|j: int| 0 <= j < i - start ==> is_digit(#[trigger] digits[j]),
            value == decimal_value(digits.take(i - start)),
        decreases text.len() - i,
    {
        let c = text[i];
        proof {
            assert(digits[i - start] == c);
            assert(digits.take(i - start + 1).drop_last() =~= digits.take(i - start));
            lemma_decimal_value_grows(digits, i - start + 1);
        }
        if c < '0' || c > '9' {
            return None;
        }
        let digit: u64 = c as u64 - 48;
        if value > (u64::MAX - digit) / 10 {
            return None;
        }
        value = 10 * value + digit;
        i += 1;
    }
    proof {
        assert(digits.take(text.len() - start) =~= digits);
    }
    Some(value)
}

/// A prefix of a number is never greater than the whole.
proof fn lemma_decimal_value_grows(s: Seq<char>, n: int)
    requires
        0 <= n <= s.len(),
    ensures
        decimal_value(s.take(n)) <= decimal_value(s),
    decreases s.len() - n,
{
    if n == s.len() {
        assert(s.take(n) =~= s);
    } else {
        assert(s.take(n + 1).drop_last() =~= s.take(n));
        lemma_decimal_value_grows(s, n + 1);
    }
}

/// The one-character text of a decimal digit.
fn digit_text(d: u64) -> (r: &'static str)
    requires
        d < 10,
    ensures
        r@ == seq![digit_char(d as nat)],
{
    proof {
        reveal_strlit("0");
        reveal_strlit("1");
        reveal_strlit("2");
        reveal_strlit("3");
        reveal_strlit("4");
        reveal_strlit("5");
        reveal_strlit("6");
        reveal_strlit("7");
        reveal_strlit("8");
        reveal_strlit("9");
    }
    match d {
        0 => "0",
        1 => "1",
        2 => "2",
        3 => "3",
        4 => "4",
        5 => "5",
        6 => "6",
        7 => "7",
        8 => "8",
        _ => "9",
    }
}

/// Writes `n` in decimal.
pub fn write_u64(n: u64) -> (r: String)
    ensures
        r@ == decimal_text(n as nat),
    decreases n,
{
    if n < 10 {
        String::from_str(digit_text(n))
    } else {
        write_u64(n / 10).concat(digit_text(n % 10))
    }
}

/// Joins the strings of `list` with `sep` between neighbours.
pub fn join(list: &Vec<String>, sep: &str) -> (r: String)
    ensures
        r@ == joined(string_views(list@), sep@),
{
    let mut out = String::new();
    let ghost views = string_views(list@);
    let mut i: usize = 0;
    while i < list.len()
        invariant
            i <= list.len(),
            views == string_views(list@),
            out@ == joined(views.take(i as int), sep@),
        decreases list.len() - i,
    {
        proof {
            assert(views.take(i + 1).drop_last() =~= views.take(i as int));
        }
        if i > 0 {
            out.append(sep);
        }
        out.append(list[i].as_str());
        i += 1;
    }
    proof {
        assert(views.take(list.len() as int) =~= views);
    }
    out
}

/// Splitting loses nothing: the fields of a text, joined by commas, are the
/// text again, and no field holds a comma.
pub proof fn law_fields_rejoin(s: Seq<char>)
    ensures
        joined(fields(s), seq![',']) == s,
        forall|i: int| 0 <= i < fields(s).len() ==> !(#[trigger] fields(s)[i]).contains(','),
        fields(s).len() > 0,
    decreases s.len(),
{
    if s.len() == 0 {
    } else {
        let before = fields(s.drop_last());
        law_fields_rejoin(s.drop_last());
        if s.last() == ',' {
            assert(fields(s).drop_last() =~= before);
            assert(joined(fields(s), seq![',']) =~= s.drop_last() + seq![','] + Seq::empty());
            assert(s =~= s.drop_last() + seq![',']);
        } else {
            assert(fields(s).drop_last() =~= before.drop_last());
            let grown = before.last().push(s.last());
            assert(fields(s).last() == grown);
            assert forall|i: int| 0 <= i < fields(s).len() implies !(
            #[trigger] fields(s)[i]).contains(',') by {
                if i < before.len() - 1 {
                    assert(fields(s)[i] == before[i]);
                } else {
                    assert(!before[before.len() - 1].contains(','));
                    if grown.contains(',') {
                        let k = choose|k: int| 0 <= k < grown.len() && grown[k] == ',';
                        assert(before.last()[k] == ',');
                    }
                }
            }
            if before.len() == 1 {
                assert(joined(fields(s), seq![',']) =~= s);
            } else {
                assert(joined(fields(s), seq![',']) =~= joined(before, seq![',']).push(s.last()));
            }
            assert(s =~= s.drop_last().push(s.last()));
        }
    }
}

/// A comma separates the fields before it from those after it, and a text
/// without a comma is one field.
pub proof fn law_comma_separates(a: Seq<char>, b: Seq<char>)
    ensures
        fields(a + seq![','] + b) == fields(a) + fields(b),
        !a.contains(',') ==> fields(a) == seq![a],
    decreases b.len(), a.len(),
{
    let s = a + seq![','] + b;
    law_fields_rejoin(b);
    if b.len() == 0 {
        assert(s.drop_last() =~= a);
        assert(fields(s) =~= fields(a) + fields(b));
    } else {
        law_comma_separates(a, b.drop_last());
        law_fields_rejoin(b.drop_last());
        assert(s.drop_last() =~= a + seq![','] + b.drop_last());
        assert(fields(s) =~= fields(a) + fields(b));
    }
    lemma_one_field(a);
}

proof fn lemma_one_field(s: Seq<char>)
    ensures
        !s.contains(',') ==> fields(s) == seq![s],
    decreases s.len(),
{
    if !s.contains(',') {
        if s.len() == 0 {
            assert(s =~= Seq::<char>::empty());
        } else {
            let front = s.drop_last();
            assert forall|i: int| 0 <= i < front.len() implies front[i] != ',' by {
                assert(front[i] == s[i]);
                assert(s.contains(s[i]));
            }
            assert(s.contains(s.last()));
            lemma_one_field(front);
            assert(fields(s) =~= seq![front.push(s.last())]);
            assert(front.push(s.last()) =~= s);
        }
    }
}

/// Joining puts the separator between two lists that each hold something, and
/// nothing around a single item.
pub proof fn law_join_separates(a: Seq<Seq<char>>, b: Seq<Seq<char>>, sep: Seq<char>)
    ensures
        joined(Seq::empty(), sep) == Seq::<char>::empty(),
        a.len() == 1 ==> joined(a, sep) == a[0],
        a.len() > 0 && b.len() > 0 ==> joined(a + b, sep) == joined(a, sep) + sep + joined(b, sep),
    decreases b.len(),
{
    if a.len() > 0 && b.len() > 0 {
        assert((a + b).drop_last() =~= a + b.drop_last());
        if b.len() == 1 {
            assert(a + b.drop_last() =~= a);
        } else {
            law_join_separates(a, b.drop_last(), sep);
            assert(joined(a + b, sep) =~= joined(a, sep) + sep + joined(b, sep));
        }
    }
}

/// Digits stand for what they do in base ten: one digit for itself, and digits
/// in front of `k` others for as many times ten to the `k`.
pub proof fn law_base_ten(a: Seq<char>, b: Seq<char>, c: char)
    requires
        '0' <= c <= '9',
    ensures
        decimal_value(Seq::empty()) == 0,
        decimal_value(seq![c]) == c as nat - 48,
        decimal_value(a + b) == decimal_value(a) * pow(10, b.len()) + decimal_value(b),
    decreases b.len(),
{
    assert(seq![c].drop_last() =~= Seq::<char>::empty());
    assert(decimal_value(Seq::<char>::empty()) == 0);
    if b.len() == 0 {
        lemma_pow0(10);
        assert(a + b =~= a);
    } else {
        law_base_ten(a, b.drop_last(), c);
        assert((a + b).drop_last() =~= a + b.drop_last());
        let n = b.drop_last().len();
        reveal(pow);
        assert(pow(10, b.len()) == 10 * pow(10, n));
        let v = decimal_value(a) as int;
        let p = pow(10, n);
        assert(10 * (v * p) == v * (10 * p)) by (nonlinear_arith);
    }
}

/// A number in decimal consists of digits, stands for the number, and has no
/// leading zero but for zero itself.
pub proof fn law_decimal_text(n: nat)
    ensures
        decimal_text(n).len() > 0,
        forall|i: int|
            0 <= i < decimal_text(n).len() ==> '0' <= (#[trigger] decimal_text(n)[i]) <= '9',
        decimal_value(decimal_text(n)) == n,
        n > 0 ==> decimal_text(n)[0] != '0',
        n < 10 ==> decimal_text(n).len() == 1,
    decreases n,
{
    if n < 10 {
        assert(decimal_text(n).drop_last() =~= Seq::<char>::empty());
        assert(decimal_value(Seq::<char>::empty()) == 0);
    } else {
        law_decimal_text(n / 10);
        assert(decimal_text(n).drop_last() =~= decimal_text(n / 10));
    }
}

/// A text of digits is read as the number it stands for, with or without a
/// plus sign, if that fits in 64 bits, and not at all if it does not.
pub proof fn law_digits_are_read(s: Seq<char>)
    requires
        s.len() > 0,
        forall|i: int| 0 <= i < s.len() ==> '0' <= #[trigger] s[i] <= '9',
    ensures
        decimal_value(s) < 0x1_0000_0000_0000_0000 ==> parsed_u64(s) == Some(
            decimal_value(s) as u64,
        ) && parsed_u64(seq!['+'] + s) == Some(decimal_value(s) as u64),
        decimal_value(s) >= 0x1_0000_0000_0000_0000 ==> parsed_u64(s) is None && parsed_u64(
            seq!['+'] + s,
        ) is None,
{
    assert('0' <= s[0] <= '9');
    assert((seq!['+'] + s).skip(1) =~= s);
}

/// What is written in decimal is read back.
pub proof fn law_written_numbers_are_read_back(n: u64)
    ensures
        parsed_u64(decimal_text(n as nat)) == Some(n),
        parsed_u64(seq!['+'] + decimal_text(n as nat)) == Some(n),
{
    law_decimal_text(n as nat);
    law_digits_are_read(decimal_text(n as nat));
}

/// A text with anything but digits behind its first character, or with a first
/// character that is neither a digit nor a plus sign, is no number. Nor is the
/// empty text or a plus sign alone.
pub proof fn law_other_texts_are_no_numbers(s: Seq<char>, i: int)
    requires
        0 <= i < s.len(),
        s[i] < '0' || s[i] > '9',
        i > 0 || s[i] != '+',
    ensures
        parsed_u64(s) is None,
        parsed_u64(Seq::empty()) is None,
        parsed_u64(seq!['+']) is None,
{
    let digits = unsigned_part(s);
    if s[0] == '+' {
        assert(digits[i - 1] == s[i]);
    } else {
        assert(digits[i] == s[i]);
    }
}

/// A list of texts stands for the texts in it, in order.
pub proof fn law_lists_keep_their_texts(a: Seq<String>, b: Seq<Vec<char>>, i: int)
    requires
        0 <= i < a.len(),
        0 <= i < b.len(),
    ensures
        string_views(a).len() == a.len(),
        string_views(a)[i] == a[i]@,
        char_views(b).len() == b.len(),
        char_views(b)[i] == b[i]@,
{
}

} // verus!
