//! Building the text of tables and log lines: decimal numbers, grouped
//! digits, padding and truncation.

use itertools::Itertools;
use num_format::{Locale, ToFormattedString};
use vstd::prelude::*;
use vstd::string::StrSliceExecFns;
use vstd::string::StringExecFns;

verus! {

/// The character of one decimal digit.
pub open spec fn digit_char(d: nat) -> char {
    if d == 0 {
        '0'
    } else if d == 1 {
        '1'
    } else if d == 2 {
        '2'
    } else if d == 3 {
        '3'
    } else if d == 4 {
        '4'
    } else if d == 5 {
        '5'
    } else if d == 6 {
        '6'
    } else if d == 7 {
        '7'
    } else if d == 8 {
        '8'
    } else {
        '9'
    }
}

/// The decimal digits of a number, most significant first, without
/// leading zeros ("0" for zero).
pub open spec fn decimal_digits(n: nat) -> Seq<char>
    decreases n,
{
    if n < 10 {
        seq![digit_char(n)]
    } else {
        decimal_digits(n / 10).push(digit_char(n % 10))
    }
}

/// The three digits of a number below one thousand, zeros kept.
pub open spec fn three_digits(n: nat) -> Seq<char> {
    seq![digit_char(n / 100), digit_char((n / 10) % 10), digit_char(n % 10)]
}

/// The decimal digits of a number in groups of three, the groups separated
/// by commas: 1234567 is written "1,234,567".
pub open spec fn grouped_digits(n: nat) -> Seq<char>
    decreases n,
{
    if n < 1000 {
        decimal_digits(n)
    } else {
        grouped_digits(n / 1000).push(',') + three_digits(n % 1000)
    }
}

/// A run of `n` spaces.
pub open spec fn spaces(n: nat) -> Seq<char> {
    Seq::new(n, |i: int| ' ')
}

/// Text padded with spaces on the right up to `width` characters; longer
/// text is left as it is.
pub open spec fn spec_pad_right(s: Seq<char>, width: nat) -> Seq<char> {
    if s.len() >= width {
        s
    } else {
        s + spaces((width - s.len()) as nat)
    }
}

/// Text padded with spaces on the left up to `width` characters; longer
/// text is left as it is.
pub open spec fn spec_pad_left(s: Seq<char>, width: nat) -> Seq<char> {
    if s.len() >= width {
        s
    } else {
        spaces((width - s.len()) as nat) + s
    }
}

/// Text cut to at most `max_length` characters: text that is longer keeps
/// its first `max_length - 2` characters, followed by two dots.
pub open spec fn spec_truncate_string(s: Seq<char>, max_length: nat) -> Seq<char> {
    if s.len() > max_length {
        s.take(if max_length >= 2 { max_length - 2 } else { 0 }) + seq!['.', '.']
    } else {
        s
    }
}

/// The text of a boolean: "true" or "false".
pub open spec fn bool_text(b: bool) -> Seq<char> {
    if b {
        seq!['t', 'r', 'u', 'e']
    } else {
        seq!['f', 'a', 'l', 's', 'e']
    }
}

/// `num_format::ToFormattedString::to_formatted_string` on a `usize` with
/// `Locale::en`: the decimal digits of the number, a comma between each
/// group of three digits counted from the right.
#[verifier::external_body]
fn to_formatted_string_en(n: usize) -> (s: String)
    ensures
        s@ == grouped_digits(n as nat),
{
    n.to_formatted_string(&Locale::en)
}

/// A number written with a comma between each group of three digits.
pub fn format_number(n: usize) -> (s: String)
    ensures
        s@ == grouped_digits(n as nat),
{
    to_formatted_string_en(n)
}

fn digit_str(d: u128) -> (r: &'static str)
    requires
        d < 10,
    ensures
        r@ == seq![digit_char(d as nat)],
{
    proof {
        reveal_strlit("0");
        reveal_strlit("1");
        reveal_strlit("2");
        reveal_strlit("3");
        reveal_strlit("4");
        reveal_strlit("5");
        reveal_strlit("6");
        reveal_strlit("7");
        reveal_strlit("8");
        reveal_strlit("9");
    }
    let r = if d == 0 {
        "0"
    } else if d == 1 {
        "1"
    } else if d == 2 {
        "2"
    } else if d == 3 {
        "3"
    } else if d == 4 {
        "4"
    } else if d == 5 {
        "5"
    } else if d == 6 {
        "6"
    } else if d == 7 {
        "7"
    } else if d == 8 {
        "8"
    } else {
        "9"
    };
    assert(r@ =~= seq![digit_char(d as nat)]);
    r
}

/// The decimal text of a 128-bit number.
pub fn decimal_string_u128(n: u128) -> (s: String)
    ensures
        s@ == decimal_digits(n as nat),
    decreases n,
{
    if n < 10 {
        String::from_str(digit_str(n))
    } else {
        let mut s = decimal_string_u128(n / 10);
        s.append(digit_str(n % 10));
        assert(s@ =~= decimal_digits((n / 10) as nat).push(digit_char((n % 10) as nat)));
        s
    }
}

/// The decimal text of a 64-bit number.
pub fn decimal_string_u64(n: u64) -> (s: String)
    ensures
        s@ == decimal_digits(n as nat),
{
    decimal_string_u128(n as u128)
}

/// The decimal text of a number.
pub fn decimal_string(n: usize) -> (s: String)
    ensures
        s@ == decimal_digits(n as nat),
{
    decimal_string_u128(n as u128)
}

/// The text of a boolean.
pub fn bool_string(b: bool) -> (s: String)
    ensures
        s@ == bool_text(b),
{
    proof {
        reveal_strlit("true");
        reveal_strlit("false");
    }
    let s = if b {
        String::from_str("true")
    } else {
        String::from_str("false")
    };
    assert(s@ =~= bool_text(b));
    s
}

/// Appends `n` spaces to `s`.
pub fn push_spaces(s: &mut String, n: usize)
    ensures
        final(s)@ == old(s)@ + spaces(n as nat),
{
    let mut i: usize = 0;
    assert(s@ =~= old(s)@ + spaces(0));
    while i < n
        invariant
            i <= n,
            s@ == old(s)@ + spaces(i as nat),
        decreases n - i,
    {
        proof {
            reveal_strlit(" ");
        }
        s.append(" ");
        i = i + 1;
        assert(s@ =~= old(s)@ + spaces(i as nat));
    }
}

/// Pads text with spaces on the right up to `width` characters.
pub fn pad_right(s: &str, width: usize) -> (r: String)
    ensures
        r@ == spec_pad_right(s@, width as nat),
{
    let len = s.unicode_len();
    let mut r = String::from_str(s);
    if len < width {
        push_spaces(&mut r, width - len);
    }
    r
}

/// Pads text with spaces on the left up to `width` characters.
pub fn pad_left(s: &str, width: usize) -> (r: String)
    ensures
        r@ == spec_pad_left(s@, width as nat),
{
    let len = s.unicode_len();
    if len < width {
        let mut r = String::new();
        push_spaces(&mut r, width - len);
        r.append(s);
        assert(r@ =~= spaces((width - len) as nat) + s@);
        r
    } else {
        String::from_str(s)
    }
}

/// Cuts text to at most `max_length` characters, marking the cut with two
/// dots.
pub fn truncate_string(str_to_truncate: &str, max_length: usize) -> (r: String)
    ensures
        r@ == spec_truncate_string(str_to_truncate@, max_length as nat),
{
    let len = str_to_truncate.unicode_len();
    if len > max_length {
        let keep: usize = if max_length >= 2 {
            max_length - 2
        } else {
            0
        };
        let mut r = String::from_str(str_to_truncate.substring_char(0, keep));
        proof {
            reveal_strlit("..");
        }
        r.append("..");
        assert(r@ =~= str_to_truncate@.take(keep as int) + seq!['.', '.']);
        r
    } else {
        String::from_str(str_to_truncate)
    }
}

/// The order of texts: character by character, a text before the texts
/// that it starts.
pub open spec fn text_le(a: Seq<char>, b: Seq<char>) -> bool
    decreases a.len(),
{
    if a.len() == 0 {
        true
    } else if b.len() == 0 {
        false
    } else if a[0] == b[0] {
        text_le(a.drop_first(), b.drop_first())
    } else {
        (a[0] as int) < (b[0] as int)
    }
}

/// The texts of a list of strings.
pub open spec fn texts(strings: Seq<String>) -> Seq<Seq<char>> {
    Seq::new(strings.len(), |i: int| strings[i]@)
}

/// Each text stands before or with every later one.
pub open spec fn texts_sorted(list: Seq<Seq<char>>) -> bool {
    forall|i: int, j: int| 0 <= i < j < list.len() ==> text_le(list[i], list[j])
}

/// Every text stands before or with itself.
pub proof fn lemma_text_le_reflexive(a: Seq<char>)
    ensures
        text_le(a, a),
    decreases a.len(),
{
    if a.len() > 0 {
        lemma_text_le_reflexive(a.drop_first());
    }
}

/// Two texts that stand before or with each other are the same text.
pub proof fn lemma_text_le_antisymmetric(a: Seq<char>, b: Seq<char>)
    requires
        text_le(a, b),
        text_le(b, a),
    ensures
        a == b,
    decreases a.len(),
{
    if a.len() == 0 {
        assert(b.len() == 0);
        assert(a =~= b);
    } else {
        assert(b.len() > 0);
        assert(a[0] == b[0]);
        let rest_a = a.drop_first();
        let rest_b = b.drop_first();
        lemma_text_le_antisymmetric(rest_a, rest_b);
        assert(a.len() == rest_a.len() + 1);
        assert(b.len() == rest_b.len() + 1);
        assert forall|i: int| 0 <= i < a.len() implies a[i] == b[i] by {
            if i > 0 {
                assert(rest_a[i - 1] == a[i]);
                assert(rest_b[i - 1] == b[i]);
            }
        }
        assert(a =~= b);
    }
}

/// A text that stands before or with a second, which stands before or
/// with a third, stands before or with the third.
pub proof fn lemma_text_le_transitive(a: Seq<char>, b: Seq<char>, c: Seq<char>)
    requires
        text_le(a, b),
        text_le(b, c),
    ensures
        text_le(a, c),
    decreases a.len(),
{
    if a.len() > 0 && a[0] == b[0] && b[0] == c[0] {
        lemma_text_le_transitive(a.drop_first(), b.drop_first(), c.drop_first());
    }
}

/// Of two texts one stands before or with the other.
pub proof fn lemma_text_le_connected(a: Seq<char>, b: Seq<char>)
    ensures
        text_le(a, b) || text_le(b, a),
    decreases a.len(),
{
    if a.len() > 0 && b.len() > 0 {
        if a[0] == b[0] {
            lemma_text_le_connected(a.drop_first(), b.drop_first());
        }
    }
}

/// The order of texts is total: any two texts are in order one way or
/// the other, and only a text itself stands both before and after it.
pub proof fn lemma_text_order_total(leq: spec_fn(Seq<char>, Seq<char>) -> bool)
    requires
        forall|x: Seq<char>, y: Seq<char>| #[trigger] leq(x, y) == text_le(x, y),
    ensures
        vstd::relations::total_ordering(leq),
{
    assert forall|x: Seq<char>| #[trigger] leq(x, x) by {
        lemma_text_le_reflexive(x);
    }
    assert forall|x: Seq<char>, y: Seq<char>| #[trigger] leq(x, y) && #[trigger] leq(
        y,
        x,
    ) implies x == y by {
        lemma_text_le_antisymmetric(x, y);
    }
    assert forall|x: Seq<char>, y: Seq<char>, z: Seq<char>| #[trigger] leq(x, y) && #[trigger] leq(
        y,
        z,
    ) implies leq(x, z) by {
        lemma_text_le_transitive(x, y, z);
    }
    assert forall|x: Seq<char>, y: Seq<char>| #[trigger] leq(x, y) || #[trigger] leq(y, x) by {
        lemma_text_le_connected(x, y);
    }
}

/// Every list of texts has an ascending order: a list of the same texts,
/// each as often, in which each stands before or with every later one.
pub proof fn lemma_sorted_texts_exist(list: Seq<Seq<char>>)
    ensures
        exists|sorted: Seq<Seq<char>>|
            texts_sorted(sorted) && sorted.to_multiset() == list.to_multiset(),
{
    let leq = |x: Seq<char>, y: Seq<char>| text_le(x, y);
    lemma_text_order_total(leq);
    list.lemma_sort_by_ensures(leq);
    let sorted = list.sort_by(leq);
    assert(vstd::relations::sorted_by(sorted, leq));
    assert(texts_sorted(sorted)) by {
        assert forall|i: int, j: int| 0 <= i < j < sorted.len() implies text_le(
            sorted[i],
            sorted[j],
        ) by {
            assert(leq(sorted[i], sorted[j]));
        }
    }
    assert(sorted.to_multiset() == list.to_multiset());
}

/// A list of texts has one ascending order: two lists of the same texts,
/// each as often in one as in the other, both in ascending order, are the
/// same list.
pub proof fn lemma_sorted_texts_unique(a: Seq<Seq<char>>, b: Seq<Seq<char>>)
    requires
        texts_sorted(a),
        texts_sorted(b),
        a.to_multiset() == b.to_multiset(),
    ensures
        a == b,
{
    let leq = |x: Seq<char>, y: Seq<char>| text_le(x, y);
    lemma_text_order_total(leq);
    assert(vstd::relations::sorted_by(a, leq));
    assert(vstd::relations::sorted_by(b, leq));
    vstd::seq_lib::lemma_sorted_unique(a, b, leq);
}

/// The width of the column at `i`; zero where none is given.
pub open spec fn width_at(widths: Seq<usize>, i: int) -> nat {
    if 0 <= i < widths.len() {
        widths[i] as nat
    } else {
        0
    }
}

/// The first `n` cells of a line of a table: a space, and the cells, each
/// padded to the width of its column, with " | " between them.
pub open spec fn cells_joined(cells: Seq<Seq<char>>, widths: Seq<usize>, n: int) -> Seq<char>
    decreases n,
{
    if n <= 0 {
        seq![' ']
    } else if n == 1 {
        seq![' '] + spec_pad_right(cells[0], width_at(widths, 0))
    } else {
        cells_joined(cells, widths, n - 1) + seq![' ', '|', ' '] + spec_pad_right(
            cells[n - 1],
            width_at(widths, n - 1),
        )
    }
}

/// A line of a table, without the end of the line.
pub open spec fn spec_row(cells: Seq<Seq<char>>, widths: Seq<usize>) -> Seq<char> {
    cells_joined(cells, widths, cells.len() as int)
}

/// Builds a line of a table, without the end of the line.
pub fn row(cells: &Vec<String>, widths: &Vec<usize>) -> (r: String)
    ensures
        r@ == spec_row(texts(cells@), widths@),
{
    proof {
        reveal_strlit(" ");
        reveal_strlit(" | ");
    }
    let mut out = String::from_str(" ");
    assert(out@ =~= cells_joined(texts(cells@), widths@, 0));
    let mut i: usize = 0;
    while i < cells.len()
        invariant
            i <= cells.len(),
            out@ == cells_joined(texts(cells@), widths@, i as int),
        decreases cells.len() - i,
    {
        proof {
            reveal_strlit(" | ");
        }
        if i > 0 {
            out.append(" | ");
        }
        let width: usize = if i < widths.len() {
            widths[i]
        } else {
            0
        };
        let cell = pad_right(cells[i].as_str(), width);
        out.append(cell.as_str());
        assert(texts(cells@)[i as int] == cells@[i as int]@);
        i = i + 1;
        assert(out@ =~= cells_joined(texts(cells@), widths@, i as int));
    }
    out
}

/// `itertools::Itertools::sorted` on the strings of a vector, collected
/// into a vector: the same strings, each as often as before, in ascending
/// order. Strings are ordered byte by byte, which orders their characters
/// by code point.
#[verifier::external_body]
pub(crate) fn sorted_strings(strings: &Vec<String>) -> (r: Vec<String>)
    ensures
        texts(r@).to_multiset() == texts(strings@).to_multiset(),
        texts_sorted(texts(r@)),
{
    strings.iter().cloned().sorted().collect()
}

} // verus!
