//! Text that the wire format is made of: decimal numbers and joined lists.

use vstd::prelude::*;
use vstd::string::StringExecFns;

verus! {

/// The characters of a string that may be absent.
pub open spec fn str_view(s: Option<&str>) -> Option<Seq<char>> {
    match s {
        Some(text) => Some(text@),
        None => None,
    }
}

/// The characters of an owned string that may be absent.
pub open spec fn string_view(s: Option<String>) -> Option<Seq<char>> {
    match s {
        Some(text) => Some(text@),
        None => None,
    }
}

/// The decimal digit for `d`, which is less than ten.
pub open spec fn digit(d: nat) -> char {
    seq!['0', '1', '2', '3', '4', '5', '6', '7', '8', '9'][d as int]
}

/// The decimal notation of `n`: no sign, no leading zero but for zero itself.
pub open spec fn decimal(n: nat) -> Seq<char>
    decreases n,
{
    if n < 10 {
        seq![digit(n)]
    } else {
        decimal(n / 10).push(digit(n % 10))
    }
}

/// The decimal notation of `i`, with a minus sign in front of a negative number.
pub open spec fn signed_decimal(i: int) -> Seq<char> {
    if i < 0 {
        seq!['-'] + decimal((-i) as nat)
    } else {
        decimal(i as nat)
    }
}

/// The parts in order, with the separator between each two of them.
pub open spec fn join(parts: Seq<Seq<char>>, sep: Seq<char>) -> Seq<char>
    decreases parts.len(),
{
    if parts.len() == 0 {
        Seq::empty()
    } else if parts.len() == 1 {
        parts[0]
    } else {
        join(parts.drop_last(), sep) + sep + parts.last()
    }
}

/// The lines in order, each followed by a line feed.
pub open spec fn unlines(lines: Seq<Seq<char>>) -> Seq<char>
    decreases lines.len(),
{
    if lines.len() == 0 {
        Seq::empty()
    } else {
        unlines(lines.drop_last()) + lines.last() + "\n"@
    }
}

/// One line is written as the line and a line feed.
pub proof fn lemma_unlines_one(a: Seq<char>)
    ensures
        unlines(seq![a]) == a + "\n"@,
{
    assert(seq![a].drop_last() =~= Seq::<Seq<char>>::empty());
    assert(unlines(seq![a].drop_last()) =~= Seq::<char>::empty());
    assert(unlines(seq![a]) =~= a + "\n"@);
}

/// Two lines are written one after the other, each with its line feed.
pub proof fn lemma_unlines_two(a: Seq<char>, b: Seq<char>)
    ensures
        unlines(seq![a, b]) == a + "\n"@ + b + "\n"@,
{
    let lines = seq![a, b];
    assert(lines.drop_last() =~= seq![a]);
    lemma_unlines_one(a);
    assert(unlines(lines) =~= a + "\n"@ + b + "\n"@);
}

/// Breaking a list of lines in two and writing each half gives the same text.
pub proof fn lemma_unlines_concat(a: Seq<Seq<char>>, b: Seq<Seq<char>>)
    ensures
        unlines(a + b) == unlines(a) + unlines(b),
    decreases b.len(),
{
    if b.len() == 0 {
        assert(a + b =~= a);
    } else {
        lemma_unlines_concat(a, b.drop_last());
        assert((a + b).drop_last() =~= a + b.drop_last());
        assert((a + b).last() == b.last());
    }
}

/// How often a character stands in a text.
pub open spec fn occurrences(text: Seq<char>, c: char) -> nat
    decreases text.len(),
{
    if text.len() == 0 {
        0
    } else {
        occurrences(text.drop_last(), c) + if text.last() == c {
            1nat
        } else {
            0nat
        }
    }
}

/// A character stands in two texts put together as often as in both.
pub proof fn lemma_occurrences_concat(a: Seq<char>, b: Seq<char>, c: char)
    ensures
        occurrences(a + b, c) == occurrences(a, c) + occurrences(b, c),
    decreases b.len(),
{
    if b.len() == 0 {
        assert(a + b =~= a);
    } else {
        lemma_occurrences_concat(a, b.drop_last(), c);
        assert((a + b).drop_last() =~= a + b.drop_last());
        assert((a + b).last() == b.last());
    }
}

/// A character that a text does not hold stands in it no times.
pub proof fn lemma_occurrences_none(text: Seq<char>, c: char)
    requires
        !text.contains(c),
    ensures
        occurrences(text, c) == 0,
    decreases text.len(),
{
    if text.len() > 0 {
        assert(text[text.len() - 1] == text.last());
        assert forall|i: int| 0 <= i < text.drop_last().len() implies text.drop_last()[i] != c by {
            assert(text.drop_last()[i] == text[i]);
        }
        lemma_occurrences_none(text.drop_last(), c);
    }
}

/// Lines that hold no line feed are found again in their text: it has
/// exactly one line feed for each line, the one that ends it.
pub proof fn lemma_line_feeds(lines: Seq<Seq<char>>)
    requires
        forall|i: int| 0 <= i < lines.len() ==> !(#[trigger] lines[i]).contains('\n'),
    ensures
        occurrences(unlines(lines), '\n') == lines.len(),
    decreases lines.len(),
{
    if lines.len() > 0 {
        let before = lines.drop_last();
        assert forall|i: int| 0 <= i < before.len() implies !(#[trigger] before[i]).contains(
            '\n',
        ) by {
            assert(before[i] == lines[i]);
        }
        lemma_line_feeds(before);
        reveal_strlit("\n");
        assert("\n"@ =~= seq!['\n']);
        assert(lines.last() == lines[lines.len() - 1]);
        lemma_occurrences_none(lines.last(), '\n');
        lemma_occurrences_concat(unlines(before), lines.last(), '\n');
        lemma_occurrences_concat(unlines(before) + lines.last(), "\n"@, '\n');
        assert(seq!['\n'].drop_last() =~= Seq::<char>::empty());
        assert(occurrences(seq!['\n'], '\n') == 1) by {
            assert(seq!['\n'].last() == '\n');
            assert(occurrences(seq!['\n'].drop_last(), '\n') == 0);
        }
    }
}

fn digit_text(d: u64) -> (r: &'static str)
    requires
        d < 10,
    ensures
        r@ == seq![digit(d as nat)],
{
    proof {
        reveal_strlit("0");
        reveal_strlit("1");
        reveal_strlit("2");
        reveal_strlit("3");
        reveal_strlit("4");
        reveal_strlit("5");
        reveal_strlit("6");
        reveal_strlit("7");
        reveal_strlit("8");
        reveal_strlit("9");
    }
    let r = if d == 0 {
        "0"
    } else if d == 1 {
        "1"
    } else if d == 2 {
        "2"
    } else if d == 3 {
        "3"
    } else if d == 4 {
        "4"
    } else if d == 5 {
        "5"
    } else if d == 6 {
        "6"
    } else if d == 7 {
        "7"
    } else if d == 8 {
        "8"
    } else {
        "9"
    };
    assert(r@ =~= seq![digit(d as nat)]);
    r
}

/// Appends the decimal notation of `n` to `out`.
pub fn push_decimal(out: &mut String, n: u64)
    ensures
        final(out)@ == old(out)@ + decimal(n as nat),
    decreases n,
{
    if n >= 10 {
        push_decimal(out, n / 10);
    }
    out.append(digit_text(n % 10));
    assert(out@ =~= old(out)@ + decimal(n as nat));
}

/// Appends the decimal notation of `i` to `out`, with its sign if it is negative.
pub fn push_signed_decimal(out: &mut String, i: i64)
    ensures
        final(out)@ == old(out)@ + signed_decimal(i as int),
{
    if i < 0 {
        proof {
            reveal_strlit("-");
        }
        out.append("-");
        let below: u64 = (-(i + 1)) as u64;
        push_decimal(out, below + 1);
        assert(out@ =~= old(out)@ + signed_decimal(i as int));
    } else {
        push_decimal(out, i as u64);
    }
}

/// The decimal notation of `n` as a string of its own.
pub fn decimal_string(n: u64) -> (r: String)
    ensures
        r@ == decimal(n as nat),
{
    let mut out = String::new();
    push_decimal(&mut out, n);
    assert(out@ =~= decimal(n as nat));
    out
}

/// Borrows the characters of an owned string that may be absent.
pub fn borrowed(s: &Option<String>) -> (r: Option<&str>)
    ensures
        str_view(r) == string_view(*s),
{
    match s {
        Some(text) => Some(text.as_str()),
        None => None,
    }
}

/// Appends a line to `out`: the text, then a line feed.
pub fn push_line(out: &mut String, line: &str)
    ensures
        final(out)@ == old(out)@ + line@ + "\n"@,
{
    out.append(line);
    out.append("\n");
}

/// Whether two strings hold the same characters.
pub fn same_text(a: &str, b: &str) -> (r: bool)
    ensures
        r == (a@ == b@),
{
    a.to_owned() == b.to_owned()
}

/// Appends one more part to a joined list that `out` ends with.
///
/// `first` says that the list is empty so far; the ghost arguments name the
/// text in front of the list and the parts already written.
pub(crate) fn push_part(
    out: &mut String,
    first: bool,
    sep: &str,
    part: &str,
    Ghost(front): Ghost<Seq<char>>,
    Ghost(parts): Ghost<Seq<Seq<char>>>,
)
    requires
        old(out)@ == front + join(parts, sep@),
        first == (parts.len() == 0),
    ensures
        final(out)@ == front + join(parts.push(part@), sep@),
{
    if !first {
        out.append(sep);
    }
    out.append(part);
    proof {
        let more = parts.push(part@);
        assert(more.drop_last() =~= parts);
        assert(out@ =~= front + join(more, sep@));
    }
}

} // verus!
