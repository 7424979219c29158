//! Character-sequence helpers shared by the grid and the menus.
use vstd::prelude::*;

verus! {

/// The decimal digit `d` (0 through 9) as a character.
pub open spec fn digit_char(d: nat) -> char {
    if d == 0 { '0' }
    else if d == 1 { '1' }
    else if d == 2 { '2' }
    else if d == 3 { '3' }
    else if d == 4 { '4' }
    else if d == 5 { '5' }
    else if d == 6 { '6' }
    else if d == 7 { '7' }
    else if d == 8 { '8' }
    else { '9' }
}

/// The decimal rendering of `n`, without sign or leading zeros.
pub open spec fn decimal(n: nat) -> Seq<char>
    decreases n,
{
    if n < 10 {
        seq![digit_char(n)]
    } else {
        decimal(n / 10).push(digit_char(n % 10))
    }
}

/// A decimal rendering is never empty, and it has one character only below ten.
pub proof fn lemma_decimal_len(n: nat)
    ensures
        decimal(n).len() >= 1,
        decimal(n).len() == 1 <==> n < 10,
    decreases n,
{
    if n >= 10 {
        lemma_decimal_len(n / 10);
    }
}

fn digit(d: usize) -> (c: char)
    requires
        d < 10,
    ensures
        c == digit_char(d as nat),
{
    match d {
        0 => '0',
        1 => '1',
        2 => '2',
        3 => '3',
        4 => '4',
        5 => '5',
        6 => '6',
        7 => '7',
        8 => '8',
        _ => '9',
    }
}

/// The characters of the decimal rendering of `n`.
pub fn decimal_chars(n: usize) -> (res: Vec<char>)
    ensures
        res@ == decimal(n as nat),
    decreases n,
{
    if n < 10 {
        let mut v: Vec<char> = Vec::new();
        v.push(digit(n));
        v
    } else {
        let mut v = decimal_chars(n / 10);
        v.push(digit(n % 10));
        v
    }
}

/// The characters of `s`, in order.
pub fn chars_of(s: &str) -> (res: Vec<char>)
    ensures
        res@ == s@,
{
    let mut res: Vec<char> = Vec::new();
    for c in it: s.chars()
        invariant
            res@ == it.seq().take(it.index() as int),
            it.seq() == s@,
    {
        res.push(c);
    }
    res
}

/// The number of characters of `s`.
pub fn char_count(s: &str) -> (n: usize)
    ensures
        n == s@.len(),
{
    let cs = chars_of(s);
    cs.len()
}

/// Whether two character sequences are equal.
pub fn chars_equal(a: &Vec<char>, b: &Vec<char>) -> (eq: bool)
    ensures
        eq == (a@ == b@),
{
    if a.len() != b.len() {
        return false;
    }
    let n = a.len();
    let mut i: usize = 0;
    while i < n
        invariant
            n == a.len(),
            n == b.len(),
            i <= n,
            forall|j: int| 0 <= j < i ==> a@[j] == b@[j],
        decreases n - i,
    {
        if a[i] != b[i] {
            assert(a@[i as int] != b@[i as int]);
            return false;
        }
        i = i + 1;
    }
    assert(a@ =~= b@);
    true
}

/// Calls `String::push`, which appends `c` to the string.
#[verifier::external_body]
pub(crate) fn push_char(s: &mut String, c: char)
    ensures
        final(s)@ == old(s)@.push(c),
{
    s.push(c);
}

/// Appends the characters of `chars` to `s`.
pub fn push_chars(s: &mut String, chars: &Vec<char>)
    ensures
        final(s)@ == old(s)@ + chars@,
{
    let mut i: usize = 0;
    while i < chars.len()
        invariant
            i <= chars@.len(),
            s@ == old(s)@ + chars@.take(i as int),
        decreases chars.len() - i,
    {
        push_char(s, chars[i]);
        proof {
            assert(chars@.take(i + 1) =~= chars@.take(i as int).push(chars@[i as int]));
        }
        i = i + 1;
    }
    proof {
        assert(chars@.take(chars@.len() as int) =~= chars@);
    }
}

/// Appends `count` copies of `c` to `s`.
pub fn push_repeat(s: &mut String, c: char, count: usize)
    ensures
        final(s)@ == old(s)@ + Seq::new(count as nat, |k: int| c),
{
    let mut i: usize = 0;
    while i < count
        invariant
            i <= count,
            s@ == old(s)@ + Seq::new(i as nat, |k: int| c),
        decreases count - i,
    {
        push_char(s, c);
        proof {
            assert(Seq::new((i + 1) as nat, |k: int| c) =~= Seq::new(i as nat, |k: int| c).push(c));
        }
        i = i + 1;
    }
}

/// `count` spaces.
pub open spec fn spaces(count: int) -> Seq<char> {
    Seq::new(count as nat, |k: int| ' ')
}

/// `text` padded with spaces on the right to `width` characters; longer text is
/// kept whole.
pub open spec fn pad_right(text: Seq<char>, width: int) -> Seq<char> {
    if text.len() >= width {
        text
    } else {
        text + spaces(width - text.len())
    }
}

/// `text` padded with spaces on the left to `width` characters; longer text is
/// kept whole.
pub open spec fn pad_left(text: Seq<char>, width: int) -> Seq<char> {
    if text.len() >= width {
        text
    } else {
        spaces(width - text.len()) + text
    }
}

/// Appends `chars` to `s`, padded with spaces on the right to `width` characters.
pub fn push_padded_right(s: &mut String, chars: &Vec<char>, width: usize)
    ensures
        final(s)@ == old(s)@ + pad_right(chars@, width as int),
{
    push_chars(s, chars);
    if chars.len() < width {
        push_repeat(s, ' ', width - chars.len());
    }
    proof {
        assert(Seq::new((width - chars@.len()) as nat, |k: int| ' ') =~= spaces(width - chars@.len()));
    }
}

/// Appends `chars` to `s`, padded with spaces on the left to `width` characters.
pub fn push_padded_left(s: &mut String, chars: &Vec<char>, width: usize)
    ensures
        final(s)@ == old(s)@ + pad_left(chars@, width as int),
{
    if chars.len() < width {
        push_repeat(s, ' ', width - chars.len());
    }
    push_chars(s, chars);
    proof {
        assert(Seq::new((width - chars@.len()) as nat, |k: int| ' ') =~= spaces(width - chars@.len()));
    }
}

/// One row of a single-line box: `"│ "`, `label` padded on the right to `width`
/// characters, `" │"`; for example `"│ Elf    │"` for width 6.
pub fn boxed_row(label: &str, width: usize) -> (row: String)
    ensures
        row@ == seq!['│', ' '] + pad_right(label@, width as int) + seq![' ', '│'],
{
    let mut row = String::new();
    push_char(&mut row, '│');
    push_char(&mut row, ' ');
    push_padded_right(&mut row, &chars_of(label), width);
    push_char(&mut row, ' ');
    push_char(&mut row, '│');
    proof {
        assert(row@ =~= seq!['│', ' '] + pad_right(label@, width as int) + seq![' ', '│']);
    }
    row
}

} // verus!
