//! Text operations on `str` and `String`, stated over sequences of characters.

use vstd::prelude::*;
use vstd::string::*;

verus! {

/// `piece` stands in `text` from position `at` on.
pub open spec fn occurs_at(text: Seq<char>, piece: Seq<char>, at: int) -> bool {
    &&& 0 <= at
    &&& at + piece.len() <= text.len()
    &&& text.subrange(at, at + piece.len()) == piece
}

/// `piece` stands somewhere in `text`.
pub open spec fn occurs_in(text: Seq<char>, piece: Seq<char>) -> bool {
    exists|at: int| occurs_at(text, piece, at)
}

/// `text` without the run of `c` that it starts with.
pub open spec fn without_leading(text: Seq<char>, c: char) -> Seq<char>
    decreases text.len(),
{
    if text.len() > 0 && text.first() == c {
        without_leading(text.drop_first(), c)
    } else {
        text
    }
}

/// `text` without the run of `c` that it ends with.
pub open spec fn without_trailing(text: Seq<char>, c: char) -> Seq<char>
    decreases text.len(),
{
    if text.len() > 0 && text.last() == c {
        without_trailing(text.drop_last(), c)
    } else {
        text
    }
}

/// The decimal digit of `d`, for `d` below ten.
pub open spec fn digit(d: nat) -> char {
    ('0' as nat + d) as char
}

/// The decimal notation of `n`, without leading zeros.
pub open spec fn decimal(n: nat) -> Seq<char>
    decreases n,
{
    if n < 10 {
        seq![digit(n)]
    } else {
        decimal(n / 10).push(digit(n % 10))
    }
}

/// An optional text as an optional sequence of characters.
pub open spec fn text_view(text: Option<String>) -> Option<Seq<char>> {
    match text {
        Some(text) => Some(text@),
        None => None,
    }
}

/// What `str::to_lowercase` makes of a text.
pub uninterp spec fn lowercase(text: Seq<char>) -> Seq<char>;

/// The lower case letter of an ASCII letter; any other character as it is.
pub open spec fn ascii_lowercase(c: char) -> char {
    if 'A' <= c && c <= 'Z' {
        (c as nat + 32) as char
    } else {
        c
    }
}

/// `text` with its ASCII letters in lower case.
pub open spec fn ascii_lowered(text: Seq<char>) -> Seq<char> {
    text.map_values(|c: char| ascii_lowercase(c))
}

/// Every character of `text` is an ASCII character.
pub open spec fn all_ascii(text: Seq<char>) -> bool {
    forall|i: int| 0 <= i < text.len() ==> #[trigger] text[i] as nat <= 0x7f
}

/// The standard library's `str::to_lowercase`, which follows Unicode. What it
/// returns depends on the text alone. On a text of ASCII characters it changes
/// the letters `A` to `Z` to `a` to `z` and nothing else. Nothing is claimed of
/// other texts.
#[verifier::external_body]
pub(crate) fn to_lowercase(text: &str) -> (lower: String)
    ensures
        lower@ == lowercase(text@),
        all_ascii(text@) ==> lower@ == ascii_lowered(text@),
{
    text.to_lowercase()
}

/// The characters of `text`, in order.
pub(crate) fn chars_of(text: &str) -> (chars: Vec<char>)
    ensures
        chars@ == text@,
{
    let mut chars: Vec<char> = Vec::new();
    for c in it: text.chars()
        invariant
            it.seq() == text@,
            chars@ == it.seq().take(it.index()),
    {
        chars.push(c);
    }
    chars
}

/// Whether the characters of `piece` stand in `text` from position `at` on.
fn matches_at(text: &Vec<char>, piece: &Vec<char>, at: usize) -> (found: bool)
    requires
        at + piece.len() <= text.len(),
    ensures
        found == occurs_at(text@, piece@, at as int),
{
    let mut i: usize = 0;
    while i < piece.len()
        invariant
            i <= piece.len(),
            at + piece.len() <= text.len(),
            forall|j: int| 0 <= j < i ==> text@[at + j] == #[trigger] piece@[j],
        decreases piece@.len() - i,
    {
        if text[at + i] != piece[i] {
            proof {
                let window = text@.subrange(at as int, at + piece@.len());
                assert(window[i as int] != piece@[i as int]);
            }
            return false;
        }
        i += 1;
    }
    assert(text@.subrange(at as int, at + piece@.len()) =~= piece@);
    true
}

/// Whether `piece` stands somewhere in `text`.
pub fn contains(text: &str, piece: &str) -> (found: bool)
    ensures
        found == occurs_in(text@, piece@),
{
    let text_chars = chars_of(text);
    let piece_chars = chars_of(piece);
    if piece_chars.len() > text_chars.len() {
        return false;
    }
    let last: usize = text_chars.len() - piece_chars.len();
    let mut at: usize = 0;
    loop
        invariant
            at <= last,
            last + piece_chars@.len() == text_chars@.len(),
            text_chars@ == text@,
            piece_chars@ == piece@,
            forall|k: int| 0 <= k < at ==> !occurs_at(text@, piece@, k),
        decreases last - at,
    {
        if matches_at(&text_chars, &piece_chars, at) {
            return true;
        }
        if at == last {
            return false;
        }
        at += 1;
    }
}

/// Whether `text` starts with `piece`.
pub fn starts_with(text: &str, piece: &str) -> (found: bool)
    ensures
        found == piece@.is_prefix_of(text@),
{
    let text_chars = chars_of(text);
    let piece_chars = chars_of(piece);
    if piece_chars.len() > text_chars.len() {
        return false;
    }
    matches_at(&text_chars, &piece_chars, 0)
}

/// `text` without the run of `c` that it starts with.
pub fn trim_start<'a>(text: &'a str, c: char) -> (rest: &'a str)
    ensures
        rest@ == without_leading(text@, c),
{
    let chars = chars_of(text);
    let mut from: usize = 0;
    assert(text@.skip(0) =~= text@);
    while from < chars.len() && chars[from] == c
        invariant
            from <= chars@.len(),
            chars@ == text@,
            without_leading(text@.skip(from as int), c) == without_leading(text@, c),
        decreases chars@.len() - from,
    {
        assert(text@.skip(from as int).drop_first() =~= text@.skip(from + 1));
        from += 1;
    }
    assert(text@.skip(from as int) =~= text@.subrange(from as int, text@.len() as int));
    text.substring_char(from, chars.len())
}

/// `text` without the run of `c` that it ends with.
pub fn trim_end<'a>(text: &'a str, c: char) -> (rest: &'a str)
    ensures
        rest@ == without_trailing(text@, c),
{
    let chars = chars_of(text);
    let mut to: usize = chars.len();
    assert(text@.take(to as int) =~= text@);
    while to > 0 && chars[to - 1] == c
        invariant
            to <= chars@.len(),
            chars@ == text@,
            without_trailing(text@.take(to as int), c) == without_trailing(text@, c),
        decreases to,
    {
        assert(text@.take(to as int).drop_last() =~= text@.take(to - 1));
        to -= 1;
    }
    assert(text@.take(to as int) =~= text@.subrange(0, to as int));
    text.substring_char(0, to)
}

/// The decimal digit of `d` as a text.
fn digit_text(d: u16) -> (text: &'static str)
    requires
        d < 10,
    ensures
        text@ == seq![digit(d as nat)],
{
    proof {
        reveal_strlit("0");
        reveal_strlit("1");
        reveal_strlit("2");
        reveal_strlit("3");
        reveal_strlit("4");
        reveal_strlit("5");
        reveal_strlit("6");
        reveal_strlit("7");
        reveal_strlit("8");
        reveal_strlit("9");
    }
    match d {
        0 => "0",
        1 => "1",
        2 => "2",
        3 => "3",
        4 => "4",
        5 => "5",
        6 => "6",
        7 => "7",
        8 => "8",
        _ => "9",
    }
}

/// The decimal notation of `n`.
pub fn decimal_text(n: u16) -> (text: String)
    ensures
        text@ == decimal(n as nat),
    decreases n,
{
    if n < 10 {
        digit_text(n).to_string()
    } else {
        let mut text = decimal_text(n / 10);
        text.append(digit_text(n % 10));
        assert(text@ =~= decimal(n as nat));
        text
    }
}

/// `head` followed by `tail`.
pub fn joined(head: &str, tail: &str) -> (text: String)
    ensures
        text@ == head@ + tail@,
{
    let mut text = head.to_string();
    text.append(tail);
    text
}

/// A copy of an optional text.
pub(crate) fn copy_text(text: &Option<String>) -> (copy: Option<String>)
    ensures
        copy == *text,
{
    match text {
        Some(text) => Some(text.clone()),
        None => None,
    }
}

/// A text holds a piece exactly if it can be cut so that the piece lies between
/// the cuts.
pub proof fn law_pieces_lie_between_cuts(text: Seq<char>, piece: Seq<char>)
    ensures
        occurs_in(text, piece) <==> exists|before: Seq<char>, after: Seq<char>|
            text == #[trigger] (before + piece + after),
{
    if occurs_in(text, piece) {
        let at = choose|at: int| occurs_at(text, piece, at);
        let before = text.take(at);
        let after = text.skip(at + piece.len());
        assert(text =~= before + text.subrange(at, at + piece.len()) + after);
        assert(text == before + piece + after);
    }
    if exists|before: Seq<char>, after: Seq<char>| text == #[trigger] (before + piece + after) {
        let (before, after) = choose|before: Seq<char>, after: Seq<char>|
            text == #[trigger] (before + piece + after);
        let at = before.len() as int;
        assert(text.subrange(at, at + piece.len()) =~= piece);
        assert(occurs_at(text, piece, at));
    }
}

/// Trimming the start of a text cuts off occurrences of the character only, and
/// all those at the start.
pub proof fn law_trimming_the_start(text: Seq<char>, c: char)
    ensures
        ({
            let rest = without_leading(text, c);
            let cut = text.len() - rest.len();
            &&& 0 <= cut
            &&& rest == text.subrange(cut, text.len() as int)
            &&& forall|i: int| 0 <= i < cut ==> #[trigger] text[i] == c
            &&& rest.len() > 0 ==> rest[0] != c
        }),
    decreases text.len(),
{
    if text.len() > 0 && text.first() == c {
        let tail = text.drop_first();
        law_trimming_the_start(tail, c);
        let rest = without_leading(text, c);
        let cut = text.len() - rest.len();
        assert(rest =~= text.subrange(cut, text.len() as int));
        assert forall|i: int| 0 <= i < cut implies #[trigger] text[i] == c by {
            if i > 0 {
                assert(tail[i - 1] == c);
            }
        }
    } else {
        assert(text =~= text.subrange(0, text.len() as int));
    }
}

/// Trimming the end of a text cuts off occurrences of the character only, and all
/// those at the end.
pub proof fn law_trimming_the_end(text: Seq<char>, c: char)
    ensures
        ({
            let rest = without_trailing(text, c);
            &&& rest.len() <= text.len()
            &&& rest == text.subrange(0, rest.len() as int)
            &&& forall|i: int| rest.len() <= i < text.len() ==> #[trigger] text[i] == c
            &&& rest.len() > 0 ==> rest[rest.len() - 1] != c
        }),
    decreases text.len(),
{
    if text.len() > 0 && text.last() == c {
        let head = text.drop_last();
        law_trimming_the_end(head, c);
        let rest = without_trailing(text, c);
        assert(rest =~= text.subrange(0, rest.len() as int));
        assert forall|i: int| rest.len() <= i < text.len() implies #[trigger] text[i] == c by {
            if i < head.len() {
                assert(head[i] == c);
            }
        }
    } else {
        assert(text =~= text.subrange(0, text.len() as int));
    }
}

/// The number that decimal digits stand for.
pub open spec fn decimal_value(digits: Seq<char>) -> int
    decreases digits.len(),
{
    if digits.len() == 0 {
        0
    } else {
        10 * decimal_value(digits.drop_last()) + (digits.last() as int - '0' as int)
    }
}

/// The decimal notation of a number consists of digits, has no zero in front, and
/// stands for the number.
pub proof fn law_decimal_reads_back(n: nat)
    ensures
        decimal_value(decimal(n)) == n,
        decimal(n).len() > 0,
        forall|i: int| 0 <= i < decimal(n).len() ==> '0' <= #[trigger] decimal(n)[i] <= '9',
        decimal(n).len() > 1 ==> decimal(n)[0] != '0',
        n < 10 ==> decimal(n).len() == 1,
    decreases n,
{
    reveal_with_fuel(decimal_value, 2);
    if n < 10 {
        assert(decimal(n).drop_last() =~= Seq::<char>::empty());
    } else {
        law_decimal_reads_back(n / 10);
        assert(decimal(n).drop_last() =~= decimal(n / 10));
        assert(decimal(n)[0] == decimal(n / 10)[0]);
        assert(decimal(n / 10)[0] != '0') by {
            if decimal(n / 10).len() == 1 {
                assert(decimal(n / 10).drop_last() =~= Seq::<char>::empty());
            }
        }
    }
}

/// Lower case changes the letters `A` to `Z` only, each to the letter at the same
/// place from `a` on, and leaves none of them.
pub proof fn law_ascii_lower_case(text: Seq<char>)
    ensures
        ascii_lowered(text).len() == text.len(),
        forall|i: int|
            0 <= i < text.len() ==> {
                let (before, after) = (text[i], #[trigger] ascii_lowered(text)[i]);
                &&& !('A' <= after && after <= 'Z')
                &&& !('A' <= before && before <= 'Z') ==> after == before
                &&& 'A' <= before && before <= 'Z' ==> after as int - 'a' as int == before as int
                    - 'A' as int
            },
{
}

/// The texts of ASCII characters are those whose characters all have numbers below
/// 128.
pub proof fn law_ascii_texts(text: Seq<char>)
    ensures
        all_ascii(text) <==> forall|i: int| 0 <= i < text.len() ==> ((#[trigger] text[i]) as nat) < 128,
{
}

} // verus!
