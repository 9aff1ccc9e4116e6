//! Text as sequences of characters: building, joining, ordering and searching.

use vstd::prelude::*;
use vstd::string::*;

verus! {

/// The texts of a list of strings.
pub open spec fn texts(list: Seq<String>) -> Seq<Seq<char>> {
    list.map_values(|s: String| s@)
}

/// `parts` one after another, with `separator` between each two neighbours.
pub open spec fn joined(parts: Seq<Seq<char>>, separator: Seq<char>) -> Seq<char>
    decreases parts.len(),
{
    if parts.len() == 0 {
        seq![]
    } else if parts.len() == 1 {
        parts[0]
    } else {
        joined(parts.drop_last(), separator) + separator + parts.last()
    }
}

/// `parts` one after another.
pub open spec fn concatenated(parts: Seq<Seq<char>>) -> Seq<char>
    decreases parts.len(),
{
    if parts.len() == 0 {
        seq![]
    } else {
        concatenated(parts.drop_last()) + parts.last()
    }
}

/// The character of a decimal digit.
pub open spec fn digit(d: nat) -> char {
    (48 + d) as char
}

/// `n` in decimal digits, without leading zeros.
pub open spec fn decimal(n: nat) -> Seq<char>
    decreases n,
{
    if n < 10 {
        seq![digit(n)]
    } else {
        decimal(n / 10).push(digit(n % 10))
    }
}

/// `s` filled up with spaces on the right to `width` characters.
pub open spec fn padded(s: Seq<char>, width: nat) -> Seq<char> {
    if s.len() >= width {
        s
    } else {
        s + Seq::new((width - s.len()) as nat, |i: int| ' ')
    }
}

/// Whether `a` comes strictly before `b` in dictionary order of code points.
pub open spec fn before(a: Seq<char>, b: Seq<char>) -> bool
    decreases a.len(),
{
    if b.len() == 0 {
        false
    } else if a.len() == 0 {
        true
    } else if a[0] != b[0] {
        (a[0] as int) < (b[0] as int)
    } else {
        before(a.drop_first(), b.drop_first())
    }
}

/// Dictionary order puts no text before itself, never two texts each before the other, and
/// of two different texts one before the other.
pub proof fn before_is_strict(a: Seq<char>, b: Seq<char>)
    ensures
        !before(a, a),
        !(before(a, b) && before(b, a)),
        a != b ==> before(a, b) || before(b, a),
    decreases a.len(),
{
    if a.len() > 0 {
        before_is_strict(a.drop_first(), a.drop_first());
    }
    if a.len() > 0 && b.len() > 0 && a[0] == b[0] {
        before_is_strict(a.drop_first(), b.drop_first());
        if a.drop_first() == b.drop_first() {
            assert(a == seq![a[0]] + a.drop_first());
            assert(b == seq![b[0]] + b.drop_first());
        }
    }
    if a.len() == 0 && b.len() == 0 {
        assert(a == b);
    }
    if a.len() > 0 && b.len() > 0 && a[0] != b[0] {
        assert(a[0] as int != b[0] as int);
    }
}

/// Dictionary order is transitive.
pub proof fn before_is_transitive(a: Seq<char>, b: Seq<char>, c: Seq<char>)
    requires
        before(a, b),
        before(b, c),
    ensures
        before(a, c),
    decreases a.len(),
{
    if a.len() > 0 && a[0] == b[0] && b[0] == c[0] {
        before_is_transitive(a.drop_first(), b.drop_first(), c.drop_first());
    }
}

/// Whether `needle` occurs in `hay` as a block of neighbouring characters.
pub open spec fn occurs_in(needle: Seq<char>, hay: Seq<char>) -> bool {
    exists|i: int|
        0 <= i && i + needle.len() <= hay.len() && #[trigger] hay.subrange(i, i + needle.len())
            == needle
}

/// Control characters: the code points below the space, and from delete up to 9F.
pub open spec fn control(c: char) -> bool {
    (c as u32) < 0x20 || 0x7f <= (c as u32) <= 0x9f
}

/// The Unicode lowercase equivalent of a text.
pub uninterp spec fn lowercase(s: Seq<char>) -> Seq<char>;

/// `str::to_lowercase` of std. Its result depends on the text alone, and an empty text
/// stays empty.
#[verifier::external_body]
pub(crate) fn to_lowercase(s: &str) -> (lower: String)
    ensures
        lower@ == lowercase(s@),
        s@.len() == 0 ==> lower@.len() == 0,
{
    s.to_lowercase()
}

/// `String::push` of std appends one character at the end.
pub assume_specification[ String::push ](s: &mut String, ch: char)
    ensures
        final(s)@ == old(s)@.push(ch),
;

/// `String::pop` of std takes the last character off and returns it; an empty string stays
/// as it is and gives `None`.
pub assume_specification[ String::pop ](s: &mut String) -> (ch: Option<char>)
    ensures
        old(s)@.len() == 0 ==> final(s)@ == old(s)@ && ch is None,
        old(s)@.len() > 0 ==> final(s)@ == old(s)@.drop_last() && ch == Some(old(s)@.last()),
;

/// Whether `c` is a control character.
pub fn is_control(c: char) -> (yes: bool)
    ensures
        yes == control(c),
{
    let code: u32 = c as u32;
    code < 0x20 || (0x7f <= code && code <= 0x9f)
}

/// The characters of `s`, in order.
pub fn characters(s: &str) -> (list: Vec<char>)
    ensures
        list@ == s@,
{
    let mut list: Vec<char> = Vec::new();
    for c in it: s.chars()
        invariant
            it.seq() == s@,
            list@ == s@.take(it.index()),
    {
        list.push(c);
    }
    assert(s@.take(s@.len() as int) == s@);
    list
}

/// The strings of `parts` one after another, with `separator` between them.
pub fn join_strings(parts: &Vec<String>, separator: &str) -> (text: String)
    ensures
        text@ == joined(texts(parts@), separator@),
{
    let mut text = String::new();
    let ghost all = texts(parts@);
    let mut i: usize = 0;
    while i < parts.len()
        invariant
            i <= parts@.len(),
            all == texts(parts@),
            text@ == joined(all.take(i as int), separator@),
        decreases parts@.len() - i,
    {
        proof {
            assert(all.take(i + 1).drop_last() == all.take(i as int));
            assert(all.take(i + 1).last() == parts@[i as int]@);
            assert(i == 0 ==> text@ == Seq::<char>::empty());
        }
        if i > 0 {
            text.append(separator);
        }
        text.append(parts[i].as_str());
        i = i + 1;
    }
    assert(all.take(parts@.len() as int) == all);
    text
}

/// `n` in decimal digits.
pub fn decimal_text(n: usize) -> (text: String)
    ensures
        text@ == decimal(n as nat),
    decreases n,
{
    let low: u8 = (n % 10) as u8;
    let last: char = (48u8 + low) as char;
    if n < 10 {
        let mut text = String::new();
        text.push(last);
        text
    } else {
        let mut text = decimal_text(n / 10);
        text.push(last);
        text
    }
}

/// `s` filled up with spaces on the right to `width` characters.
pub fn pad_right(s: &str, width: usize) -> (text: String)
    ensures
        text@ == padded(s@, width as nat),
{
    let mut text = s.to_owned();
    let mut length: usize = s.unicode_len();
    while length < width
        invariant
            length == text@.len(),
            s@.len() <= length,
            s@.len() < width ==> length <= width,
            s@.len() >= width ==> length == s@.len(),
            text@ == s@ + Seq::new((length - s@.len()) as nat, |i: int| ' '),
        decreases width - length,
    {
        text.push(' ');
        length = length + 1;
    }
    text
}

/// Whether the two texts are the same.
pub fn same_text(a: &str, b: &str) -> (yes: bool)
    ensures
        yes == (a@ == b@),
{
    a.to_owned() == b.to_owned()
}

/// Whether `a` comes strictly before `b` in dictionary order of code points.
pub fn is_before(a: &str, b: &str) -> (yes: bool)
    ensures
        yes == before(a@, b@),
{
    let left = characters(a);
    let right = characters(b);
    let mut i: usize = 0;
    assert(left@.skip(0) == a@ && right@.skip(0) == b@);
    while i < left.len() && i < right.len() && left[i] == right[i]
        invariant
            left@ == a@,
            right@ == b@,
            i <= left@.len(),
            i <= right@.len(),
            before(a@, b@) == before(left@.skip(i as int), right@.skip(i as int)),
        decreases left@.len() - i,
    {
        assert(left@.skip(i as int).drop_first() == left@.skip(i + 1));
        assert(right@.skip(i as int).drop_first() == right@.skip(i + 1));
        i = i + 1;
    }
    if i >= right.len() {
        false
    } else if i >= left.len() {
        true
    } else {
        let (x, y): (char, char) = (left[i], right[i]);
        x < y
    }
}

/// Whether `needle` occurs in `hay`.
pub fn contains_text(hay: &str, needle: &str) -> (yes: bool)
    ensures
        yes == occurs_in(needle@, hay@),
{
    let h = characters(hay);
    let n = characters(needle);
    if n.len() > h.len() {
        return false;
    }
    let last: usize = h.len() - n.len();
    let mut i: usize = 0;
    while i <= last
        invariant
            h@ == hay@,
            n@ == needle@,
            last == h@.len() - n@.len(),
            i <= last + 1,
            forall|k: int|
                0 <= k < i ==> #[trigger] hay@.subrange(k, k + needle@.len()) != needle@,
        decreases last + 1 - i,
    {
        let mut j: usize = 0;
        while j < n.len() && h[i + j] == n[j]
            invariant
                i + n@.len() <= h.len(),
                j <= n@.len(),
                forall|k: int| 0 <= k < j ==> h@[i + k] == n@[k],
            decreases n@.len() - j,
        {
            j = j + 1;
        }
        let ghost block = hay@.subrange(i as int, i + needle@.len());
        if j == n.len() {
            assert(block == needle@);
            return true;
        }
        assert(block[j as int] != needle@[j as int]);
        if i == last {
            return false;
        }
        i = i + 1;
    }
    false
}

/// Of two texts that first differ at some place, the one with the smaller character there comes
/// first; a text comes before every longer text that starts with it.
pub proof fn first_difference_decides(a: Seq<char>, b: Seq<char>, i: int)
    requires
        0 <= i <= a.len(),
        i < b.len(),
        a.take(i) == b.take(i),
        i < a.len() ==> (a[i] as int) < (b[i] as int),
    ensures
        before(a, b),
        !before(b, a),
    decreases i,
{
    before_is_strict(a, b);
    if i > 0 {
        assert(a[0] == a.take(i)[0] && b[0] == b.take(i)[0]);
        assert(a.drop_first().take(i - 1) == a.take(i).drop_first());
        assert(b.drop_first().take(i - 1) == b.take(i).drop_first());
        first_difference_decides(a.drop_first(), b.drop_first(), i - 1);
    }
}

/// A text occurs wherever it stands: at the start, in the middle and at the end.
pub proof fn what_stands_in_a_text_occurs(a: Seq<char>, needle: Seq<char>, c: Seq<char>)
    ensures
        occurs_in(needle, a + needle + c),
{
    let hay = a + needle + c;
    let i = a.len() as int;
    assert(hay.subrange(i, i + needle.len()) == needle);
}

/// What occurs in a text stands in it, with something before and something behind it.
pub proof fn what_occurs_stands_in_the_text(needle: Seq<char>, hay: Seq<char>)
    requires
        occurs_in(needle, hay),
    ensures
        exists|a: Seq<char>, c: Seq<char>| hay == #[trigger] (a + needle + c),
{
    let i = choose|i: int|
        0 <= i && i + needle.len() <= hay.len() && #[trigger] hay.subrange(i, i + needle.len())
            == needle;
    let (a, c) = (hay.take(i), hay.skip(i + needle.len()));
    assert(hay == a + needle + c);
}

/// What occurs in a part of a text occurs in the text.
pub proof fn occurring_carries_over(needle: Seq<char>, a: Seq<char>, part: Seq<char>, c: Seq<char>)
    requires
        occurs_in(needle, part),
    ensures
        occurs_in(needle, a + part + c),
{
    what_occurs_stands_in_the_text(needle, part);
    let (x, y) = choose|x: Seq<char>, y: Seq<char>| part == #[trigger] (x + needle + y);
    what_stands_in_a_text_occurs(a + x, needle, y + c);
    assert(a + part + c == (a + x) + needle + (y + c));
}

/// Joining nothing gives nothing, joining one part gives that part, and joining two lists
/// puts the separator once between what each of them gives.
pub proof fn joining_separates_neighbours(
    a: Seq<Seq<char>>,
    b: Seq<Seq<char>>,
    part: Seq<char>,
    separator: Seq<char>,
)
    requires
        a.len() > 0,
        b.len() > 0,
    ensures
        joined(Seq::empty(), separator) == Seq::<char>::empty(),
        joined(seq![part], separator) == part,
        joined(a + b, separator) == joined(a, separator) + separator + joined(b, separator),
    decreases b.len(),
{
    if b.len() == 1 {
        assert((a + b).drop_last() == a);
        assert((a + b).last() == b[0]);
    } else {
        joining_separates_neighbours(a, b.drop_last(), part, separator);
        assert((a + b).drop_last() == a + b.drop_last());
        assert((a + b).last() == b.last());
        assert(joined(a + b, separator) == joined(a, separator) + separator + joined(
            b,
            separator,
        ));
    }
}

/// Every part of a list occurs in what joining the list gives.
pub proof fn every_joined_part_occurs(parts: Seq<Seq<char>>, separator: Seq<char>, i: int)
    requires
        0 <= i < parts.len(),
    ensures
        occurs_in(parts[i], joined(parts, separator)),
    decreases parts.len(),
{
    let none = Seq::<char>::empty();
    if parts.len() == 1 {
        what_stands_in_a_text_occurs(none, parts[0], none);
        assert(none + parts[0] + none == parts[0]);
    } else {
        let front = joined(parts.drop_last(), separator);
        if i == parts.len() - 1 {
            what_stands_in_a_text_occurs(front + separator, parts[i], none);
            assert(front + separator + parts[i] + none == joined(parts, separator));
        } else {
            every_joined_part_occurs(parts.drop_last(), separator, i);
            occurring_carries_over(parts[i], none, front, separator + parts.last());
            assert(none + front + (separator + parts.last()) == joined(parts, separator));
        }
    }
}

/// Putting texts one after another keeps each list whole.
pub proof fn concatenating_keeps_order(
    a: Seq<Seq<char>>,
    b: Seq<Seq<char>>,
    part: Seq<char>,
)
    ensures
        concatenated(Seq::empty()) == Seq::<char>::empty(),
        concatenated(seq![part]) == part,
        concatenated(a + b) == concatenated(a) + concatenated(b),
    decreases b.len(),
{
    let one = seq![part];
    assert(one.drop_last() == Seq::<Seq<char>>::empty());
    assert(concatenated(one.drop_last()) == Seq::<char>::empty());
    assert(concatenated(one) == part);
    if b.len() == 0 {
        assert(a + b == a);
    } else {
        concatenating_keeps_order(a, b.drop_last(), part);
        assert((a + b).drop_last() == a + b.drop_last());
        assert((a + b).last() == b.last());
        assert(concatenated(a + b) == concatenated(a) + concatenated(b));
    }
}

/// The number that a text of digits stands for.
pub open spec fn number(digits: Seq<char>) -> int
    decreases digits.len(),
{
    if digits.len() == 0 {
        0
    } else {
        10 * number(digits.drop_last()) + (digits.last() as int - '0' as int)
    }
}

/// A number in decimal consists of digits, stands for the number, and starts with a zero only
/// where it is zero.
pub proof fn decimal_stands_for_the_number(n: nat)
    ensures
        decimal(n).len() > 0,
        forall|i: int| 0 <= i < decimal(n).len() ==> '0' <= #[trigger] decimal(n)[i] <= '9',
        number(decimal(n)) == n,
        n > 0 ==> decimal(n)[0] != '0',
        n < 10 ==> decimal(n).len() == 1,
    decreases n,
{
    let text = decimal(n);
    let low = n % 10;
    assert(digit(low) as int == 48 + low);
    if n < 10 {
        assert(digit(n) as int == 48 + n);
        assert(text.drop_last() == Seq::<char>::empty());
        assert(number(text.drop_last()) == 0);
    } else {
        decimal_stands_for_the_number(n / 10);
        assert(text.drop_last() == decimal(n / 10));
        assert(text[0] == decimal(n / 10)[0]);
        assert forall|i: int| 0 <= i < text.len() implies '0' <= #[trigger] text[i] <= '9' by {
            if i < text.len() - 1 {
                assert(text[i] == decimal(n / 10)[i]);
            }
        }
    }
}

/// Padding keeps the text at the start, adds spaces only, and fills up to the width.
pub proof fn padding_fills_up(s: Seq<char>, width: nat)
    ensures
        padded(s, width).len() == if s.len() < width {
            width
        } else {
            s.len()
        },
        padded(s, width).take(s.len() as int) == s,
        forall|i: int| s.len() <= i < padded(s, width).len() ==> #[trigger] padded(s, width)[i] == ' ',
{
    assert(padded(s, width).take(s.len() as int) == s);
}

/// What can be printed in ASCII, and everything from the no-break space on, is no control
/// character; everything else is one.
pub proof fn control_characters_are_apart(c: char)
    ensures
        ' ' <= c <= '~' ==> !control(c),
        c as int >= 0xa0 ==> !control(c),
        c < ' ' ==> control(c),
        '~' < c && (c as int) < 0xa0 ==> control(c),
{
}

} // verus!
