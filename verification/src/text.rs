//! Text helpers: decimal and hexadecimal rendering, trimming.

use vstd::prelude::*;
use vstd::string::*;

verus! {

/// The characters of an optional string.
pub open spec fn opt_text(text: Option<String>) -> Option<Seq<char>> {
    match text {
        Some(t) => Some(t@),
        None => None,
    }
}

/// The characters of each string of a list.
pub open spec fn texts(list: Seq<String>) -> Seq<Seq<char>> {
    list.map_values(|t: String| t@)
}

/// The character of a decimal digit.
pub open spec fn digit_char(digit: nat) -> char
    recommends
        digit < 10,
{
    (48 + digit) as char
}

/// Decimal numeral of `n`, without leading zeros.
pub open spec fn decimal(n: nat) -> Seq<char>
    decreases n,
{
    if n < 10 {
        seq![digit_char(n)]
    } else {
        decimal(n / 10).push(digit_char(n % 10))
    }
}

fn digit_text(digit: u32) -> (text: &'static str)
    requires
        digit < 10,
    ensures
        text@ == seq![digit_char(digit as nat)],
{
    proof {
        reveal_strlit("0");
        reveal_strlit("1");
        reveal_strlit("2");
        reveal_strlit("3");
        reveal_strlit("4");
        reveal_strlit("5");
        reveal_strlit("6");
        reveal_strlit("7");
        reveal_strlit("8");
        reveal_strlit("9");
    }
    match digit {
        0 => "0",
        1 => "1",
        2 => "2",
        3 => "3",
        4 => "4",
        5 => "5",
        6 => "6",
        7 => "7",
        8 => "8",
        _ => "9",
    }
}

/// Renders `n` in decimal.
pub fn decimal_text(n: u32) -> (text: String)
    ensures
        text@ == decimal(n as nat),
    decreases n,
{
    let mut text = if n < 10 {
        String::new()
    } else {
        decimal_text(n / 10)
    };
    text.append(digit_text(n % 10));
    text
}

/// Whether `c` has the Unicode property White_Space.
pub open spec fn is_whitespace(c: char) -> bool {
    ||| '\u{9}' <= c <= '\u{d}'
    ||| c == '\u{20}'
    ||| c == '\u{85}'
    ||| c == '\u{a0}'
    ||| c == '\u{1680}'
    ||| '\u{2000}' <= c <= '\u{200a}'
    ||| c == '\u{2028}'
    ||| c == '\u{2029}'
    ||| c == '\u{202f}'
    ||| c == '\u{205f}'
    ||| c == '\u{3000}'
}

/// `s` without the whitespace at its start.
pub open spec fn trim_start(s: Seq<char>) -> Seq<char>
    decreases s.len(),
{
    if s.len() > 0 && is_whitespace(s.first()) {
        trim_start(s.drop_first())
    } else {
        s
    }
}

/// `s` without the whitespace at its end.
pub open spec fn trim_end(s: Seq<char>) -> Seq<char>
    decreases s.len(),
{
    if s.len() > 0 && is_whitespace(s.last()) {
        trim_end(s.drop_last())
    } else {
        s
    }
}

/// `s` without the dots at its end.
pub open spec fn trim_end_dots(s: Seq<char>) -> Seq<char>
    decreases s.len(),
{
    if s.len() > 0 && s.last() == '.' {
        trim_end_dots(s.drop_last())
    } else {
        s
    }
}

/// Tests for the Unicode property White_Space.
pub fn char_is_whitespace(c: char) -> (white: bool)
    ensures
        white == is_whitespace(c),
{
    ('\u{9}' <= c && c <= '\u{d}') || c == '\u{20}' || c == '\u{85}' || c == '\u{a0}' || c
        == '\u{1680}' || ('\u{2000}' <= c && c <= '\u{200a}') || c == '\u{2028}' || c == '\u{2029}'
        || c == '\u{202f}' || c == '\u{205f}' || c == '\u{3000}'
}

/// The part of `raw` that names a host: surrounding whitespace is dropped, then
/// the dots at the end. Nothing is left of a blank name.
pub open spec fn host_name_of(raw: Seq<char>) -> Option<Seq<char>> {
    let name = trim_end_dots(trim_end(trim_start(raw)));
    if name.len() == 0 {
        None
    } else {
        Some(name)
    }
}

fn collect_chars(text: &str) -> (chars: Vec<char>)
    ensures
        chars@ == text@,
{
    let mut chars: Vec<char> = Vec::new();
    for c in iter: text.chars()
        invariant
            iter.seq() == text@,
            chars@ == text@.take(iter.index() as int),
    {
        chars.push(c);
    }
    chars
}

/// Cleans up a host name as the system reports it.
pub fn normalized_host_name(raw: &str) -> (name: Option<String>)
    ensures
        opt_text(name) == host_name_of(raw@),
{
    let chars = collect_chars(raw);
    let len = chars.len();

    let mut start: usize = 0;
    assert(raw@.subrange(0, len as int) == raw@);
    while start < len && char_is_whitespace(chars[start])
        invariant
            start <= len,
            len == chars@.len(),
            chars@ == raw@,
            trim_start(raw@) == trim_start(raw@.subrange(start as int, len as int)),
        decreases len - start,
    {
        assert(raw@.subrange(start as int, len as int).drop_first() == raw@.subrange(
            start + 1,
            len as int,
        ));
        start = start + 1;
    }
    let ghost left = raw@.subrange(start as int, len as int);
    assert(trim_start(raw@) == left);

    let mut end: usize = len;
    while end > start && char_is_whitespace(chars[end - 1])
        invariant
            start <= end <= len,
            len == chars@.len(),
            chars@ == raw@,
            trim_end(left) == trim_end(raw@.subrange(start as int, end as int)),
        decreases end,
    {
        assert(raw@.subrange(start as int, end as int).drop_last() == raw@.subrange(
            start as int,
            end - 1,
        ));
        end = end - 1;
    }
    let ghost middle = raw@.subrange(start as int, end as int);
    assert(trim_end(left) == middle);

    while end > start && chars[end - 1] == '.'
        invariant
            start <= end <= len,
            len == chars@.len(),
            chars@ == raw@,
            trim_end_dots(middle) == trim_end_dots(raw@.subrange(start as int, end as int)),
        decreases end,
    {
        assert(raw@.subrange(start as int, end as int).drop_last() == raw@.subrange(
            start as int,
            end - 1,
        ));
        end = end - 1;
    }
    assert(trim_end_dots(middle) == raw@.subrange(start as int, end as int));

    if start == end {
        None
    } else {
        Some(raw.substring_char(start, end).to_owned())
    }
}

proof fn lemma_trim_start(blank: Seq<char>, rest: Seq<char>)
    requires
        forall|i: int| 0 <= i < blank.len() ==> is_whitespace(blank[i]),
    ensures
        trim_start(blank + rest) == trim_start(rest),
    decreases blank.len(),
{
    if blank.len() == 0 {
        assert(blank + rest == rest);
    } else {
        assert((blank + rest).drop_first() == blank.drop_first() + rest);
        lemma_trim_start(blank.drop_first(), rest);
    }
}

proof fn lemma_trim_end(rest: Seq<char>, blank: Seq<char>)
    requires
        forall|i: int| 0 <= i < blank.len() ==> is_whitespace(blank[i]),
    ensures
        trim_end(rest + blank) == trim_end(rest),
    decreases blank.len(),
{
    if blank.len() == 0 {
        assert(rest + blank == rest);
    } else {
        assert((rest + blank).drop_last() == rest + blank.drop_last());
        lemma_trim_end(rest, blank.drop_last());
    }
}

proof fn lemma_trim_end_dots(rest: Seq<char>, dots: Seq<char>)
    requires
        forall|i: int| 0 <= i < dots.len() ==> dots[i] == '.',
    ensures
        trim_end_dots(rest + dots) == trim_end_dots(rest),
    decreases dots.len(),
{
    if dots.len() == 0 {
        assert(rest + dots == rest);
    } else {
        assert((rest + dots).drop_last() == rest + dots.drop_last());
        lemma_trim_end_dots(rest, dots.drop_last());
    }
}

proof fn lemma_trim_prefix(s: Seq<char>)
    ensures
        trim_end(s) == s.take(trim_end(s).len() as int),
        trim_end(s).len() <= s.len(),
        trim_end_dots(s) == s.take(trim_end_dots(s).len() as int),
        trim_end_dots(s).len() <= s.len(),
        trim_start(s).len() > 0 ==> !is_whitespace(trim_start(s)[0]),
        trim_end_dots(s).len() > 0 ==> trim_end_dots(s).last() != '.',
    decreases s.len(),
{
    if s.len() > 0 {
        lemma_trim_prefix(s.drop_last());
        lemma_trim_prefix(s.drop_first());
        assert(s.take(s.len() as int) == s);
        let e = trim_end(s.drop_last()).len() as int;
        assert(s.drop_last().take(e) == s.take(e));
        let d = trim_end_dots(s.drop_last()).len() as int;
        assert(s.drop_last().take(d) == s.take(d));
    }
}

/// A cleaned-up host name is not empty, does not begin with whitespace and does
/// not end with a dot.
pub proof fn law_host_name_is_clean(raw: Seq<char>)
    ensures
        host_name_of(raw) matches Some(name) ==> name.len() > 0 && !is_whitespace(name[0])
            && name.last() != '.',
{
    lemma_trim_prefix(raw);
    lemma_trim_prefix(trim_start(raw));
    lemma_trim_prefix(trim_end(trim_start(raw)));
}

/// A host name survives its surroundings: whitespace before it, and dots and
/// then whitespace behind it, are dropped, and the name is kept as it is.
/// Whitespace in front of the dots belongs to the name.
pub proof fn law_host_name_is_kept(
    before: Seq<char>,
    name: Seq<char>,
    dots: Seq<char>,
    after: Seq<char>,
)
    requires
        name.len() > 0,
        !is_whitespace(name[0]),
        dots.len() == 0 ==> !is_whitespace(name.last()),
        name.last() != '.',
        forall|i: int| 0 <= i < before.len() ==> is_whitespace(before[i]),
        forall|i: int| 0 <= i < dots.len() ==> dots[i] == '.',
        forall|i: int| 0 <= i < after.len() ==> is_whitespace(after[i]),
    ensures
        host_name_of(before + name + dots + after) == Some(name),
{
    let dotted = name + dots;
    assert(before + name + dots + after == before + (dotted + after));
    lemma_trim_start(before, dotted + after);
    assert(trim_start(dotted + after) == dotted + after);
    lemma_trim_end(dotted, after);
    assert(dotted.last() == (if dots.len() == 0 {
        name.last()
    } else {
        '.'
    }));
    assert(trim_end(dotted) == dotted);
    lemma_trim_end_dots(name, dots);
}

/// A host name that is nothing but dots, with whitespace round them, is blank:
/// there is no name in it.
pub proof fn law_blank_host_names(before: Seq<char>, dots: Seq<char>, after: Seq<char>)
    requires
        forall|i: int| 0 <= i < before.len() ==> is_whitespace(before[i]),
        forall|i: int| 0 <= i < dots.len() ==> dots[i] == '.',
        forall|i: int| 0 <= i < after.len() ==> is_whitespace(after[i]),
    ensures
        host_name_of(before + dots + after) is None,
{
    assert(before + dots + after == before + (dots + after));
    lemma_trim_start(before, dots + after);
    if dots.len() == 0 {
        assert(dots + after == after + Seq::<char>::empty());
        lemma_trim_start(after, Seq::<char>::empty());
    } else {
        assert(trim_start(dots + after) == dots + after);
        lemma_trim_end(dots, after);
        assert(trim_end(dots) == dots);
        assert(dots == Seq::<char>::empty() + dots);
        lemma_trim_end_dots(Seq::<char>::empty(), dots);
    }
}

/// Cleaning up keeps the name that stands between whitespace, dots and
/// whitespace, and finds none where there is nothing between them.
pub proof fn law_host_names_are_cleaned_up(
    raw: &str,
    cleaned: Option<String>,
    before: Seq<char>,
    name: Seq<char>,
    dots: Seq<char>,
    after: Seq<char>,
)
    requires
        call_ensures(normalized_host_name, (raw,), cleaned),
        raw@ == before + name + dots + after,
        name.len() > 0 ==> !is_whitespace(name[0]) && name.last() != '.',
        name.len() > 0 && dots.len() == 0 ==> !is_whitespace(name.last()),
        forall|i: int| 0 <= i < before.len() ==> is_whitespace(before[i]),
        forall|i: int| 0 <= i < dots.len() ==> dots[i] == '.',
        forall|i: int| 0 <= i < after.len() ==> is_whitespace(after[i]),
    ensures
        match cleaned {
            Some(kept) => name.len() > 0 && kept@ == name,
            None => name.len() == 0,
        },
{
    if name.len() > 0 {
        law_host_name_is_kept(before, name, dots, after);
    } else {
        assert(before + name + dots + after == before + dots + after);
        law_blank_host_names(before, dots, after);
    }
}

/// The whitespace characters, one by one.
pub proof fn law_whitespace(c: char, white: bool)
    requires
        call_ensures(char_is_whitespace, (c,), white),
    ensures
        white == is_whitespace(c),
        white <==> {
            let point = c as u32;
            ||| 0x0009 <= point <= 0x000d
            ||| point == 0x0020
            ||| point == 0x0085
            ||| point == 0x00a0
            ||| point == 0x1680
            ||| 0x2000 <= point <= 0x200a
            ||| 0x2028 <= point <= 0x2029
            ||| point == 0x202f
            ||| point == 0x205f
            ||| point == 0x3000
        },
{
}

/// The number that a run of decimal digits stands for.
pub open spec fn decimal_value(digits: Seq<char>) -> nat
    decreases digits.len(),
{
    if digits.len() == 0 {
        0
    } else {
        10 * decimal_value(digits.drop_last()) + (digits.last() as nat - '0' as nat) as nat
    }
}

/// A decimal numeral is made of digits, has no leading zero, and stands for the
/// number it was made from.
pub proof fn law_decimal_reads_back(n: nat)
    ensures
        decimal(n).len() > 0,
        forall|i: int| 0 <= i < decimal(n).len() ==> '0' <= #[trigger] decimal(n)[i] <= '9',
        decimal(n)[0] == '0' ==> n == 0 && decimal(n).len() == 1,
        decimal_value(decimal(n)) == n,
    decreases n,
{
    reveal_with_fuel(decimal_value, 2);
    if n < 10 {
        assert(decimal(n).drop_last() == Seq::<char>::empty());
    } else {
        law_decimal_reads_back(n / 10);
        assert(decimal(n).drop_last() == decimal(n / 10));
    }
}

/// Different numbers have different numerals.
pub proof fn law_decimal_tells_numbers_apart(a: nat, b: nat)
    ensures
        decimal(a) == decimal(b) <==> a == b,
{
    law_decimal_reads_back(a);
    law_decimal_reads_back(b);
}

/// A number is rendered as the numeral that stands for it.
pub proof fn law_decimal_text(n: u32, text: String)
    requires
        call_ensures(decimal_text, (n,), text),
    ensures
        decimal_value(text@) == n,
        text@ == decimal(n as nat),
{
    law_decimal_reads_back(n as nat);
}

/// The content of optional and listed strings is that of each string, and
/// nothing is left out.
pub proof fn law_texts_are_kept(text: String, list: Seq<String>)
    ensures
        opt_text(Some(text)) == Some(text@),
        opt_text(None) == None::<Seq<char>>,
        texts(list).len() == list.len(),
        forall|i: int| 0 <= i < list.len() ==> #[trigger] texts(list)[i] == list[i]@,
{
}

/// The character of a hexadecimal digit, in lower case.
pub open spec fn hex_char(digit: int) -> char {
    if digit < 10 {
        (48 + digit) as char
    } else {
        (87 + digit) as char
    }
}

/// Lowercase hexadecimal form of `bytes`, two characters for each byte.
pub open spec fn hex_lower(bytes: Seq<u8>) -> Seq<char> {
    Seq::new(
        2 * bytes.len(),
        |i: int|
            if i % 2 == 0 {
                hex_char(bytes[i / 2] as int / 16)
            } else {
                hex_char(bytes[i / 2] as int % 16)
            },
    )
}

/// The number that a hexadecimal digit in lower case stands for.
pub open spec fn hex_value(digit: char) -> int {
    if digit <= '9' {
        digit as int - '0' as int
    } else {
        digit as int - 'a' as int + 10
    }
}

/// The hexadecimal form of bytes is made of digits in lower case, and each pair
/// of them stands for its byte.
pub proof fn law_hex_reads_back(bytes: Seq<u8>, i: int)
    requires
        0 <= i < bytes.len(),
    ensures
        hex_lower(bytes).len() == 2 * bytes.len(),
        forall|j: int|
            0 <= j < hex_lower(bytes).len() ==> {
                ||| '0' <= (#[trigger] hex_lower(bytes)[j]) <= '9'
                ||| 'a' <= hex_lower(bytes)[j] <= 'f'
            },
        16 * hex_value(hex_lower(bytes)[2 * i]) + hex_value(hex_lower(bytes)[2 * i + 1])
            == bytes[i],
{
}

} // verus!
