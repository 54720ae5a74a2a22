//! Text building blocks: joining, decimal and hexadecimal digits, prefixes and
//! the few standard library conversions that the rules of this crate lean on.
use vstd::prelude::*;
use vstd::string::*;

verus! {

/// `String::push` appends one character.
pub assume_specification[ String::push ](s: &mut String, c: char)
    ensures
        final(s)@ == old(s)@.push(c),
;

/// What `str::to_lowercase` makes of a text.
pub uninterp spec fn lowercase(text: Seq<char>) -> Seq<char>;

/// What the `{:?}` formatting of a `str` makes of a text.
pub uninterp spec fn debug_form(text: Seq<char>) -> Seq<char>;

/// What `String::from_utf8_lossy` makes of a byte string.
pub uninterp spec fn lossy_text(bytes: Seq<u8>) -> Seq<char>;

/// The ASCII part of lower-casing: `A` to `Z` become `a` to `z`, and every
/// other character stays.
pub open spec fn ascii_lower(c: char) -> char {
    if 'A' <= c && c <= 'Z' {
        (c as int + 32) as char
    } else {
        c
    }
}

/// Whether a text holds ASCII characters only.
pub open spec fn ascii_only(text: Seq<char>) -> bool {
    forall|i: int| 0 <= i < text.len() ==> (#[trigger] text[i]) as int <= 127
}

/// `str::to_lowercase`, the Unicode lower-casing of a text. The result is
/// named; on a text of ASCII characters it is the letter by letter mapping.
#[verifier::external_body]
pub(crate) fn to_lowercase(text: &str) -> (lowered: String)
    ensures
        lowered@ == lowercase(text@),
        ascii_only(text@) ==> lowered@ == text@.map_values(|c: char| ascii_lower(c)),
{
    text.to_lowercase()
}

/// The `{:?}` formatting of a `str`: the text in quotation marks, with escapes.
/// The result is named.
#[verifier::external_body]
pub(crate) fn quoted(text: &str) -> (shown: String)
    ensures
        shown@ == debug_form(text@),
{
    format!("{:?}", text)
}

/// `String::from_utf8_lossy`: the text that a byte string encodes, with
/// replacement characters where it is no UTF-8. The result is named; the bytes
/// of a text give that text back.
#[verifier::external_body]
pub(crate) fn from_utf8_lossy(bytes: &[u8]) -> (text: String)
    ensures
        text@ == lossy_text(bytes@),
        forall|chars: Seq<char>|
            #[trigger] vstd::utf8::encode_utf8(chars) == bytes@ ==> text@ == chars,
{
    String::from_utf8_lossy(bytes).into_owned()
}

/// The two texts one after the other.
pub fn joined(first: &str, second: &str) -> (text: String)
    ensures
        text@ == first@ + second@,
{
    first.to_owned().concat(second)
}

/// The characters of a text.
pub fn chars_of(text: &str) -> (chars: Vec<char>)
    ensures
        chars@ == text@,
{
    let mut chars: Vec<char> = Vec::new();
    for c in it: text.chars()
        invariant
            it.seq() == text@,
            chars@ =~= it.seq().take(it.index() as int),
    {
        chars.push(c);
    }
    chars
}

/// The text that the characters `from..to` spell.
pub fn text_of(chars: &Vec<char>, from: usize, to: usize) -> (text: String)
    requires
        from <= to <= chars@.len(),
    ensures
        text@ == chars@.subrange(from as int, to as int),
{
    let mut text = String::new();
    for i in from..to
        invariant
            from <= to <= chars@.len(),
            text@ =~= chars@.subrange(from as int, i as int),
    {
        text.push(chars[i]);
    }
    text
}

/// `text` with every `from` turned into `to`.
pub open spec fn replaced(text: Seq<char>, from: char, to: char) -> Seq<char> {
    text.map_values(|c: char| if c == from { to } else { c })
}

/// `str::replace` of one character by another.
pub fn replace_char(text: &str, from: char, to: char) -> (changed: String)
    ensures
        changed@ == replaced(text@, from, to),
{
    let mut changed = String::new();
    for c in it: text.chars()
        invariant
            it.seq() == text@,
            changed@ =~= replaced(it.seq().take(it.index() as int), from, to),
    {
        changed.push(if c == from { to } else { c });
    }
    changed
}

/// Whether the characters begin with `prefix`.
pub fn starts_with_chars(chars: &Vec<char>, prefix: &str) -> (starts: bool)
    ensures
        starts == prefix@.is_prefix_of(chars@),
{
    let wanted: Vec<char> = chars_of(prefix);
    if chars.len() < wanted.len() {
        return false;
    }
    for i in 0..wanted.len()
        invariant
            wanted@ == prefix@,
            wanted@.len() <= chars@.len(),
            forall|j: int| 0 <= j < i ==> wanted@[j] == chars@[j],
    {
        if chars[i] != wanted[i] {
            assert(chars@.subrange(0, wanted@.len() as int)[i as int] != wanted@[i as int]);
            return false;
        }
    }
    assert(chars@.subrange(0, wanted@.len() as int) =~= wanted@);
    true
}

/// Whether `text` begins with `prefix`.
pub fn starts_with(text: &str, prefix: &str) -> (starts: bool)
    ensures
        starts == prefix@.is_prefix_of(text@),
{
    let chars: Vec<char> = chars_of(text);
    starts_with_chars(&chars, prefix)
}

/// Whether two texts are the same.
pub fn same_text(left: &str, right: &str) -> (same: bool)
    ensures
        same == (left@ == right@),
{
    let a: Vec<char> = chars_of(left);
    let b: Vec<char> = chars_of(right);
    if a.len() != b.len() {
        return false;
    }
    for i in 0..a.len()
        invariant
            a@ == left@,
            b@ == right@,
            a@.len() == b@.len(),
            forall|j: int| 0 <= j < i ==> a@[j] == b@[j],
    {
        if a[i] != b[i] {
            return false;
        }
    }
    assert(a@ =~= b@);
    true
}

/// The texts with `separator` between each two of them.
pub open spec fn joined_with(texts: Seq<Seq<char>>, separator: Seq<char>) -> Seq<char>
    decreases texts.len(),
{
    if texts.len() == 0 {
        Seq::empty()
    } else if texts.len() == 1 {
        texts[0]
    } else {
        joined_with(texts.drop_last(), separator) + separator + texts.last()
    }
}

/// The views of a list of strings.
pub open spec fn views(texts: Seq<String>) -> Seq<Seq<char>> {
    texts.map_values(|text: String| text@)
}

/// `[String]::join`.
pub fn join_texts(texts: &Vec<String>, separator: &str) -> (text: String)
    ensures
        text@ == joined_with(views(texts@), separator@),
{
    let mut text = String::new();
    for i in 0..texts.len()
        invariant
            text@ == joined_with(views(texts@).take(i as int), separator@),
    {
        let ghost before = views(texts@).take(i as int);
        let ghost after = views(texts@).take(i + 1);
        assert(after.drop_last() =~= before);
        assert(after.last() == texts@[i as int]@);
        if i > 0 {
            text.append(separator);
        }
        text.append(texts[i].as_str());
        assert(text@ =~= joined_with(after, separator@));
    }
    assert(views(texts@).take(texts@.len() as int) =~= views(texts@));
    text
}

/// The decimal digit of a number below ten.
pub open spec fn decimal_digit(n: nat) -> char {
    (48 + n) as char
}

/// The decimal digits of a number, without leading zeros.
pub open spec fn decimal(n: nat) -> Seq<char>
    decreases n,
{
    if n < 10 {
        seq![decimal_digit(n)]
    } else {
        decimal(n / 10).push(decimal_digit(n % 10))
    }
}

/// The decimal digits of a number, as `Display` writes it.
pub fn decimal_text(n: u128) -> (text: String)
    ensures
        text@ == decimal(n as nat),
    decreases n,
{
    let digit: char = (48u8 + (n % 10) as u8) as char;
    if n < 10 {
        let mut text = String::new();
        text.push(digit);
        assert(text@ =~= decimal(n as nat));
        text
    } else {
        let mut text: String = decimal_text(n / 10);
        text.push(digit);
        text
    }
}

/// A number's decimal digits are digits, and at least one.
pub proof fn decimal_is_digits(n: nat)
    ensures
        decimal(n).len() > 0,
        forall|i: int|
            0 <= i < decimal(n).len() ==> '0' <= #[trigger] decimal(n)[i] && decimal(n)[i] <= '9',
    decreases n,
{
    if n >= 10 {
        decimal_is_digits(n / 10);
    }
}

/// Different numbers have different decimal digits.
pub proof fn decimal_is_injective(a: nat, b: nat)
    requires
        decimal(a) == decimal(b),
    ensures
        a == b,
    decreases a,
{
    decimal_is_digits(a / 10);
    decimal_is_digits(b / 10);
    assert(decimal(a).last() == decimal_digit(a % 10));
    assert(decimal(b).last() == decimal_digit(b % 10));
    if a >= 10 && b >= 10 {
        assert(decimal(a).drop_last() =~= decimal(a / 10));
        assert(decimal(b).drop_last() =~= decimal(b / 10));
        decimal_is_injective(a / 10, b / 10);
    } else if a >= 10 {
        assert(decimal(a).len() > 1);
    } else if b >= 10 {
        assert(decimal(b).len() > 1);
    }
}

/// The lower-case hexadecimal digit of a number below sixteen.
pub open spec fn hex_digit(n: nat) -> char {
    if n < 10 {
        (48 + n) as char
    } else {
        (87 + n) as char
    }
}

/// The number that a lower-case hexadecimal digit stands for.
pub open spec fn hex_value(c: char) -> int {
    if c <= '9' {
        c as int - 48
    } else {
        c as int - 87
    }
}

/// The bytes written as two lower-case hexadecimal digits each.
pub open spec fn hex(bytes: Seq<u8>) -> Seq<char> {
    Seq::new(
        2 * bytes.len(),
        |i: int|
            if i % 2 == 0 {
                hex_digit((bytes[i / 2] / 16) as nat)
            } else {
                hex_digit((bytes[i / 2] % 16) as nat)
            },
    )
}

/// The bytes that pairs of hexadecimal digits stand for.
pub open spec fn unhex(text: Seq<char>) -> Seq<u8> {
    Seq::new(
        text.len() / 2,
        |i: int| (16 * hex_value(text[2 * i]) + hex_value(text[2 * i + 1])) as u8,
    )
}

fn hex_char(n: u8) -> (c: char)
    requires
        n < 16,
    ensures
        c == hex_digit(n as nat),
{
    if n < 10 {
        (48u8 + n) as char
    } else {
        (87u8 + n) as char
    }
}

/// The bytes written as two lower-case hexadecimal digits each.
pub fn hex_text(bytes: &Vec<u8>) -> (text: String)
    ensures
        text@ == hex(bytes@),
{
    let mut text = String::new();
    for i in 0..bytes.len()
        invariant
            text@ =~= hex(bytes@.take(i as int)),
    {
        text.push(hex_char(bytes[i] / 16));
        text.push(hex_char(bytes[i] % 16));
        assert(bytes@.take(i + 1)[i as int] == bytes@[i as int]);
        assert forall|k: int| 0 <= k < 2 * i implies hex(bytes@.take(i + 1))[k] == hex(
            bytes@.take(i as int),
        )[k] by {
            assert(bytes@.take(i + 1)[k / 2] == bytes@.take(i as int)[k / 2]);
        }
    }
    assert(bytes@.take(bytes@.len() as int) =~= bytes@);
    text
}

/// Reading the hexadecimal digits of some bytes gives those bytes back.
pub proof fn hex_round_trip(bytes: Seq<u8>)
    ensures
        unhex(hex(bytes)) == bytes,
{
    let text = hex(bytes);
    assert forall|i: int| 0 <= i < bytes.len() implies unhex(text)[i] == bytes[i] by {
        let b = bytes[i];
        assert(text[2 * i] == hex_digit((b / 16) as nat));
        assert(text[2 * i + 1] == hex_digit((b % 16) as nat));
        assert(hex_value(hex_digit((b / 16) as nat)) == b / 16);
        assert(hex_value(hex_digit((b % 16) as nat)) == b % 16);
    }
    assert(unhex(text) =~= bytes);
}

/// The number that decimal digits stand for.
pub open spec fn decimal_value(digits: Seq<char>) -> int
    decreases digits.len(),
{
    if digits.len() == 0 {
        0
    } else {
        10 * decimal_value(digits.drop_last()) + (digits.last() as int - '0' as int)
    }
}

/// The decimal digits of a number read as that number, and have no zero in front of
/// them.
pub proof fn decimal_reads_back(n: nat)
    ensures
        decimal_value(decimal(n)) == n,
        decimal(n).len() > 1 ==> decimal(n)[0] != '0',
    decreases n,
{
    reveal_with_fuel(decimal_value, 2);
    if n >= 10 {
        decimal_reads_back(n / 10);
        assert(decimal(n).drop_last() =~= decimal(n / 10));
        decimal_is_digits(n / 10);
        assert(decimal(n)[0] == decimal(n / 10)[0]);
        if n / 10 < 10 {
            assert(decimal(n / 10)[0] == decimal_digit(n / 10));
        } else {
            decimal_is_digits(n / 100);
            assert(decimal(n / 10).len() > 1) by {
                decimal_is_digits((n / 10) / 10);
            }
        }
    } else {
        assert(decimal(n).drop_last() =~= Seq::empty());
    }
}

/// Each byte is written as two digits from `0` to `9` and `a` to `f`.
pub proof fn hex_is_lower_case_digits(bytes: Seq<u8>, i: int)
    ensures
        hex(bytes).len() == 2 * bytes.len(),
        0 <= i < hex(bytes).len() ==> ('0' <= hex(bytes)[i] && hex(bytes)[i] <= '9') || ('a'
            <= hex(bytes)[i] && hex(bytes)[i] <= 'f'),
{
    if 0 <= i < hex(bytes).len() {
        let b = bytes[i / 2];
        assert(b / 16 < 16 && b % 16 < 16);
    }
}

/// Texts that are joined in two parts are joined: the separator stands between the
/// parts, and nothing before or behind.
pub proof fn joining_in_parts(first: Seq<Seq<char>>, second: Seq<Seq<char>>, separator: Seq<char>)
    requires
        first.len() > 0,
        second.len() > 0,
    ensures
        joined_with(first + second, separator) == joined_with(first, separator) + separator
            + joined_with(second, separator),
        first.len() == 1 ==> joined_with(first, separator) == first[0],
    decreases second.len(),
{
    let all = first + second;
    assert(all.last() == second.last());
    assert(all.drop_last() =~= first + second.drop_last());
    if second.len() > 1 {
        joining_in_parts(first, second.drop_last(), separator);
        assert(joined_with(all, separator) =~= joined_with(first, separator) + separator
            + joined_with(second, separator));
    } else {
        assert(first + second.drop_last() =~= first);
        assert(joined_with(second, separator) == second[0]);
    }
}

/// Replacing a character leaves all others, and none of it.
pub proof fn replacing_changes_one_character(text: Seq<char>, from: char, to: char, i: int)
    requires
        0 <= i < text.len(),
    ensures
        replaced(text, from, to).len() == text.len(),
        text[i] == from ==> replaced(text, from, to)[i] == to,
        text[i] != from ==> replaced(text, from, to)[i] == text[i],
{
}

/// Folding case changes the 26 letters from `A` to `Z` alone, each to the small letter 32
/// places behind it.
pub proof fn case_is_folded_letter_by_letter(c: char)
    ensures
        65 <= c as int <= 90 ==> ascii_lower(c) as int == c as int + 32,
        !(65 <= c as int <= 90) ==> ascii_lower(c) == c,
        ascii_lower(ascii_lower(c)) == ascii_lower(c),
{
}

} // verus!
