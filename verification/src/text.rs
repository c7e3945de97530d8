//! String operations with contracts over character sequences.

use vstd::prelude::*;
use vstd::string::*;

verus! {

/// The lowercase form that `str::to_lowercase` gives.
pub uninterp spec fn lowercase(text: Seq<char>) -> Seq<char>;

/// `str::to_lowercase` returns a value that depends on its argument alone: the
/// Unicode lowercase mapping, left uninterpreted here.
pub assume_specification[ str::to_lowercase ](text: &str) -> (r: String)
    ensures
        r@ == lowercase(text@),
;

/// Whether a character has the Unicode property `White_Space`.
pub open spec fn is_white_space(c: char) -> bool {
    ||| '\u{9}' <= c <= '\u{d}'
    ||| c == '\u{20}' || c == '\u{85}' || c == '\u{a0}' || c == '\u{1680}'
    ||| '\u{2000}' <= c <= '\u{200a}'
    ||| c == '\u{2028}' || c == '\u{2029}' || c == '\u{202f}' || c == '\u{205f}'
    ||| c == '\u{3000}'
}

/// The text without the white space at its beginning and at its end.
pub open spec fn trimmed(text: Seq<char>) -> Seq<char>
    decreases text.len(),
{
    if text.len() == 0 {
        text
    } else if is_white_space(text.first()) {
        trimmed(text.drop_first())
    } else if is_white_space(text.last()) {
        trimmed(text.drop_last())
    } else {
        text
    }
}

/// `str::trim` removes leading and trailing white space, as the Unicode property
/// `White_Space` defines it.
pub assume_specification[ str::trim ](text: &str) -> (r: &str)
    ensures
        r@ == trimmed(text@),
;

/// The text that `String::from_utf8_lossy` reads from bytes.
pub uninterp spec fn lossy_utf8(bytes: Seq<u8>) -> Seq<char>;

/// `String::from_utf8_lossy` decodes bytes as UTF-8 and puts the replacement
/// character where they are not. The text depends on the bytes alone.
#[verifier::external_body]
pub(crate) fn decode_lossy(bytes: &Vec<u8>) -> (r: String)
    ensures
        r@ == lossy_utf8(bytes@),
{
    String::from_utf8_lossy(bytes).into_owned()
}

/// The characters of each string in a list.
pub open spec fn texts(strings: Seq<String>) -> Seq<Seq<char>> {
    strings.map_values(|s: String| s@)
}

/// Appends a copy of `text` to a list of strings.
pub fn push_text(strings: &mut Vec<String>, text: &str)
    ensures
        texts(final(strings)@) == texts(old(strings)@).push(text@),
{
    strings.push(text.to_owned());
    assert(texts(strings@) =~= texts(old(strings)@).push(text@));
}

/// Whether two strings hold the same characters.
pub fn same_text(a: &str, b: &str) -> (r: bool)
    ensures
        r == (a@ == b@),
{
    let left: String = a.to_owned();
    let right: String = b.to_owned();
    left == right
}

/// The characters of `text`, in order.
pub fn chars_of(text: &str) -> (r: Vec<char>)
    ensures
        r@ == text@,
{
    let mut chars: Vec<char> = Vec::new();
    for c in it: text.chars()
        invariant
            chars@ == it.seq().take(it.index()),
            it.seq() == text@,
    {
        chars.push(c);
    }
    chars
}

/// Whether `needle` occurs in `haystack` at offset `at`.
pub open spec fn occurs_at(haystack: Seq<char>, needle: Seq<char>, at: int) -> bool {
    &&& 0 <= at
    &&& at + needle.len() <= haystack.len()
    &&& haystack.subrange(at, at + needle.len()) == needle
}

/// Whether `needle` occurs anywhere in `haystack`.
pub open spec fn occurs_in(haystack: Seq<char>, needle: Seq<char>) -> bool {
    exists|at: int| #[trigger] occurs_at(haystack, needle, at)
}

/// Whether `needle` occurs anywhere in `haystack`.
pub fn contains_text(haystack: &str, needle: &str) -> (r: bool)
    ensures
        r == occurs_in(haystack@, needle@),
{
    let hay: Vec<char> = chars_of(haystack);
    let pin: Vec<char> = chars_of(needle);
    if pin.len() > hay.len() {
        return false;
    }
    let last: usize = hay.len() - pin.len();
    let mut at: usize = 0;
    while at <= last
        invariant
            hay@ == haystack@,
            pin@ == needle@,
            pin.len() <= hay.len(),
            last == hay.len() - pin.len(),
            at <= last + 1,
            forall|k: int| 0 <= k < at ==> !occurs_at(haystack@, needle@, k),
        decreases last + 1 - at,
    {
        let mut matched: usize = 0;
        while matched < pin.len() && hay[at + matched] == pin[matched]
            invariant
                at <= last,
                last == hay.len() - pin.len(),
                pin.len() <= hay.len(),
                matched <= pin.len(),
                forall|j: int| 0 <= j < matched ==> hay[at + j] == pin[j],
            decreases pin.len() - matched,
        {
            matched += 1;
        }
        if matched == pin.len() {
            assert(haystack@.subrange(at as int, at + needle@.len()) =~= needle@);
            assert(occurs_at(haystack@, needle@, at as int));
            return true;
        }
        assert(haystack@.subrange(at as int, at + needle@.len())[matched as int]
            != needle@[matched as int]);
        if at == last {
            return false;
        }
        at += 1;
    }
    false
}

/// Whether `text` ends with `suffix`.
pub open spec fn ends_with(text: Seq<char>, suffix: Seq<char>) -> bool {
    &&& suffix.len() <= text.len()
    &&& text.subrange(text.len() - suffix.len(), text.len() as int) == suffix
}

/// `text` without its trailing `suffix`, or nothing where it does not end so.
pub fn strip_suffix(text: &str, suffix: &str) -> (r: Option<String>)
    ensures
        match r {
            Some(head) => text@ == head@ + suffix@,
            None => !ends_with(text@, suffix@),
        },
{
    let whole: Vec<char> = chars_of(text);
    let tail: Vec<char> = chars_of(suffix);
    if tail.len() > whole.len() {
        return None;
    }
    let start: usize = whole.len() - tail.len();
    let mut i: usize = 0;
    while i < tail.len()
        invariant
            whole@ == text@,
            tail@ == suffix@,
            tail.len() <= whole.len(),
            start == whole.len() - tail.len(),
            i <= tail.len(),
            forall|j: int| 0 <= j < i ==> whole[start + j] == tail[j],
        decreases tail.len() - i,
    {
        if whole[start + i] != tail[i] {
            assert(text@.subrange(start as int, text@.len() as int)[i as int] != suffix@[i as int]);
            return None;
        }
        i += 1;
    }
    let head: String = text.substring_char(0, start).to_owned();
    assert(text@ =~= head@ + suffix@);
    Some(head)
}

/// The decimal digit character for `d`.
pub open spec fn digit_char(d: nat) -> char {
    ('0' as u32 + d as u32) as char
}

/// The decimal numeral of `n`, without leading zeros.
pub open spec fn decimal(n: nat) -> Seq<char>
    decreases n,
{
    if n < 10 {
        seq![digit_char(n)]
    } else {
        decimal(n / 10).push(digit_char(n % 10))
    }
}

fn digit_text(d: u64) -> (r: &'static str)
    requires
        d < 10,
    ensures
        r@ == seq![digit_char(d as nat)],
{
    proof {
        reveal_strlit("0");
        reveal_strlit("1");
        reveal_strlit("2");
        reveal_strlit("3");
        reveal_strlit("4");
        reveal_strlit("5");
        reveal_strlit("6");
        reveal_strlit("7");
        reveal_strlit("8");
        reveal_strlit("9");
    }
    let digit: &'static str = if d == 0 {
        "0"
    } else if d == 1 {
        "1"
    } else if d == 2 {
        "2"
    } else if d == 3 {
        "3"
    } else if d == 4 {
        "4"
    } else if d == 5 {
        "5"
    } else if d == 6 {
        "6"
    } else if d == 7 {
        "7"
    } else if d == 8 {
        "8"
    } else {
        "9"
    };
    assert(digit@ =~= seq![digit_char(d as nat)]);
    digit
}

/// Writes `n` in decimal.
pub fn decimal_text(n: u64) -> (r: String)
    ensures
        r@ == decimal(n as nat),
    decreases n,
{
    if n < 10 {
        digit_text(n).to_owned()
    } else {
        let mut numeral: String = decimal_text(n / 10);
        let digit: &'static str = digit_text(n % 10);
        numeral.append(digit);
        assert(numeral@ =~= decimal(n as nat));
        numeral
    }
}

/// The decimal numeral of `n`, with a minus sign where it is negative.
pub open spec fn signed_decimal(n: int) -> Seq<char> {
    if n < 0 {
        seq!['-'] + decimal((-n) as nat)
    } else {
        decimal(n as nat)
    }
}

/// Writes `n` in decimal.
pub fn signed_decimal_text(n: i64) -> (r: String)
    ensures
        r@ == signed_decimal(n as int),
{
    if n < 0 {
        let magnitude: u64 = (-(n as i128)) as u64;
        let mut numeral: String = "-".to_owned();
        let digits: String = decimal_text(magnitude);
        numeral.append(digits.as_str());
        proof {
            reveal_strlit("-");
            assert("-"@ =~= seq!['-']);
        }
        numeral
    } else {
        decimal_text(n as u64)
    }
}

/// Whether `c` is one of the ten ASCII digits.
pub open spec fn is_digit(c: char) -> bool {
    '0' <= c && c <= '9'
}

/// The value of a string of decimal digits.
pub open spec fn digits_value(digits: Seq<char>) -> nat
    decreases digits.len(),
{
    if digits.len() == 0 {
        0
    } else {
        digits_value(digits.drop_last()) * 10 + (digits.last() as nat - '0' as nat) as nat
    }
}

/// The digits of a numeral: the text without one optional leading plus sign.
pub open spec fn numeral_digits(text: Seq<char>) -> Seq<char> {
    if text.len() > 0 && text[0] == '+' {
        text.drop_first()
    } else {
        text
    }
}

/// The `u64` that `text` denotes: an optional plus sign, then one or more
/// digits and nothing else, and a value that fits.
pub open spec fn parsed_u64(text: Seq<char>) -> Option<u64> {
    let digits = numeral_digits(text);
    if digits.len() > 0 && (forall|i: int| 0 <= i < digits.len() ==> is_digit(#[trigger] digits[i]))
        && digits_value(digits) <= u64::MAX {
        Some(digits_value(digits) as u64)
    } else {
        None
    }
}

/// Reads a `u64` numeral.
pub fn parse_u64(text: &str) -> (r: Option<u64>)
    ensures
        r == parsed_u64(text@),
{
    let chars: Vec<char> = chars_of(text);
    let start: usize = if chars.len() > 0 && chars[0] == '+' {
        1
    } else {
        0
    };
    let ghost digits = numeral_digits(text@);
    assert(digits =~= chars@.skip(start as int));
    if start == chars.len() {
        return None;
    }
    let mut i: usize = start;
    let mut value: u64 = 0;
    let mut fits: bool = true;
    assert(digits.take(0) =~= Seq::<char>::empty());
    while i < chars.len()
        invariant
            start <= i <= chars.len(),
            start < chars.len(),
            digits == numeral_digits(text@),
            digits == chars@.skip(start as int),
            forall|j: int| 0 <= j < i - start ==> is_digit(#[trigger] digits[j]),
            fits ==> value == digits_value(digits.take(i - start)),
            !fits ==> digits_value(digits.take(i - start)) > u64::MAX,
        decreases chars.len() - i,
    {
        let c: char = chars[i];
        assert(c == digits[i - start]);
        if !('0' <= c && c <= '9') {
            return None;
        }
        let digit: u64 = (c as u32 - '0' as u32) as u64;
        proof {
            assert(digits.take(i - start + 1).drop_last() =~= digits.take(i - start));
            assert(digits_value(digits.take(i - start + 1)) == digits_value(digits.take(i - start))
                * 10 + digit);
        }
        if fits {
            match value.checked_mul(10) {
                Some(shifted) => match shifted.checked_add(digit) {
                    Some(sum) => {
                        value = sum;
                    },
                    None => {
                        fits = false;
                    },
                },
                None => {
                    fits = false;
                },
            }
        }
        i += 1;
    }
    assert(digits.take(i - start) =~= digits);
    if fits {
        Some(value)
    } else {
        None
    }
}

/// Blanks, tabs and line ends are white space; letters, digits and punctuation
/// are not, and nothing behind the ideographic space is.
pub proof fn law_white_space_is_blank(c: char)
    ensures
        c == ' ' || c == '\t' || c == '\n' || c == '\r' || c == '\u{a0}' || c == '\u{3000}'
            ==> is_white_space(c),
        '!' <= c <= '~' ==> !is_white_space(c),
        c < '\t' || c > '\u{3000}' ==> !is_white_space(c),
{
}

/// Whether what is left of a text after trimming starts at `from`, with nothing
/// but white space around it.
pub open spec fn trimmed_at(text: Seq<char>, from: int) -> bool {
    let end = from + trimmed(text).len();
    &&& 0 <= from
    &&& end <= text.len()
    &&& text.subrange(from, end) == trimmed(text)
    &&& forall|i: int| 0 <= i < from ==> is_white_space(#[trigger] text[i])
    &&& forall|i: int| end <= i < text.len() ==> is_white_space(#[trigger] text[i])
}

proof fn lemma_trimmed_behind_blank(text: Seq<char>, from: int)
    requires
        text.len() > 0,
        is_white_space(text.first()),
        trimmed_at(text.drop_first(), from),
    ensures
        trimmed_at(text, from + 1),
{
    let rest = text.drop_first();
    let left = trimmed(rest);
    assert(trimmed(text) == left);
    assert(text.subrange(from + 1, from + 1 + left.len()) =~= rest.subrange(
        from,
        from + left.len(),
    ));
    assert forall|i: int| 0 <= i < from + 1 implies is_white_space(#[trigger] text[i]) by {
        if i > 0 {
            assert(is_white_space(rest[i - 1]));
        }
    }
    assert forall|i: int| from + 1 + left.len() <= i < text.len() implies is_white_space(
        #[trigger] text[i],
    ) by {
        assert(is_white_space(rest[i - 1]));
    }
}

proof fn lemma_trimmed_before_blank(text: Seq<char>, from: int)
    requires
        text.len() > 0,
        !is_white_space(text.first()),
        is_white_space(text.last()),
        trimmed_at(text.drop_last(), from),
    ensures
        trimmed_at(text, from),
{
    let rest = text.drop_last();
    let left = trimmed(rest);
    assert(trimmed(text) == left);
    assert(text.subrange(from, from + left.len()) =~= rest.subrange(from, from + left.len()));
    assert forall|i: int| 0 <= i < from implies is_white_space(#[trigger] text[i]) by {
        assert(is_white_space(rest[i]));
    }
    assert forall|i: int| from + left.len() <= i < text.len() implies is_white_space(
        #[trigger] text[i],
    ) by {
        if i < rest.len() {
            assert(is_white_space(rest[i]));
        }
    }
}

proof fn lemma_trimmed_somewhere(text: Seq<char>) -> (from: int)
    ensures
        trimmed_at(text, from),
    decreases text.len(),
{
    if text.len() == 0 {
        assert(text.subrange(0, 0) =~= text);
        0
    } else if is_white_space(text.first()) {
        let from = lemma_trimmed_somewhere(text.drop_first());
        lemma_trimmed_behind_blank(text, from);
        from + 1
    } else if is_white_space(text.last()) {
        let from = lemma_trimmed_somewhere(text.drop_last());
        lemma_trimmed_before_blank(text, from);
        from
    } else {
        assert(text.subrange(0, text.len() as int) =~= text);
        0
    }
}

/// Trimming takes white space from both ends and nothing else: what is left lies
/// in the text, starts and ends with something else, and everything around it is
/// white space.
pub proof fn law_trimming_cuts_both_ends(text: Seq<char>)
    ensures
        trimmed(text).len() > 0 ==> !is_white_space(trimmed(text).first()),
        trimmed(text).len() > 0 ==> !is_white_space(trimmed(text).last()),
        exists|from: int| #[trigger] trimmed_at(text, from),
    decreases text.len(),
{
    let from = lemma_trimmed_somewhere(text);
    assert(trimmed_at(text, from));
    if text.len() > 0 {
        if is_white_space(text.first()) {
            law_trimming_cuts_both_ends(text.drop_first());
        } else if is_white_space(text.last()) {
            law_trimming_cuts_both_ends(text.drop_last());
        }
    }
}

/// A text is found wherever it stands, whatever is before and behind it, and
/// nothing is found in a text that is shorter.
pub proof fn law_text_is_found_anywhere(before: Seq<char>, needle: Seq<char>, behind: Seq<char>)
    ensures
        occurs_in(before + needle + behind, needle),
        forall|haystack: Seq<char>|
            #![trigger occurs_in(haystack, needle)]
            haystack.len() < needle.len() ==> !occurs_in(haystack, needle),
        forall|haystack: Seq<char>|
            #![trigger occurs_in(haystack, needle)]
            occurs_in(haystack, needle) ==> exists|at: int|
                0 <= at && at + needle.len() <= haystack.len() && #[trigger] haystack.subrange(
                    at,
                    at + needle.len(),
                ) == needle,
{
    let haystack = before + needle + behind;
    let at = before.len() as int;
    assert(haystack.subrange(at, at + needle.len()) =~= needle);
    assert(occurs_at(haystack, needle, at));
    assert forall|haystack: Seq<char>| #![trigger occurs_in(haystack, needle)]
        occurs_in(haystack, needle) implies exists|at: int|
        0 <= at && at + needle.len() <= haystack.len() && #[trigger] haystack.subrange(
            at,
            at + needle.len(),
        ) == needle by {
        let at = choose|at: int| #[trigger] occurs_at(haystack, needle, at);
        assert(haystack.subrange(at, at + needle.len()) == needle);
    }
}

/// A text ends with a suffix exactly where it is something followed by it.
pub proof fn law_suffix_is_the_end(head: Seq<char>, suffix: Seq<char>, text: Seq<char>)
    ensures
        ends_with(head + suffix, suffix),
        ends_with(text, suffix) ==> text == text.take(text.len() - suffix.len()) + suffix,
        text.len() < suffix.len() ==> !ends_with(text, suffix),
{
    let whole = head + suffix;
    assert(whole.subrange(whole.len() - suffix.len(), whole.len() as int) =~= suffix);
    if ends_with(text, suffix) {
        assert(text =~= text.take(text.len() - suffix.len()) + text.subrange(
            text.len() - suffix.len(),
            text.len() as int,
        ));
    }
}

/// A numeral is made of its digits: the single ones are the ten digit characters,
/// and each further one is written behind the numeral of the rest.
pub proof fn law_numerals_are_decimal(n: nat, d: nat)
    requires
        d < 10,
    ensures
        decimal(0) == seq!['0'],
        decimal(1) == seq!['1'],
        decimal(2) == seq!['2'],
        decimal(3) == seq!['3'],
        decimal(4) == seq!['4'],
        decimal(5) == seq!['5'],
        decimal(6) == seq!['6'],
        decimal(7) == seq!['7'],
        decimal(8) == seq!['8'],
        decimal(9) == seq!['9'],
        n > 0 ==> decimal(n * 10 + d) == decimal(n) + decimal(d),
        signed_decimal(n as int) == decimal(n),
        n > 0 ==> signed_decimal(-n) == seq!['-'] + decimal(n),
{
    assert((n * 10 + d) / 10 == n);
    assert((n * 10 + d) % 10 == d);
    if n > 0 {
        assert(decimal(n * 10 + d) =~= decimal(n) + decimal(d));
    }
}

/// Reading a numeral gives the number that was written, with or without a plus
/// sign in front.
pub proof fn law_written_number_reads_back(n: u64)
    ensures
        parsed_u64(decimal(n as nat)) == Some(n),
        parsed_u64(seq!['+'] + decimal(n as nat)) == Some(n),
{
    let digits = decimal(n as nat);
    lemma_decimal_digits(n as nat);
    assert(is_digit(digits[0]));
    assert(numeral_digits(digits) == digits);
    assert((seq!['+'] + digits).drop_first() =~= digits);
}

/// What is no numeral is not read: an empty text, a sign alone, anything with
/// another character in it. A numeral that is read is made of digits.
pub proof fn law_only_numerals_are_read(text: Seq<char>, i: int)
    requires
        0 <= i < text.len(),
    ensures
        parsed_u64(Seq::empty()) is None,
        parsed_u64(seq!['+']) is None,
        !('0' <= text[i] <= '9') && (i > 0 || text[0] != '+') ==> parsed_u64(text) is None,
{
    assert(seq!['+'].drop_first() =~= Seq::<char>::empty());
    let digits = numeral_digits(text);
    if !('0' <= text[i] <= '9') && (i > 0 || text[0] != '+') {
        if text[0] == '+' {
            assert(digits[i - 1] == text[i]);
        } else {
            assert(digits[i] == text[i]);
        }
    }
}

proof fn lemma_decimal_digits(n: nat)
    ensures
        decimal(n).len() > 0,
        digits_value(decimal(n)) == n,
        forall|i: int| 0 <= i < decimal(n).len() ==> is_digit(#[trigger] decimal(n)[i]),
    decreases n,
{
    if n < 10 {
        assert(decimal(n).drop_last() =~= Seq::<char>::empty());
        reveal_with_fuel(digits_value, 2);
    } else {
        lemma_decimal_digits(n / 10);
        assert(decimal(n).drop_last() =~= decimal(n / 10));
        assert forall|i: int| 0 <= i < decimal(n).len() implies is_digit(#[trigger] decimal(n)[i]) by {
            if i < decimal(n / 10).len() {
                assert(decimal(n)[i] == decimal(n / 10)[i]);
            }
        }
    }
}

/// A needle is found exactly where the text has it somewhere, an ending cut
/// exactly where the text has it, and a numeral read exactly where it is one.
pub proof fn law_texts_are_taken_apart(
    text: &str,
    needle: &str,
    before: Seq<char>,
    behind: Seq<char>,
    found: bool,
    head: Option<String>,
    number: Option<u64>,
    n: u64,
)
    requires
        call_ensures(contains_text, (text, needle), found),
        call_ensures(strip_suffix, (text, needle), head),
        call_ensures(parse_u64, (text,), number),
    ensures
        text@ == before + needle@ + behind ==> found,
        text@ == before + needle@ ==> head is Some && head->0@ == before,
        head matches Some(head) ==> text@ == head@ + needle@,
        text@ == decimal(n as nat) ==> number == Some(n),
        text@.len() == 0 ==> number is None,
{
    law_text_is_found_anywhere(before, needle@, behind);
    law_suffix_is_the_end(before, needle@, text@);
    law_written_number_reads_back(n);
    if text@ == before + needle@ && head is Some {
        assert(before =~= (before + needle@).take(before.len() as int));
        assert(head->0@ =~= (head->0@ + needle@).take(head->0@.len() as int));
    }
}

/// Numbers are written in decimal, one below nothing with a minus before it.
pub proof fn law_numbers_are_written(n: u64, r: String, m: i64, signed: String)
    requires
        call_ensures(decimal_text, (n,), r),
        call_ensures(signed_decimal_text, (m,), signed),
    ensures
        parsed_u64(r@) == Some(n),
        m >= 0 ==> signed@ == decimal(m as nat),
        m < 0 ==> signed@ == seq!['-'] + decimal((-m) as nat),
{
    law_written_number_reads_back(n);
}

/// Texts are the same where all characters are, and a text is all of its
/// characters.
pub proof fn law_texts_are_their_characters(
    a: &str,
    b: &str,
    same: bool,
    chars: Vec<char>,
)
    requires
        call_ensures(same_text, (a, b), same),
        call_ensures(chars_of, (a,), chars),
    ensures
        same <==> a@ == b@,
        chars@ == a@,
{
}

} // verus!
