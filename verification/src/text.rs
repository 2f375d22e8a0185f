//! Plain text: unsigned decimal numbers, read and written, and lower case.

use vstd::prelude::*;
use vstd::utf8::is_ascii_chars;

verus! {

/// Why a text is not an unsigned decimal number.
#[derive(Debug, Clone, Copy, PartialEq, Eq, Structural)]
pub enum ParseIntError {
    /// There is no text at all.
    Empty,
    /// A character that is no decimal digit stands where a digit is due.
    InvalidDigit,
    /// The number is larger than the largest one that is asked for.
    PosOverflow,
}

/// The character is one of the ten ASCII digits.
pub open spec fn is_digit(c: char) -> bool {
    '0' <= c && c <= '9'
}

/// Every character is an ASCII digit.
pub open spec fn all_digits(s: Seq<char>) -> bool {
    forall|i: int| 0 <= i < s.len() ==> is_digit(#[trigger] s[i])
}

/// A text without its leading plus sign, where it has one.
pub open spec fn unsigned_part(s: Seq<char>) -> Seq<char> {
    if s.len() > 0 && s[0] == '+' {
        s.drop_first()
    } else {
        s
    }
}

/// The number that an ASCII digit stands for.
pub open spec fn digit_value(c: char) -> nat {
    (c as nat - '0' as nat) as nat
}

/// The ASCII digit of a number below ten.
pub open spec fn digit_char(d: nat) -> char {
    ('0' as nat + d) as char
}

/// The number that a text of ASCII digits stands for; no digit at all stands for zero.
pub open spec fn digits_value(digits: Seq<char>) -> nat
    decreases digits.len(),
{
    if digits.len() == 0 {
        0
    } else {
        digits_value(digits.drop_last()) * 10 + digit_value(digits.last())
    }
}

/// Reading goes from left to right and stops at the first character that is no digit
/// or whose digit lifts the number above `max`.
pub open spec fn scanned(digits: Seq<char>, read: nat, max: nat) -> Result<nat, ParseIntError>
    decreases digits.len(),
{
    if digits.len() == 0 {
        Ok(read)
    } else if !is_digit(digits[0]) {
        Err(ParseIntError::InvalidDigit)
    } else if read * 10 + digit_value(digits[0]) > max {
        Err(ParseIntError::PosOverflow)
    } else {
        scanned(digits.drop_first(), read * 10 + digit_value(digits[0]), max)
    }
}

/// What a text says as an unsigned decimal number of at most `max`: an optional plus
/// sign, then at least one digit, and nothing else.
pub open spec fn parsed(s: Seq<char>, max: nat) -> Result<nat, ParseIntError> {
    if s.len() == 0 {
        Err(ParseIntError::Empty)
    } else if s == seq!['+'] {
        Err(ParseIntError::InvalidDigit)
    } else if s[0] == '+' {
        scanned(s.drop_first(), 0, max)
    } else {
        scanned(s, 0, max)
    }
}

/// The shortest decimal text of a number.
pub open spec fn decimal_text(n: nat) -> Seq<char>
    decreases n,
{
    if n < 10 {
        seq![digit_char(n)]
    } else {
        decimal_text(n / 10).push(digit_char(n % 10))
    }
}

/// Reads an unsigned decimal number of at most `max`.
pub fn parse_unsigned(s: &str, max: u64) -> (res: Result<u64, ParseIntError>)
    ensures
        match res {
            Ok(n) => parsed(s@, max as nat) == Ok::<nat, ParseIntError>(n as nat),
            Err(e) => parsed(s@, max as nat) == Err::<nat, ParseIntError>(e),
        },
{
    let len: usize = s.unicode_len();
    if len == 0 {
        return Err(ParseIntError::Empty);
    }
    let mut read: u64 = 0;
    let mut i: usize = 0;
    if s.get_char(0) == '+' {
        if len == 1 {
            assert(s@ =~= seq!['+']);
            return Err(ParseIntError::InvalidDigit);
        }
        i = 1;
        assert(s@.skip(1) =~= s@.drop_first());
    } else {
        assert(s@.skip(0) =~= s@);
    }
    while i < len
        invariant
            i <= len,
            len == s@.len(),
            read <= max,
            parsed(s@, max as nat) == scanned(s@.skip(i as int), read as nat, max as nat),
        decreases len - i,
    {
        let c: char = s.get_char(i);
        assert(s@.skip(i as int)[0] == c);
        assert(s@.skip(i as int).drop_first() =~= s@.skip(i + 1));
        if c < '0' || '9' < c {
            return Err(ParseIntError::InvalidDigit);
        }
        let digit: u64 = (c as u32 - '0' as u32) as u64;
        if read > max / 10 {
            return Err(ParseIntError::PosOverflow);
        }
        let scaled: u64 = read * 10;
        if digit > max - scaled {
            return Err(ParseIntError::PosOverflow);
        }
        read = scaled + digit;
        i = i + 1;
    }
    Ok(read)
}

/// Writes a number in decimal.
pub fn decimal(n: u64) -> (text: String)
    ensures
        text@ == decimal_text(n as nat),
    decreases n,
{
    if n < 10 {
        digit_text(n).to_owned()
    } else {
        let mut text: String = decimal(n / 10);
        text.append(digit_text(n % 10));
        assert(text@ =~= decimal_text(n as nat));
        text
    }
}

fn digit_text(d: u64) -> (text: &'static str)
    requires
        d < 10,
    ensures
        text@ == seq![digit_char(d as nat)],
{
    proof {
        reveal_strlit("0");
        reveal_strlit("1");
        reveal_strlit("2");
        reveal_strlit("3");
        reveal_strlit("4");
        reveal_strlit("5");
        reveal_strlit("6");
        reveal_strlit("7");
        reveal_strlit("8");
        reveal_strlit("9");
    }
    let text: &'static str = match d {
        0 => "0",
        1 => "1",
        2 => "2",
        3 => "3",
        4 => "4",
        5 => "5",
        6 => "6",
        7 => "7",
        8 => "8",
        _ => "9",
    };
    assert(text@ =~= seq![digit_char(d as nat)]);
    text
}

/// The text begins with the prefix.
pub open spec fn has_prefix(s: Seq<char>, prefix: Seq<char>) -> bool {
    s.len() >= prefix.len() && s.take(prefix.len() as int) == prefix
}

/// Tells whether a text begins with a prefix.
pub fn starts_with(s: &str, prefix: &str) -> (yes: bool)
    ensures
        yes == has_prefix(s@, prefix@),
{
    let len: usize = prefix.unicode_len();
    if s.unicode_len() < len {
        return false;
    }
    let mut i: usize = 0;
    while i < len
        invariant
            i <= len,
            len == prefix@.len(),
            len <= s@.len(),
            s@.take(i as int) =~= prefix@.take(i as int),
        decreases len - i,
    {
        if s.get_char(i) != prefix.get_char(i) {
            assert(s@.take(len as int)[i as int] != prefix@[i as int]);
            return false;
        }
        i = i + 1;
        assert(s@.take(i as int) =~= prefix@.take(i as int));
    }
    assert(prefix@.take(len as int) =~= prefix@);
    true
}

/// Tells whether two texts are the same.
pub fn same_text(a: &str, b: &str) -> (yes: bool)
    ensures
        yes == (a@ == b@),
{
    a.to_owned() == b.to_owned()
}

/// The lower case of an ASCII character; every other character is kept.
pub open spec fn ascii_lower(c: char) -> char {
    if 'A' <= c && c <= 'Z' {
        (c as nat + 32) as char
    } else {
        c
    }
}

/// A text with its ASCII letters in lower case.
pub open spec fn ascii_lowercase(s: Seq<char>) -> Seq<char> {
    s.map_values(|c: char| ascii_lower(c))
}

/// The lower case of a text, as Unicode maps it.
pub uninterp spec fn unicode_lowercase(s: Seq<char>) -> Seq<char>;

/// The lower case of a text: letter by letter where it is ASCII, and else as Unicode maps
/// it.
pub open spec fn lowercase(s: Seq<char>) -> Seq<char> {
    if is_ascii_chars(s) {
        ascii_lowercase(s)
    } else {
        unicode_lowercase(s)
    }
}

/// Calls `str::to_lowercase`. Claimed of it: the result depends on the text alone, and
/// of an ASCII text it is the text with every letter from A to Z put in lower case.
#[verifier::external_body]
pub(crate) fn to_lowercase(s: &str) -> (lower: String)
    ensures
        lower@ == unicode_lowercase(s@),
        is_ascii_chars(s@) ==> lower@ == ascii_lowercase(s@),
{
    s.to_lowercase()
}

/// Reading succeeds exactly on an optional plus sign and one digit or more that stand
/// for a number of at most `max`, and yields that number.
pub proof fn law_parsed_exactly(s: Seq<char>, max: nat)
    ensures
        parsed(s, max) is Ok <==> unsigned_part(s).len() > 0 && all_digits(unsigned_part(s))
            && digits_value(unsigned_part(s)) <= max,
        parsed(s, max) is Ok ==> parsed(s, max)->Ok_0 == digits_value(unsigned_part(s)),
{
    let digits = unsigned_part(s);
    if s.len() > 0 && digits.len() == 0 {
        assert(s =~= seq!['+']);
    }
    lemma_scanned(Seq::empty(), digits, max);
    assert(Seq::<char>::empty() + digits =~= digits);
}

/// Reading a number's own decimal text gives the number back.
pub proof fn law_parsed_decimal_text(n: nat, max: nat)
    requires
        n <= max,
    ensures
        parsed(decimal_text(n), max) == Ok::<nat, ParseIntError>(n),
{
    lemma_decimal_text(n);
    law_parsed_exactly(decimal_text(n), max);
}

proof fn lemma_decimal_text(n: nat)
    ensures
        decimal_text(n).len() > 0,
        all_digits(decimal_text(n)),
        digits_value(decimal_text(n)) == n,
    decreases n,
{
    if n < 10 {
        assert(decimal_text(n).drop_last() =~= Seq::<char>::empty());
        assert(digits_value(decimal_text(n).drop_last()) == 0);
    } else {
        lemma_decimal_text(n / 10);
        assert(decimal_text(n).drop_last() =~= decimal_text(n / 10));
    }
}

/// What is read after `before`, all of it digits, has been read already.
proof fn lemma_scanned(before: Seq<char>, after: Seq<char>, max: nat)
    requires
        digits_value(before) <= max,
        all_digits(before),
    ensures
        ({
            let res = scanned(after, digits_value(before), max);
            &&& res is Ok <==> all_digits(before + after) && digits_value(before + after) <= max
            &&& res is Ok ==> res->Ok_0 == digits_value(before + after)
        }),
    decreases after.len(),
{
    let all = before + after;
    if after.len() == 0 {
        assert(all =~= before);
    } else {
        assert(all[before.len() as int] == after[0]);
        if is_digit(after[0]) {
            let next = before.push(after[0]);
            assert(next.drop_last() =~= before);
            assert(next + after.drop_first() =~= all);
            if digits_value(next) <= max {
                lemma_scanned(next, after.drop_first(), max);
            } else {
                lemma_digits_value_grows(next, after.drop_first());
            }
        }
    }
}

proof fn lemma_digits_value_grows(before: Seq<char>, after: Seq<char>)
    ensures
        digits_value(before) <= digits_value(before + after),
    decreases after.len(),
{
    if after.len() == 0 {
        assert(before + after =~= before);
    } else {
        lemma_digits_value_grows(before, after.drop_last());
        assert((before + after).drop_last() =~= before + after.drop_last());
    }
}

/// Reading a single character: a digit is the number that its code stands for, counted
/// from the code of `0`, which is 48; every other character is no number, and neither is
/// no character at all.
pub proof fn law_reading_one_character(c: char, max: nat)
    ensures
        parsed(Seq::empty(), max) == Err::<nat, ParseIntError>(ParseIntError::Empty),
        '0' <= c <= '9' && c as int - 48 <= max ==> parsed(seq![c], max) == Ok::<
            nat,
            ParseIntError,
        >((c as int - 48) as nat),
        '0' <= c <= '9' && c as int - 48 > max ==> parsed(seq![c], max) == Err::<
            nat,
            ParseIntError,
        >(ParseIntError::PosOverflow),
        !('0' <= c <= '9') ==> parsed(seq![c], max) == Err::<nat, ParseIntError>(
            ParseIntError::InvalidDigit,
        ),
{
    let s = seq![c];
    if c == '+' {
        assert(s =~= seq!['+']);
    } else {
        assert(s[0] == c);
        assert(s != seq!['+']) by {
            assert(seq!['+'][0] == '+');
        }
        lemma_scanned_push(Seq::empty(), c, 0, max);
        assert(Seq::<char>::empty().push(c) =~= s);
    }
}

/// Reading one character more: a digit adds itself to ten times the number so far, and any
/// other character spoils it. What could not be read stays so, for the same reason.
pub proof fn law_reading_one_more_character(s: Seq<char>, c: char, max: nat)
    ensures
        parsed(s, max) matches Ok(n) ==> {
            &&& '0' <= c <= '9' && 10 * n + (c as int - 48) <= max ==> parsed(s.push(c), max) == Ok::<
                nat,
                ParseIntError,
            >((10 * n + (c as int - 48)) as nat)
            &&& '0' <= c <= '9' && 10 * n + (c as int - 48) > max ==> parsed(s.push(c), max)
                == Err::<nat, ParseIntError>(ParseIntError::PosOverflow)
            &&& !('0' <= c <= '9') ==> parsed(s.push(c), max) == Err::<nat, ParseIntError>(
                ParseIntError::InvalidDigit,
            )
        },
        s.len() > 0 && s != seq!['+'] && parsed(s, max) is Err ==> parsed(s.push(c), max)
            == parsed(s, max),
{
    if s.len() > 0 {
        let longer = s.push(c);
        assert(longer[0] == s[0]);
        assert(longer.len() > 1);
        assert(longer != seq!['+']) by {
            assert(seq!['+'].len() == 1);
        }
        if s[0] == '+' {
            assert(longer.drop_first() =~= s.drop_first().push(c));
            lemma_scanned_push(s.drop_first(), c, 0, max);
        } else {
            lemma_scanned_push(s, c, 0, max);
        }
    }
}

/// A plus sign before a number does not change it, and two of them make it none.
pub proof fn law_reading_a_plus_sign(s: Seq<char>, max: nat)
    requires
        s.len() > 0,
    ensures
        s[0] != '+' ==> parsed(seq!['+'] + s, max) == parsed(s, max),
        s[0] == '+' ==> parsed(seq!['+'] + s, max) == Err::<nat, ParseIntError>(
            ParseIntError::InvalidDigit,
        ),
{
    let signed = seq!['+'] + s;
    assert(signed[0] == '+');
    assert(signed.drop_first() =~= s);
    assert(signed.len() > 1);
    assert(signed != seq!['+']) by {
        assert(seq!['+'].len() == 1);
    }
    if s[0] != '+' {
        assert(s != seq!['+']) by {
            assert(seq!['+'][0] == '+');
        }
    }
}

proof fn lemma_scanned_push(digits: Seq<char>, c: char, read: nat, max: nat)
    ensures
        scanned(digits.push(c), read, max) == match scanned(digits, read, max) {
            Err(e) => Err(e),
            Ok(n) => if !is_digit(c) {
                Err(ParseIntError::InvalidDigit)
            } else if n * 10 + digit_value(c) > max {
                Err(ParseIntError::PosOverflow)
            } else {
                Ok(n * 10 + digit_value(c))
            },
        },
    decreases digits.len(),
{
    let longer = digits.push(c);
    if digits.len() == 0 {
        assert(longer[0] == c);
        assert(longer.drop_first() =~= Seq::empty());
        assert(scanned(longer.drop_first(), read * 10 + digit_value(c), max) == Ok::<
            nat,
            ParseIntError,
        >(read * 10 + digit_value(c)));
    } else {
        assert(longer[0] == digits[0]);
        assert(longer.drop_first() =~= digits.drop_first().push(c));
        if is_digit(digits[0]) && read * 10 + digit_value(digits[0]) <= max {
            lemma_scanned_push(
                digits.drop_first(),
                c,
                read * 10 + digit_value(digits[0]),
                max,
            );
        }
    }
}

/// A number is written in ASCII digits and nothing else, and without needless zeros before
/// it.
pub proof fn law_decimal_text_is_short(n: nat)
    ensures
        decimal_text(n).len() > 0,
        forall|i: int| 0 <= i < decimal_text(n).len() ==> '0' <= #[trigger] decimal_text(n)[i] <= '9',
        decimal_text(n)[0] == '0' ==> n == 0 && decimal_text(n).len() == 1,
    decreases n,
{
    if n >= 10 {
        law_decimal_text_is_short(n / 10);
        assert(decimal_text(n)[0] == decimal_text(n / 10)[0]);
        assert forall|i: int| 0 <= i < decimal_text(n).len() implies '0' <= #[trigger] decimal_text(
            n,
        )[i] <= '9' by {
            if i < decimal_text(n / 10).len() {
                assert(decimal_text(n)[i] == decimal_text(n / 10)[i]);
            }
        }
    }
}

/// A text begins with a prefix exactly where something can be put behind the prefix to
/// make up the text.
pub proof fn law_prefix(s: Seq<char>, prefix: Seq<char>)
    ensures
        has_prefix(s, prefix) <==> exists|rest: Seq<char>| s == #[trigger] (prefix + rest),
{
    if has_prefix(s, prefix) {
        assert(s =~= prefix + s.skip(prefix.len() as int));
    }
    if exists|rest: Seq<char>| s == #[trigger] (prefix + rest) {
        let rest = choose|rest: Seq<char>| s == #[trigger] (prefix + rest);
        assert(s.take(prefix.len() as int) =~= prefix);
    }
}

/// The lower case of an ASCII text has the same length, with the letters from A to Z moved
/// by 32 places to those from a to z, and every other character where it was.
pub proof fn law_ascii_lowercase(s: Seq<char>, i: int)
    requires
        is_ascii_chars(s),
        0 <= i < s.len(),
    ensures
        lowercase(s).len() == s.len(),
        'A' <= s[i] <= 'Z' ==> lowercase(s)[i] as int == s[i] as int + 32,
        !('A' <= s[i] <= 'Z') ==> lowercase(s)[i] == s[i],
{
}

} // verus!
