use crate::errors::{DateTimeError, DecodeLpstrError};
use chrono::{NaiveDate, NaiveTime};
use libc::{c_char, c_long};
use vstd::prelude::*;

verus! {

/// Length of the message buffers handed to Trans2QUIK functions.
pub const MESSAGE_BUFFER_LEN: usize = 256;

// ---------------------------------------------------------------------------
// windows-1251 text
// ---------------------------------------------------------------------------

/// The code points of the windows-1251 bytes 0x80 to 0xFF, in order.
pub open spec fn windows_1251_high() -> Seq<u16> {
    seq![
        0x0402, 0x0403, 0x201A, 0x0453, 0x201E, 0x2026, 0x2020, 0x2021,
        0x20AC, 0x2030, 0x0409, 0x2039, 0x040A, 0x040C, 0x040B, 0x040F,
        0x0452, 0x2018, 0x2019, 0x201C, 0x201D, 0x2022, 0x2013, 0x2014,
        0x0098, 0x2122, 0x0459, 0x203A, 0x045A, 0x045C, 0x045B, 0x045F,
        0x00A0, 0x040E, 0x045E, 0x0408, 0x00A4, 0x0490, 0x00A6, 0x00A7,
        0x0401, 0x00A9, 0x0404, 0x00AB, 0x00AC, 0x00AD, 0x00AE, 0x0407,
        0x00B0, 0x00B1, 0x0406, 0x0456, 0x0491, 0x00B5, 0x00B6, 0x00B7,
        0x0451, 0x2116, 0x0454, 0x00BB, 0x0458, 0x0405, 0x0455, 0x0457,
        0x0410, 0x0411, 0x0412, 0x0413, 0x0414, 0x0415, 0x0416, 0x0417,
        0x0418, 0x0419, 0x041A, 0x041B, 0x041C, 0x041D, 0x041E, 0x041F,
        0x0420, 0x0421, 0x0422, 0x0423, 0x0424, 0x0425, 0x0426, 0x0427,
        0x0428, 0x0429, 0x042A, 0x042B, 0x042C, 0x042D, 0x042E, 0x042F,
        0x0430, 0x0431, 0x0432, 0x0433, 0x0434, 0x0435, 0x0436, 0x0437,
        0x0438, 0x0439, 0x043A, 0x043B, 0x043C, 0x043D, 0x043E, 0x043F,
        0x0440, 0x0441, 0x0442, 0x0443, 0x0444, 0x0445, 0x0446, 0x0447,
        0x0448, 0x0449, 0x044A, 0x044B, 0x044C, 0x044D, 0x044E, 0x044F,
    ]
}

/// The character of one windows-1251 byte: ASCII bytes stand for
/// themselves, the others are looked up in the table.
pub open spec fn windows_1251_char(b: u8) -> char {
    if b < 0x80 {
        b as char
    } else {
        windows_1251_high()[b - 0x80] as char
    }
}

/// The windows-1251 text of a byte sequence: one character per byte.
pub open spec fn windows_1251_decode(bytes: Seq<u8>) -> Seq<char> {
    bytes.map_values(|b: u8| windows_1251_char(b))
}

/// Inputs that `encoding_rs` decodes without running out of buffer space.
pub open spec fn decodable_length(len: nat) -> bool {
    len * 3 <= isize::MAX
}

/// Decodes `bytes` as windows-1251 with
/// `encoding_rs::WINDOWS_1251.decode_without_bom_handling`. As the crate's
/// source shows (its windows-1251 table and single-byte decoder), every byte
/// gives one character: an ASCII byte itself, a high byte the code point in
/// the table, which has no empty entry, so decoding never reports malformed
/// input. Inputs for which the crate's buffer size computation could
/// overflow are excluded.
#[verifier::external_body]
fn decode_windows_1251(bytes: &[u8]) -> (decoded: (String, bool))
    requires
        decodable_length(bytes@.len()),
    ensures
        decoded.0@ == windows_1251_decode(bytes@),
        !decoded.1,
{
    let (text, had_errors) = encoding_rs::WINDOWS_1251.decode_without_bom_handling(bytes);
    (text.into_owned(), had_errors)
}

/// The byte that a C character stands for.
pub open spec fn byte_of(c: c_char) -> u8 {
    c as u8
}

/// The bytes that a buffer of C characters holds.
pub open spec fn bytes_of(chars: Seq<c_char>) -> Seq<u8> {
    chars.map_values(|c: c_char| byte_of(c))
}

/// The bytes of a C string: everything before the first NUL byte, or the
/// whole sequence when it holds none.
pub open spec fn c_text(bytes: Seq<u8>) -> Seq<u8>
    decreases bytes.len(),
{
    if bytes.len() == 0 || bytes[0] == 0 {
        Seq::empty()
    } else {
        seq![bytes[0]] + c_text(bytes.drop_first())
    }
}

/// The C string of `bytes` is the prefix up to the first NUL byte.
pub proof fn lemma_c_text_is_prefix(bytes: Seq<u8>, end: int)
    requires
        0 <= end <= bytes.len(),
        forall|j: int| 0 <= j < end ==> bytes[j] != 0,
        end == bytes.len() || bytes[end] == 0,
    ensures
        c_text(bytes) == bytes.take(end),
    decreases end,
{
    if end == 0 {
        assert(bytes.take(0) =~= Seq::<u8>::empty());
    } else {
        let rest = bytes.drop_first();
        assert forall|j: int| 0 <= j < end - 1 implies rest[j] != 0 by {
            assert(rest[j] == bytes[j + 1]);
        }
        lemma_c_text_is_prefix(rest, end - 1);
        assert(bytes.take(end) =~= seq![bytes[0]] + rest.take(end - 1));
    }
}

/// A C string holds no NUL byte and is no longer than its buffer.
pub proof fn lemma_c_text_has_no_nul(bytes: Seq<u8>)
    ensures
        c_text(bytes).len() <= bytes.len(),
        forall|i: int| 0 <= i < c_text(bytes).len() ==> c_text(bytes)[i] != 0,
        forall|i: int| 0 <= i < c_text(bytes).len() ==> c_text(bytes)[i] == bytes[i],
    decreases bytes.len(),
{
    if bytes.len() > 0 && bytes[0] != 0 {
        let rest = bytes.drop_first();
        lemma_c_text_has_no_nul(rest);
        assert forall|i: int| 0 < i < c_text(bytes).len() implies c_text(bytes)[i] == bytes[i] by {
            assert(c_text(bytes)[i] == c_text(rest)[i - 1]);
            assert(rest[i - 1] == bytes[i]);
        }
    }
}

/// Reinterprets C characters as bytes.
pub fn c_chars_to_bytes(c_chars: &[c_char]) -> (bytes: Vec<u8>)
    ensures
        bytes@ == bytes_of(c_chars@),
{
    let mut bytes: Vec<u8> = Vec::new();
    let mut i: usize = 0;
    while i < c_chars.len()
        invariant
            i <= c_chars@.len(),
            bytes@ == bytes_of(c_chars@.take(i as int)),
        decreases c_chars@.len() - i,
    {
        bytes.push(c_chars[i] as u8);
        assert(bytes_of(c_chars@.take(i + 1)) =~= bytes_of(c_chars@.take(i as int)).push(
            byte_of(c_chars@[i as int]),
        ));
        i += 1;
    }
    assert(c_chars@.take(i as int) =~= c_chars@);
    bytes
}

/// The text of a null-terminated Trans2QUIK buffer: the windows-1251
/// decoding of its C string.
pub open spec fn buffer_reading(buffer: Seq<c_char>) -> Seq<char> {
    windows_1251_decode(c_text(bytes_of(buffer)))
}

/// Decodes a null-terminated Trans2QUIK buffer (windows-1251) into `String`:
/// the text before the first NUL character, or the whole buffer when it
/// holds none.
pub fn decode_c_buffer(buffer: &[c_char]) -> (text: String)
    requires
        decodable_length(buffer@.len()),
    ensures
        text@ == buffer_reading(buffer@),
        text@.len() == c_text(bytes_of(buffer@)).len(),
        forall|i: int|
            0 <= i < text@.len() && c_text(bytes_of(buffer@))[i] < 0x80 ==> text@[i] == (
            #[trigger] c_text(bytes_of(buffer@))[i]) as char,
{
    let bytes = c_chars_to_bytes(buffer);
    let mut prefix: Vec<u8> = Vec::new();
    let mut i: usize = 0;
    while i < bytes.len() && bytes[i] != 0
        invariant
            i <= bytes@.len(),
            prefix@ == bytes@.take(i as int),
            forall|j: int| 0 <= j < i ==> bytes@[j] != 0,
        decreases bytes@.len() - i,
    {
        prefix.push(bytes[i]);
        assert(bytes@.take(i + 1) =~= bytes@.take(i as int).push(bytes@[i as int]));
        i += 1;
    }
    proof {
        lemma_c_text_is_prefix(bytes@, i as int);
    }
    let (text, _) = decode_windows_1251(prefix.as_slice());
    text
}

/// What reading a Trans2QUIK `LPSTR` gives: `None` stands for a null
/// pointer, `Some(bytes)` for the bytes of the C string it points to.
pub open spec fn lpstr_reading(bytes: Option<Seq<u8>>) -> Result<Seq<char>, DecodeLpstrError> {
    match bytes {
        None => Err(DecodeLpstrError::NullPointer),
        Some(b) => Ok(windows_1251_decode(b)),
    }
}

/// The view of an optional byte slice.
pub open spec fn opt_bytes(bytes: Option<&[u8]>) -> Option<Seq<u8>> {
    match bytes {
        None => None,
        Some(b) => Some(b@),
    }
}

/// The view of a decoded string, if any.
pub open spec fn text_view<E>(text: Result<String, E>) -> Result<Seq<char>, E> {
    match text {
        Ok(s) => Ok(s@),
        Err(e) => Err(e),
    }
}

/// Decodes a Trans2QUIK `LPSTR` (windows-1251) into `String`. `None` stands
/// for a null pointer, `Some(bytes)` for the bytes of the C string.
pub fn decode_lpstr(bytes: Option<&[u8]>) -> (decoded: Result<String, DecodeLpstrError>)
    requires
        bytes matches Some(b) ==> decodable_length(b@.len()),
    ensures
        text_view(decoded) == lpstr_reading(opt_bytes(bytes)),
        bytes matches Some(b) ==> (decoded matches Ok(text) && text@.len() == b@.len() && (
        forall|i: int|
            0 <= i < b@.len() && b@[i] < 0x80 ==> text@[i] == (#[trigger] b@[i]) as char)),
{
    match bytes {
        None => Err(DecodeLpstrError::NullPointer),
        Some(b) => {
            let (text, had_errors) = decode_windows_1251(b);
            if had_errors {
                Err(DecodeLpstrError::DecodeError)
            } else {
                Ok(text)
            }
        },
    }
}

// ---------------------------------------------------------------------------
// dates and times
// ---------------------------------------------------------------------------

/// The character of a decimal digit.
pub open spec fn digit_char(d: nat) -> char {
    (48 + d) as char
}

/// The decimal notation of `n`, most significant digit first.
pub open spec fn decimal_digits(n: nat) -> Seq<char>
    decreases n,
{
    if n < 10 {
        seq![digit_char(n)]
    } else {
        decimal_digits(n / 10).push(digit_char(n % 10))
    }
}

/// The decimal notation of `n`, left-padded with `'0'` up to `width`
/// characters (longer notations are kept whole), as `{:0width$}` formats a
/// non-negative number.
pub open spec fn zero_padded(n: nat, width: nat) -> Seq<char> {
    let digits = decimal_digits(n);
    if digits.len() < width {
        Seq::new((width - digits.len()) as nat, |i: int| '0') + digits
    } else {
        digits
    }
}

/// Appends the decimal notation of `n` to `out`.
fn push_decimal(n: u32, out: &mut Vec<char>)
    ensures
        final(out)@ == old(out)@ + decimal_digits(n as nat),
    decreases n,
{
    if n >= 10 {
        push_decimal(n / 10, out);
    }
    let d: u8 = (n % 10) as u8;
    out.push((48u8 + d) as char);
    assert(old(out)@ + decimal_digits(n as nat) =~= if n >= 10 {
        (old(out)@ + decimal_digits((n / 10) as nat)).push(digit_char((n % 10) as nat))
    } else {
        old(out)@.push(digit_char(n as nat))
    });
}

/// The decimal notation of `n`, left-padded with `'0'` up to `width`.
pub fn zero_padded_decimal(n: u32, width: usize) -> (text: Vec<char>)
    ensures
        text@ == zero_padded(n as nat, width as nat),
{
    let mut digits: Vec<char> = Vec::new();
    push_decimal(n, &mut digits);
    assert(digits@ =~= decimal_digits(n as nat));
    let mut text: Vec<char> = Vec::new();
    let mut pad: usize = 0;
    let fill: usize = if digits.len() < width { width - digits.len() } else { 0 };
    while pad < fill
        invariant
            pad <= fill,
            text@ =~= Seq::new(pad as nat, |i: int| '0'),
        decreases fill - pad,
    {
        text.push('0');
        pad += 1;
    }
    let mut i: usize = 0;
    while i < digits.len()
        invariant
            i <= digits@.len(),
            text@ =~= Seq::new(fill as nat, |j: int| '0') + digits@.take(i as int),
        decreases digits@.len() - i,
    {
        text.push(digits[i]);
        assert(digits@.take(i + 1) =~= digits@.take(i as int).push(digits@[i as int]));
        i += 1;
    }
    assert(digits@.take(i as int) =~= digits@);
    text
}

/// What `chrono::NaiveDate::parse_from_str` gives for a text and a format.
pub uninterp spec fn naive_date_from_str(text: Seq<char>, format: Seq<char>) -> Result<NaiveDate, chrono::ParseError>;

/// What `chrono::NaiveTime::parse_from_str` gives for a text and a format.
pub uninterp spec fn naive_time_from_str(text: Seq<char>, format: Seq<char>) -> Result<NaiveTime, chrono::ParseError>;

/// Parses `text` with `chrono::NaiveDate::parse_from_str` and the format
/// `format`; the result is the one named by `naive_date_from_str`.
#[verifier::external_body]
fn parse_naive_date(text: &[char], format: &str) -> (parsed: Result<NaiveDate, chrono::ParseError>)
    ensures
        parsed == naive_date_from_str(text@, format@),
{
    let text: String = text.iter().collect();
    NaiveDate::parse_from_str(&text, format)
}

/// Parses `text` with `chrono::NaiveTime::parse_from_str` and the format
/// `format`; the result is the one named by `naive_time_from_str`.
#[verifier::external_body]
fn parse_naive_time(text: &[char], format: &str) -> (parsed: Result<NaiveTime, chrono::ParseError>)
    ensures
        parsed == naive_time_from_str(text@, format@),
{
    let text: String = text.iter().collect();
    NaiveTime::parse_from_str(&text, format)
}

/// The format of Trans2QUIK dates, `yyyymmdd`.
pub open spec fn date_format() -> Seq<char> {
    "%Y%m%d"@
}

/// The format of Trans2QUIK times, `hhmmss`.
pub open spec fn time_format() -> Seq<char> {
    "%H%M%S"@
}

/// What a Trans2QUIK date number stands for: a positive 32-bit number whose
/// eight-digit, zero-padded decimal notation reads as `yyyymmdd`.
pub open spec fn date_reading(date: int) -> Result<NaiveDate, DateTimeError> {
    if date <= 0 || date > i32::MAX {
        Err(DateTimeError::InvalidDate)
    } else {
        match naive_date_from_str(zero_padded(date as nat, 8), date_format()) {
            Ok(d) => Ok(d),
            Err(e) => Err(DateTimeError::ParseError(e)),
        }
    }
}

/// What a Trans2QUIK time number stands for: a positive 32-bit number whose
/// six-digit, zero-padded decimal notation reads as `hhmmss`.
pub open spec fn time_reading(time: int) -> Result<NaiveTime, DateTimeError> {
    if time <= 0 || time > i32::MAX {
        Err(DateTimeError::InvalidTime)
    } else {
        match naive_time_from_str(zero_padded(time as nat, 6), time_format()) {
            Ok(t) => Ok(t),
            Err(e) => Err(DateTimeError::ParseError(e)),
        }
    }
}

/// Parses a Trans2QUIK date in `yyyymmdd` format.
pub fn parse_date(date: c_long) -> (parsed: Result<NaiveDate, DateTimeError>)
    ensures
        parsed == date_reading(date as int),
{
    if date <= 0 || date > i32::MAX as c_long {
        return Err(DateTimeError::InvalidDate);
    }
    let digits = zero_padded_decimal(date as u32, 8);
    let format = "%Y%m%d";
    match parse_naive_date(digits.as_slice(), format) {
        Ok(d) => Ok(d),
        Err(e) => Err(DateTimeError::from(e)),
    }
}

/// Parses a Trans2QUIK time in `hhmmss` format.
pub fn parse_time(time: c_long) -> (parsed: Result<NaiveTime, DateTimeError>)
    ensures
        parsed == time_reading(time as int),
{
    if time <= 0 || time > i32::MAX as c_long {
        return Err(DateTimeError::InvalidTime);
    }
    let digits = zero_padded_decimal(time as u32, 6);
    let format = "%H%M%S";
    match parse_naive_time(digits.as_slice(), format) {
        Ok(t) => Ok(t),
        Err(e) => Err(DateTimeError::from(e)),
    }
}

/// The number that a sequence of decimal digit characters denotes, most
/// significant digit first.
pub open spec fn decimal_value(text: Seq<char>) -> int
    decreases text.len(),
{
    if text.len() == 0 {
        0
    } else {
        decimal_value(text.drop_last()) * 10 + (text.last() as int - 48)
    }
}

/// Every character is a decimal digit.
pub open spec fn all_digits(text: Seq<char>) -> bool {
    forall|i: int| 0 <= i < text.len() ==> '0' <= #[trigger] text[i] <= '9'
}

/// Ten to the power `k`.
pub open spec fn pow10(k: nat) -> nat
    decreases k,
{
    if k == 0 {
        1
    } else {
        10 * pow10((k - 1) as nat)
    }
}

proof fn lemma_decimal_digits(n: nat)
    ensures
        decimal_value(decimal_digits(n)) == n,
        all_digits(decimal_digits(n)),
        decimal_digits(n).len() >= 1,
    decreases n,
{
    assert(digit_char(n % 10) as int == 48 + n % 10);
    if n >= 10 {
        lemma_decimal_digits(n / 10);
        let head = decimal_digits(n / 10);
        assert(head.push(digit_char(n % 10)).drop_last() =~= head);
        let whole = head.push(digit_char(n % 10));
        assert(whole.last() == digit_char(n % 10));
        assert(decimal_value(whole) == decimal_value(head) * 10 + (n % 10));
        assert((n / 10) * 10 + n % 10 == n);
    } else {
        let whole = seq![digit_char(n)];
        assert(whole.drop_last() =~= Seq::<char>::empty());
        assert(decimal_value(Seq::<char>::empty()) == 0);
        assert(decimal_value(whole) == n);
    }
}

proof fn lemma_decimal_digits_len(n: nat, k: nat)
    requires
        k >= 1,
        n < pow10(k),
    ensures
        decimal_digits(n).len() <= k,
    decreases k,
{
    if n >= 10 {
        if k == 1 {
            assert(pow10(1) == 10) by {
                reveal_with_fuel(pow10, 2);
            }
        } else {
            assert(n / 10 < pow10((k - 1) as nat));
            lemma_decimal_digits_len(n / 10, (k - 1) as nat);
        }
    }
}

proof fn lemma_leading_zeros(zeros: nat, text: Seq<char>)
    ensures
        decimal_value(Seq::new(zeros, |i: int| '0') + text) == decimal_value(text),
    decreases text.len() + zeros,
{
    let z = Seq::new(zeros, |i: int| '0');
    if text.len() == 0 {
        assert(z + text =~= z);
        if zeros > 0 {
            let shorter = Seq::new((zeros - 1) as nat, |i: int| '0');
            assert(z.drop_last() =~= shorter + Seq::<char>::empty());
            lemma_leading_zeros((zeros - 1) as nat, Seq::<char>::empty());
        }
    } else {
        assert((z + text).drop_last() =~= z + text.drop_last());
        lemma_leading_zeros(zeros, text.drop_last());
    }
}

/// The text that a positive number up to `width` digits is formatted into
/// has exactly `width` decimal digits and denotes that number: the date and
/// time numbers of Trans2QUIK reach chrono as their `yyyymmdd` and `hhmmss`
/// notations.
pub proof fn law_zero_padded_notation(n: nat, width: nat)
    requires
        width >= 1,
        n < pow10(width),
    ensures
        zero_padded(n, width).len() == width,
        all_digits(zero_padded(n, width)),
        decimal_value(zero_padded(n, width)) == n,
{
    lemma_decimal_digits(n);
    lemma_decimal_digits_len(n, width);
    let digits = decimal_digits(n);
    if digits.len() < width {
        let fill = (width - digits.len()) as nat;
        lemma_leading_zeros(fill, digits);
        let padded = Seq::new(fill, |i: int| '0') + digits;
        assert forall|i: int| 0 <= i < padded.len() implies '0' <= #[trigger] padded[i] <= '9' by {
            if i >= fill {
                assert(padded[i] == digits[i - fill]);
            }
        }
    }
}

/// What `decode_c_buffer` gives for a buffer is what `decode_lpstr` gives for
/// the C string the buffer holds: every C string reads without error, and
/// both read it as windows-1251.
pub proof fn law_buffer_reads_as_its_c_string(buffer: Seq<c_char>)
    ensures
        lpstr_reading(Some(c_text(bytes_of(buffer)))) == Ok::<Seq<char>, DecodeLpstrError>(
            buffer_reading(buffer),
        ),
{
}

/// Reading a C string fails only for a null pointer.
pub proof fn law_only_null_pointers_fail(bytes: Option<Seq<u8>>)
    ensures
        lpstr_reading(bytes) is Err <==> bytes is None,
{
}

/// Every number is formatted into decimal digits that denote it, at least
/// `width` of them, and exactly `width` when it has no more digits than that.
pub proof fn law_zero_padded_denotes_its_number(n: nat, width: nat)
    ensures
        all_digits(zero_padded(n, width)),
        decimal_value(zero_padded(n, width)) == n,
        zero_padded(n, width).len() >= width,
        width >= 1 && n < pow10(width) ==> zero_padded(n, width).len() == width,
{
    lemma_decimal_digits(n);
    let digits = decimal_digits(n);
    if digits.len() < width {
        let fill = (width - digits.len()) as nat;
        lemma_leading_zeros(fill, digits);
        let padded = Seq::new(fill, |i: int| '0') + digits;
        assert forall|i: int| 0 <= i < padded.len() implies '0' <= #[trigger] padded[i] <= '9' by {
            if i >= fill {
                assert(padded[i] == digits[i - fill]);
            }
        }
    }
    if width >= 1 && n < pow10(width) {
        law_zero_padded_notation(n, width);
    }
}

/// A date number outside `1..=i32::MAX` is an invalid date. Any other date
/// number reaches chrono as the decimal digits that denote it, eight of
/// them for numbers below 10^8 (`yyyymmdd`), always with the format
/// `%Y%m%d`; chrono's date is the result, and chrono's error is reported as
/// a parse error.
pub proof fn law_date_reads_its_yyyymmdd_notation(n: int)
    ensures
        !(0 < n <= i32::MAX) ==> date_reading(n) == Err::<NaiveDate, DateTimeError>(
            DateTimeError::InvalidDate,
        ),
        0 < n <= i32::MAX ==> {
            let text = zero_padded(n as nat, 8);
            &&& all_digits(text)
            &&& decimal_value(text) == n
            &&& (n < 100_000_000 ==> text.len() == 8)
            &&& (naive_date_from_str(text, "%Y%m%d"@) matches Ok(d) ==> date_reading(n) == Ok::<
                NaiveDate,
                DateTimeError,
            >(d))
            &&& (naive_date_from_str(text, "%Y%m%d"@) matches Err(e) ==> date_reading(n) == Err::<
                NaiveDate,
                DateTimeError,
            >(DateTimeError::ParseError(e)))
        },
{
    if 0 < n <= i32::MAX {
        assert(pow10(8) == 100_000_000) by {
            reveal_with_fuel(pow10, 9);
        }
        law_zero_padded_denotes_its_number(n as nat, 8);
    }
}

/// A time number outside `1..=i32::MAX` is an invalid time. Any other time
/// number reaches chrono as the decimal digits that denote it, six of them
/// for numbers below 10^6 (`hhmmss`, so the hour read is the number divided
/// by 10000), always with the format `%H%M%S`; chrono's time is the result,
/// and chrono's error is reported as a parse error.
pub proof fn law_time_reads_its_hhmmss_notation(t: int)
    ensures
        !(0 < t <= i32::MAX) ==> time_reading(t) == Err::<NaiveTime, DateTimeError>(
            DateTimeError::InvalidTime,
        ),
        0 < t <= i32::MAX ==> {
            let text = zero_padded(t as nat, 6);
            &&& all_digits(text)
            &&& decimal_value(text) == t
            &&& (t < 1_000_000 ==> text.len() == 6)
            &&& (naive_time_from_str(text, "%H%M%S"@) matches Ok(v) ==> time_reading(t) == Ok::<
                NaiveTime,
                DateTimeError,
            >(v))
            &&& (naive_time_from_str(text, "%H%M%S"@) matches Err(e) ==> time_reading(t) == Err::<
                NaiveTime,
                DateTimeError,
            >(DateTimeError::ParseError(e)))
        },
{
    if 0 < t <= i32::MAX {
        assert(pow10(6) == 1_000_000) by {
            reveal_with_fuel(pow10, 7);
        }
        law_zero_padded_denotes_its_number(t as nat, 6);
    }
}

/// Each C character is read as the byte with its bit pattern, so the C
/// string of a buffer ends exactly at the first character that is 0 in the
/// buffer, or at its end.
pub proof fn law_c_chars_keep_their_bits(chars: Seq<c_char>)
    ensures
        bytes_of(chars).len() == chars.len(),
        forall|i: int| 0 <= i < chars.len() ==> #[trigger] bytes_of(chars)[i] == chars[i] as u8,
        c_text(bytes_of(chars)).len() <= chars.len(),
        forall|i: int| 0 <= i < c_text(bytes_of(chars)).len() ==> #[trigger] chars[i] != 0,
        c_text(bytes_of(chars)).len() < chars.len() ==> chars[c_text(bytes_of(chars)).len() as int]
            == 0,
{
    let bytes = bytes_of(chars);
    lemma_c_text_has_no_nul(bytes);
    assert forall|i: int| 0 <= i < c_text(bytes).len() implies #[trigger] chars[i] != 0 by {
        let c = chars[i];
        assert(bytes[i] == c as u8);
        assert(c as u8 != 0 ==> c != 0) by (bit_vector);
    }
    let k = c_text(bytes).len() as int;
    if k < chars.len() {
        lemma_c_text_stops_at_nul(bytes);
        let c = chars[k];
        assert(bytes[k] == c as u8);
        assert(c as u8 == 0 ==> c == 0) by (bit_vector);
    }
}

proof fn lemma_c_text_stops_at_nul(bytes: Seq<u8>)
    ensures
        c_text(bytes).len() < bytes.len() ==> bytes[c_text(bytes).len() as int] == 0,
    decreases bytes.len(),
{
    if bytes.len() > 0 && bytes[0] != 0 {
        let rest = bytes.drop_first();
        lemma_c_text_stops_at_nul(rest);
        if c_text(rest).len() < rest.len() {
            assert(rest[c_text(rest).len() as int] == bytes[c_text(rest).len() + 1int]);
        }
    }
}

/// Windows-1251 text has one character per byte; ASCII bytes stand for
/// themselves, and the bytes 0xC0 to 0xFF are the Cyrillic letters А to я
/// (U+0410 to U+044F) in order.
pub proof fn law_windows_1251_text(bytes: Seq<u8>)
    ensures
        windows_1251_decode(bytes).len() == bytes.len(),
        forall|i: int|
            0 <= i < bytes.len() && bytes[i] < 0x80 ==> #[trigger] windows_1251_decode(bytes)[i]
                == bytes[i] as char,
        forall|i: int|
            0 <= i < bytes.len() && bytes[i] >= 0xC0 ==> #[trigger] windows_1251_decode(bytes)[i]
                as int == 0x410 + (bytes[i] - 0xC0),
{
    lemma_windows_1251_cyrillic();
}

proof fn lemma_windows_1251_cyrillic()
    ensures
        forall|b: u8| b >= 0xC0 ==> #[trigger] windows_1251_char(b) as int == 0x410 + (b - 0xC0),
{
    let t = windows_1251_high();
    assert forall|b: u8| b >= 0xC0 implies #[trigger] windows_1251_char(b) as int == 0x410 + (b
        - 0xC0) by {
        assert(t.len() == 128);
        assert(0x410 + (b - 0xC0) == t[b - 0x80]);
    }
}

/// Reading a C string gives an error exactly for a null pointer, and
/// otherwise its windows-1251 text.
pub proof fn law_lpstr_reading(bytes: Option<Seq<u8>>)
    ensures
        bytes is None ==> lpstr_reading(bytes) == Err::<Seq<char>, DecodeLpstrError>(
            DecodeLpstrError::NullPointer,
        ),
        bytes matches Some(b) ==> lpstr_reading(bytes) == Ok::<Seq<char>, DecodeLpstrError>(
            windows_1251_decode(b),
        ),
{
}

} // verus!
