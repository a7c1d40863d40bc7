//! Validation of a draft reminder before it is handed to the store.

use vstd::prelude::*;

verus! {

/// An ASCII decimal digit.
pub open spec fn is_digit(c: char) -> bool {
    '0' <= c && c <= '9'
}

/// The value of an ASCII decimal digit.
pub open spec fn digit_value(c: char) -> int {
    c as int - '0' as int
}

/// The hour that a time of day in the form `HH:MM` names.
pub open spec fn hour_of(s: Seq<char>) -> int {
    10 * digit_value(s[0]) + digit_value(s[1])
}

/// The minute that a time of day in the form `HH:MM` names.
pub open spec fn minute_of(s: Seq<char>) -> int {
    10 * digit_value(s[3]) + digit_value(s[4])
}

/// A time of day in 24-hour form: exactly two digits of hour, a colon and two
/// digits of minute, with the hour below 24 and the minute below 60.
pub open spec fn is_valid_time(s: Seq<char>) -> bool {
    &&& s.len() == 5
    &&& is_digit(s[0])
    &&& is_digit(s[1])
    &&& s[2] == ':'
    &&& is_digit(s[3])
    &&& is_digit(s[4])
    &&& hour_of(s) < 24
    &&& minute_of(s) < 60
}

/// The minutes from midnight to a time of day in the form `HH:MM`.
pub open spec fn minute_of_day(s: Seq<char>) -> int {
    60 * hour_of(s) + minute_of(s)
}

/// The order of texts as a store sorts them: `a` comes before `b` if it is
/// smaller at the first place where the two differ, or if it is a proper
/// prefix of `b`.
pub open spec fn text_before(a: Seq<char>, b: Seq<char>) -> bool {
    ||| exists|i: int|
        0 <= i < a.len() && i < b.len() && a.subrange(0, i) == b.subrange(0, i) && a[i] < b[i]
    ||| (a.len() < b.len() && a == b.subrange(0, a.len() as int))
}

/// The ASCII code of `0`.
const ASCII_ZERO: u8 = 48;

/// The ASCII code of `9`.
const ASCII_NINE: u8 = 57;

/// The ASCII code of the colon.
const ASCII_COLON: u8 = 58;

/// Whether `byte` is an ASCII decimal digit.
fn is_digit_byte(byte: u8) -> (digit: bool)
    ensures
        digit == (ASCII_ZERO <= byte <= ASCII_NINE),
{
    ASCII_ZERO <= byte && byte <= ASCII_NINE
}

/// Whether `time` is a time of day in the form `HH:MM`.
pub fn validate_time_format(time: &str) -> (valid: bool)
    ensures
        valid == is_valid_time(time@),
{
    if !time.is_ascii() {
        return false;
    }
    let bytes = time.as_bytes();
    proof {
        vstd::string::is_ascii_spec_bytes(time);
    }
    if bytes.len() != 5 || bytes[2] != ASCII_COLON {
        return false;
    }
    if !(is_digit_byte(bytes[0]) && is_digit_byte(bytes[1]) && is_digit_byte(bytes[3])
        && is_digit_byte(bytes[4])) {
        return false;
    }
    let hour: u8 = (bytes[0] - ASCII_ZERO) * 10 + (bytes[1] - ASCII_ZERO);
    let minute: u8 = (bytes[3] - ASCII_ZERO) * 10 + (bytes[4] - ASCII_ZERO);
    hour < 24 && minute < 60
}

/// Why a draft was turned down.
#[derive(Debug, Clone, Copy, PartialEq, Eq, Structural)]
pub enum ValidationError {
    /// One of the three fields is empty.
    EmptyField,
    /// The time field is not a time of day in the form `HH:MM`.
    InvalidTime,
}

impl ValidationError {
    /// The text shown to the user for this failure.
    pub open spec fn message_text(self) -> Seq<char> {
        match self {
            ValidationError::EmptyField => "All fields must be filled"@,
            ValidationError::InvalidTime => "Invalid time format. Use HH:MM (e.g., 06:59)"@,
        }
    }

    /// The text shown to the user for this failure.
    pub fn message(&self) -> (text: String)
        ensures
            text@ == self.message_text(),
    {
        match self {
            ValidationError::EmptyField => "All fields must be filled".to_owned(),
            ValidationError::InvalidTime => {
                "Invalid time format. Use HH:MM (e.g., 06:59)".to_owned()
            },
        }
    }
}

/// The verdict on a draft: every field must hold something, and then the time
/// must be a time of day. An empty field is reported before a malformed time.
pub open spec fn check_draft(title: Seq<char>, description: Seq<char>, time: Seq<char>) -> Result<
    (),
    ValidationError,
> {
    if title.len() == 0 || description.len() == 0 || time.len() == 0 {
        Err(ValidationError::EmptyField)
    } else if !is_valid_time(time) {
        Err(ValidationError::InvalidTime)
    } else {
        Ok(())
    }
}

/// Validates the three fields of a draft: title, description and time.
pub fn validate_draft(fields: &[String; 3]) -> (verdict: Result<(), ValidationError>)
    ensures
        verdict == check_draft(fields@[0]@, fields@[1]@, fields@[2]@),
{
    if fields[0].as_str().is_empty() || fields[1].as_str().is_empty()
        || fields[2].as_str().is_empty() {
        return Err(ValidationError::EmptyField);
    }
    if !validate_time_format(fields[2].as_str()) {
        return Err(ValidationError::InvalidTime);
    }
    Ok(())
}

/// A time of day names a minute of the day, and one only: two times of day
/// are the same text exactly when they name the same minute.
pub proof fn lemma_time_names_one_minute(a: Seq<char>, b: Seq<char>)
    requires
        is_valid_time(a),
        is_valid_time(b),
    ensures
        0 <= hour_of(a) < 24,
        0 <= minute_of(a) < 60,
        0 <= minute_of_day(a) < 24 * 60,
        a == b <==> minute_of_day(a) == minute_of_day(b),
{
    if minute_of_day(a) == minute_of_day(b) {
        assert(a =~= b);
    }
}

/// Times of day sort as texts in the order of the clock: one comes before
/// another as a text exactly when it is the earlier minute of the day.
pub proof fn lemma_text_order_is_clock_order(a: Seq<char>, b: Seq<char>)
    requires
        is_valid_time(a),
        is_valid_time(b),
    ensures
        text_before(a, b) <==> minute_of_day(a) < minute_of_day(b),
{
    if text_before(a, b) {
        let i = choose|i: int|
            0 <= i < a.len() && i < b.len() && a.subrange(0, i) == b.subrange(0, i) && a[i] < b[i];
        assert forall|j: int| 0 <= j < i implies a[j] == b[j] by {
            assert(a.subrange(0, i)[j] == b.subrange(0, i)[j]);
        }
    }
    if minute_of_day(a) < minute_of_day(b) {
        let i: int = if a[0] != b[0] {
            0
        } else if a[1] != b[1] {
            1
        } else if a[3] != b[3] {
            3
        } else {
            4
        };
        assert(a.subrange(0, i) =~= b.subrange(0, i));
        assert(a[i] < b[i]);
    }
}

} // verus!
