//! Turning a line typed by the operator into an intent.
use vstd::prelude::*;
use vstd::string::*;

verus! {

/// What the operator asked for.
#[derive(Clone, Copy, Debug, PartialEq, Eq, Structural)]
pub enum Action {
    Unknown,
    Quit,
    Yes,
    No,
    /// A cell index as typed; not yet checked against the board.
    Place(i32),
}

/// The lower-case form of `s`, as `str::to_lowercase` gives it.
pub uninterp spec fn lower_of(s: Seq<char>) -> Seq<char>;

/// Relies on `str::to_lowercase`: the result depends on the characters alone.
#[verifier::external_body]
fn lowercase(s: &str) -> (r: String)
    ensures
        r@ == lower_of(s@),
{
    s.to_lowercase()
}

pub open spec fn is_digit(c: char) -> bool {
    '0' <= c && c <= '9'
}

pub open spec fn all_digits(s: Seq<char>) -> bool {
    forall|i: int| 0 <= i < s.len() ==> is_digit(#[trigger] s[i])
}

/// The value of a run of decimal digits.
pub open spec fn digits_value(s: Seq<char>) -> int
    decreases s.len(),
{
    if s.len() == 0 {
        0
    } else {
        digits_value(s.drop_last()) * 10 + (s.last() as int - '0' as int)
    }
}

/// The integer that `s` writes in decimal: an optional `+` or `-` and at
/// least one digit, nothing else.
pub open spec fn decimal_value(s: Seq<char>) -> Option<int> {
    if s.len() > 0 && (s[0] == '+' || s[0] == '-') {
        let rest = s.drop_first();
        if rest.len() > 0 && all_digits(rest) {
            Some(if s[0] == '-' { -digits_value(rest) } else { digits_value(rest) })
        } else {
            None
        }
    } else if s.len() > 0 && all_digits(s) {
        Some(digits_value(s))
    } else {
        None
    }
}

/// The `i32` that `s` writes in decimal, if it is one and fits.
pub open spec fn i32_text(s: Seq<char>) -> Option<i32> {
    match decimal_value(s) {
        Some(v) => if i32::MIN <= v <= i32::MAX {
            Some(v as i32)
        } else {
            None
        },
        None => None,
    }
}

/// Relies on `<i32 as FromStr>::from_str`: an optional sign followed by
/// decimal digits, whose value fits in an `i32`, and nothing else.
#[verifier::external_body]
fn parse_i32(s: &str) -> (r: Option<i32>)
    ensures
        r == i32_text(s@),
{
    s.parse::<i32>().ok()
}

/// The message given for a line that is not a number.
pub open spec fn not_a_number_message(line: Seq<char>) -> Seq<char> {
    "ERROR: Could not parse i32 from `"@ + line + "`"@
}

/// Reads `line` as a decimal `i32`; otherwise an error message that quotes it.
pub fn parse_number(line: &String) -> (r: Result<i32, String>)
    ensures
        i32_text(line@) matches Some(v) ==> r == Ok::<i32, String>(v),
        i32_text(line@) is None ==> (r matches Err(m) && m@ == not_a_number_message(line@)),
{
    match parse_i32(line.as_str()) {
        Some(v) => Ok(v),
        None => {
            let m = String::from_str("ERROR: Could not parse i32 from `");
            let m = m.concat(line.as_str());
            let m = m.concat("`");
            Err(m)
        },
    }
}

/// The intent of a typed `line` whose lower-case form is `lowered`.
pub open spec fn action_of(lowered: Seq<char>, line: Seq<char>) -> Action {
    if lowered == "quit"@ {
        Action::Quit
    } else if lowered == "yes"@ {
        Action::Yes
    } else if lowered == "no"@ {
        Action::No
    } else {
        match i32_text(line) {
            Some(v) => Action::Place(v),
            None => Action::Unknown,
        }
    }
}

/// The intent of `line`, given its lower-case form `lowered`: a keyword
/// first, then a number, else `Unknown`.
pub fn classify(lowered: &str, line: &str) -> (r: Action)
    ensures
        r == action_of(lowered@, line@),
{
    let l = String::from_str(lowered);
    if l == String::from_str("quit") {
        Action::Quit
    } else if l == String::from_str("yes") {
        Action::Yes
    } else if l == String::from_str("no") {
        Action::No
    } else {
        match parse_number(&String::from_str(line)) {
            Ok(v) => Action::Place(v),
            Err(_) => Action::Unknown,
        }
    }
}

/// The intent of a typed line: `quit`, `yes` and `no` in any case, then
/// a decimal `i32` as a placement, else `Unknown`.
pub fn get_action(line: &str) -> (r: Action)
    ensures
        r == action_of(lower_of(line@), line@),
{
    let lowered = lowercase(line);
    classify(lowered.as_str(), line)
}

} // verus!
