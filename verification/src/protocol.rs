//! The line protocol between a client and the daemon: one request line in,
//! one response out.

use crate::error::{EngineError, Malformed};
use vstd::prelude::*;
use vstd::string::*;

verus! {

/// What a client asks for.
#[derive(Debug, PartialEq, Eq)]
pub enum Request {
    Add { window_id: u64 },
    Remove { window_id: u64 },
    List,
    ToggleActive,
    Stage(StageArgs),
    Unstage(UnstageArgs),
}

/// The target of a `stage` request: one window, every sticky window, the
/// focused window, or (with `list`) no target but a listing of what is staged.
#[derive(Debug, PartialEq, Eq)]
pub struct StageArgs {
    pub window_id: Option<u64>,
    pub all: bool,
    pub list: bool,
    pub active: bool,
}

/// The target of an `unstage` request: one window, every staged window, or
/// the focused window.
#[derive(Debug, PartialEq, Eq)]
pub struct UnstageArgs {
    pub window_id: Option<u64>,
    pub all: bool,
    pub active: bool,
}

/// What the daemon answers.
#[derive(Debug, PartialEq, Eq)]
pub enum Response {
    Success(String),
    Error(String),
    Data(String),
}

/// White space, as Unicode defines it.
pub open spec fn is_space(c: char) -> bool {
    let code = c as u32;
    ||| 0x09 <= code <= 0x0D
    ||| code == 0x20
    ||| code == 0x85
    ||| code == 0xA0
    ||| code == 0x1680
    ||| 0x2000 <= code <= 0x200A
    ||| code == 0x2028
    ||| code == 0x2029
    ||| code == 0x202F
    ||| code == 0x205F
    ||| code == 0x3000
}

/// The first position at or after `from` whose character is not of the given
/// kind (white space or not), or the end of `line`.
pub open spec fn skip_run(line: Seq<char>, from: int, spaces: bool) -> int
    decreases line.len() - from,
{
    if 0 <= from < line.len() && is_space(line[from]) == spaces {
        skip_run(line, from + 1, spaces)
    } else {
        from
    }
}

/// Where the first word at or after `from` starts and ends. A word is a
/// longest run of characters that are not white space; where no word is left,
/// the bounds are equal.
pub open spec fn word_bounds(line: Seq<char>, from: int) -> (int, int) {
    let start = skip_run(line, from, true);
    (start, skip_run(line, start, false))
}

/// A decimal digit.
pub open spec fn is_digit(c: char) -> bool {
    '0' <= c <= '9'
}

/// Every character of `word` is a decimal digit.
pub open spec fn all_digits(word: Seq<char>) -> bool {
    forall|i: int| 0 <= i < word.len() ==> is_digit(#[trigger] word[i])
}

/// The number that a run of decimal digits denotes.
pub open spec fn digits_value(digits: Seq<char>) -> nat
    decreases digits.len(),
{
    if digits.len() == 0 {
        0
    } else {
        (digits_value(digits.drop_last()) * 10 + (digits.last() as u32 - '0' as u32)) as nat
    }
}

/// A window identifier as a word: decimal digits, at least one, with or
/// without a plus sign in front, denoting a number of 64 bits.
pub open spec fn parse_window_id(word: Seq<char>) -> Option<u64> {
    let digits = if word.len() > 0 && word[0] == '+' {
        word.skip(1)
    } else {
        word
    };
    if digits.len() > 0 && all_digits(digits) && digits_value(digits) <= u64::MAX {
        Some(digits_value(digits) as u64)
    } else {
        None
    }
}

/// A `stage` request for the given target.
pub open spec fn stage_request(
    window_id: Option<u64>,
    all: bool,
    list: bool,
    active: bool,
) -> Request {
    Request::Stage(StageArgs { window_id, all, list, active })
}

/// An `unstage` request for the given target.
pub open spec fn unstage_request(window_id: Option<u64>, all: bool, active: bool) -> Request {
    Request::Unstage(UnstageArgs { window_id, all, active })
}

/// The request that a command word and the word after it stand for. An empty
/// word stands for a word that is missing.
pub open spec fn request_of(
    command: Seq<char>,
    argument: Seq<char>,
) -> Result<Request, EngineError> {
    let id = parse_window_id(argument);
    if command == "add"@ || command == "remove"@ {
        if argument.len() == 0 {
            Err(EngineError::ProtocolError(Malformed::MissingWindowId))
        } else if id is None {
            Err(EngineError::ProtocolError(Malformed::InvalidWindowId))
        } else if command == "add"@ {
            Ok(Request::Add { window_id: id->0 })
        } else {
            Ok(Request::Remove { window_id: id->0 })
        }
    } else if command == "list"@ {
        Ok(Request::List)
    } else if command == "toggle_active"@ {
        Ok(Request::ToggleActive)
    } else if command == "stage"@ {
        if argument.len() == 0 {
            Err(EngineError::ProtocolError(Malformed::MissingStageArgument))
        } else if argument == "--all"@ {
            Ok(stage_request(None, true, false, false))
        } else if argument == "--list"@ {
            Ok(stage_request(None, false, true, false))
        } else if argument == "--active"@ {
            Ok(stage_request(None, false, false, true))
        } else if id is None {
            Err(EngineError::ProtocolError(Malformed::InvalidWindowId))
        } else {
            Ok(stage_request(id, false, false, false))
        }
    } else if command == "unstage"@ {
        if argument.len() == 0 {
            Err(EngineError::ProtocolError(Malformed::MissingUnstageArgument))
        } else if argument == "--all"@ {
            Ok(unstage_request(None, true, false))
        } else if argument == "--active"@ {
            Ok(unstage_request(None, false, true))
        } else if id is None {
            Err(EngineError::ProtocolError(Malformed::InvalidWindowId))
        } else {
            Ok(unstage_request(id, false, false))
        }
    } else {
        Err(EngineError::ProtocolError(Malformed::UnknownCommand))
    }
}

/// The request that a line stands for: its first word is the command, its
/// second word the argument, and what follows is not looked at.
pub open spec fn parse_line(line: Seq<char>) -> Result<Request, EngineError> {
    let (start, end) = word_bounds(line, 0);
    let (argument_start, argument_end) = word_bounds(line, end);
    request_of(line.subrange(start, end), line.subrange(argument_start, argument_end))
}

/// The character of a decimal digit.
pub open spec fn digit_char(digit: nat) -> char {
    (('0' as u32) + digit) as char
}

/// A number in decimal, without sign or leading zeros.
pub open spec fn decimal(number: nat) -> Seq<char>
    decreases number,
{
    if number < 10 {
        seq![digit_char(number)]
    } else {
        decimal(number / 10).push(digit_char(number % 10))
    }
}

/// Window identifiers in decimal, with a comma and a space between them.
pub open spec fn comma_separated(ids: Seq<u64>) -> Seq<char>
    decreases ids.len(),
{
    if ids.len() == 0 {
        Seq::empty()
    } else if ids.len() == 1 {
        decimal(ids[0] as nat)
    } else {
        comma_separated(ids.drop_last()) + ", "@ + decimal(ids.last() as nat)
    }
}

/// A list of window identifiers as it is shown to a client: in square
/// brackets, such as `[3, 17]`.
pub open spec fn id_list(ids: Seq<u64>) -> Seq<char> {
    "["@ + comma_separated(ids) + "]"@
}

/// A text with every line feed in it turned into a space.
pub open spec fn on_one_line(text: Seq<char>) -> Seq<char> {
    Seq::new(
        text.len(),
        |i: int|
            if text[i] == '\n' {
                ' '
            } else {
                text[i]
            },
    )
}

/// The text of a response as it goes over the wire.
pub open spec fn response_text(response: Response) -> Seq<char> {
    match response {
        Response::Success(message) => message@,
        Response::Error(message) => "Error: "@ + message@,
        Response::Data(data) => data@,
    }
}

/// Whether `c` is white space.
fn space(c: char) -> (yes: bool)
    ensures
        yes == is_space(c),
{
    let code = c as u32;
    (0x09 <= code && code <= 0x0D) || code == 0x20 || code == 0x85 || code == 0xA0 || code
        == 0x1680 || (0x2000 <= code && code <= 0x200A) || code == 0x2028 || code == 0x2029
        || code == 0x202F || code == 0x205F || code == 0x3000
}

/// The characters of `text`.
fn chars_of(text: &str) -> (chars: Vec<char>)
    ensures
        chars@ == text@,
{
    let mut chars: Vec<char> = Vec::new();
    let ghost mut at: int = 0;
    for c in it: text.chars()
        invariant
            it.seq() == text@,
            it.index() == at,
            chars@ == text@.take(at),
    {
        chars.push(c);
        proof {
            at = at + 1;
        }
    }
    assert(text@.take(at) =~= text@);
    chars
}

/// Runs over the characters of one kind from `from` on.
fn skip(line: &Vec<char>, from: usize, spaces: bool) -> (to: usize)
    requires
        from <= line.len(),
    ensures
        to == skip_run(line@, from as int, spaces),
        from <= to <= line.len(),
{
    let mut to = from;
    while to < line.len() && space(line[to]) == spaces
        invariant
            from <= to <= line.len(),
            skip_run(line@, to as int, spaces) == skip_run(line@, from as int, spaces),
        decreases line.len() - to,
    {
        to += 1;
    }
    to
}

/// Whether the characters from `start` to `end` spell `word`.
fn spells(line: &Vec<char>, start: usize, end: usize, word: &str) -> (same: bool)
    requires
        start <= end <= line.len(),
    ensures
        same == (line@.subrange(start as int, end as int) == word@),
{
    let length = word.unicode_len();
    if end - start != length {
        return false;
    }
    let mut i: usize = 0;
    while i < length
        invariant
            i <= length,
            length == word@.len(),
            start + length == end,
            end <= line.len(),
            forall|k: int| 0 <= k < i ==> line@[start + k] == word@[k],
        decreases length - i,
    {
        if line[start + i] != word.get_char(i) {
            assert(line@.subrange(start as int, end as int)[i as int] != word@[i as int]);
            return false;
        }
        i += 1;
    }
    assert(line@.subrange(start as int, end as int) =~= word@);
    true
}

/// A window identifier from the characters from `start` to `end`.
fn window_id(line: &Vec<char>, start: usize, end: usize) -> (id: Option<u64>)
    requires
        start <= end <= line.len(),
    ensures
        id == parse_window_id(line@.subrange(start as int, end as int)),
{
    let ghost word = line@.subrange(start as int, end as int);
    let first = if start < end && line[start] == '+' {
        start + 1
    } else {
        start
    };
    let ghost digits = line@.subrange(first as int, end as int);
    assert(digits =~= if word.len() > 0 && word[0] == '+' {
        word.skip(1)
    } else {
        word
    });
    if first == end {
        return None;
    }
    let mut value: u64 = 0;
    let mut i: usize = first;
    while i < end
        invariant
            first <= i <= end,
            first < end <= line.len(),
            start <= end,
            word == line@.subrange(start as int, end as int),
            digits == line@.subrange(first as int, end as int),
            parse_window_id(word) == if all_digits(digits) && digits_value(digits) <= u64::MAX {
                Some(digits_value(digits) as u64)
            } else {
                None
            },
            forall|k: int| 0 <= k < i - first ==> is_digit(#[trigger] digits[k]),
            value == digits_value(digits.take(i - first)),
        decreases end - i,
    {
        let c = line[i];
        assert(c == digits[i - first]);
        if !('0' <= c && c <= '9') {
            assert(!is_digit(digits[i - first]));
            return None;
        }
        let digit = (c as u32 - '0' as u32) as u64;
        proof {
            let longer = digits.take(i - first + 1);
            assert(longer.drop_last() =~= digits.take(i - first));
            assert(digits_value(longer) == value * 10 + digit);
            lemma_digits_grow(digits, i - first + 1);
        }
        let grown = match value.checked_mul(10) {
            Some(tens) => tens.checked_add(digit),
            None => None,
        };
        match grown {
            Some(next) => {
                value = next;
            },
            None => {
                assert(value * 10 + digit > u64::MAX);
                return None;
            },
        }
        i += 1;
    }
    assert(digits.take(end - first) =~= digits);
    Some(value)
}

/// A run of digits denotes at least what any of its beginnings denotes.
proof fn lemma_digits_grow(digits: Seq<char>, shorter: int)
    requires
        0 <= shorter <= digits.len(),
    ensures
        all_digits(digits) ==> digits_value(digits.take(shorter)) <= digits_value(digits),
    decreases digits.len(),
{
    if all_digits(digits) {
        if shorter == digits.len() {
            assert(digits.take(shorter) =~= digits);
        } else {
            let front = digits.drop_last();
            assert(front.take(shorter) =~= digits.take(shorter));
            assert forall|i: int| 0 <= i < front.len() implies is_digit(#[trigger] front[i]) by {
                assert(front[i] == digits[i]);
            }
            lemma_digits_grow(front, shorter);
            assert(is_digit(digits[digits.len() - 1]));
        }
    }
}

/// The text of one decimal digit.
fn digit_text(digit: u64) -> (text: &'static str)
    requires
        digit < 10,
    ensures
        text@ == seq![digit_char(digit as nat)],
{
    proof {
        reveal_strlit("0");
        reveal_strlit("1");
        reveal_strlit("2");
        reveal_strlit("3");
        reveal_strlit("4");
        reveal_strlit("5");
        reveal_strlit("6");
        reveal_strlit("7");
        reveal_strlit("8");
        reveal_strlit("9");
    }
    let text = if digit == 0 {
        "0"
    } else if digit == 1 {
        "1"
    } else if digit == 2 {
        "2"
    } else if digit == 3 {
        "3"
    } else if digit == 4 {
        "4"
    } else if digit == 5 {
        "5"
    } else if digit == 6 {
        "6"
    } else if digit == 7 {
        "7"
    } else if digit == 8 {
        "8"
    } else {
        "9"
    };
    assert(text@ =~= seq![digit_char(digit as nat)]);
    text
}

/// Writes a number in decimal.
pub fn decimal_text(number: u64) -> (text: String)
    ensures
        text@ == decimal(number as nat),
    decreases number,
{
    if number < 10 {
        String::from_str(digit_text(number))
    } else {
        let mut text = decimal_text(number / 10);
        text.append(digit_text(number % 10));
        assert(text@ =~= decimal(number as nat));
        text
    }
}

/// Writes a text on one line: a space stands where the text has a line feed.
pub fn one_line_text(text: &str) -> (line: String)
    ensures
        line@ == on_one_line(text@),
{
    proof {
        reveal_strlit(" ");
    }
    let length = text.unicode_len();
    let mut line = String::new();
    let mut i: usize = 0;
    while i < length
        invariant
            i <= length,
            length == text@.len(),
            " "@ == seq![' '],
            line@ == on_one_line(text@.take(i as int)),
        decreases length - i,
    {
        if text.get_char(i) == '\n' {
            line.append(" ");
        } else {
            line.append(text.substring_char(i, i + 1));
        }
        assert(line@ =~= on_one_line(text@.take(i + 1)));
        i += 1;
    }
    assert(text@.take(length as int) =~= text@);
    line
}

/// Writes a list of window identifiers as it is shown to a client.
pub fn id_list_text(ids: &Vec<u64>) -> (text: String)
    ensures
        text@ == id_list(ids@),
{
    let mut text = String::from_str("[");
    let mut i: usize = 0;
    while i < ids.len()
        invariant
            i <= ids.len(),
            text@ == "["@ + comma_separated(ids@.take(i as int)),
        decreases ids.len() - i,
    {
        let ghost shorter = ids@.take(i as int);
        let ghost longer = ids@.take(i + 1);
        assert(longer.drop_last() =~= shorter);
        if i > 0 {
            text.append(", ");
        }
        text.append(decimal_text(ids[i]).as_str());
        assert(text@ =~= "["@ + comma_separated(longer));
        i += 1;
    }
    assert(ids@.take(ids@.len() as int) =~= ids@);
    text.append("]");
    text
}

/// Reads one request line.
///
/// The line is split into words at white space. The first word names the
/// command, the second is its argument, and further words are ignored.
pub fn parse_request(line: &str) -> (result: Result<Request, EngineError>)
    ensures
        result == parse_line(line@),
{
    let chars = chars_of(line);
    let start = skip(&chars, 0, true);
    let end = skip(&chars, start, false);
    let argument_start = skip(&chars, end, true);
    let argument_end = skip(&chars, argument_start, false);
    let missing = argument_start == argument_end;
    let adds = spells(&chars, start, end, "add");
    if adds || spells(&chars, start, end, "remove") {
        if missing {
            return Err(EngineError::ProtocolError(Malformed::MissingWindowId));
        }
        match window_id(&chars, argument_start, argument_end) {
            None => Err(EngineError::ProtocolError(Malformed::InvalidWindowId)),
            Some(window_id) => if adds {
                Ok(Request::Add { window_id })
            } else {
                Ok(Request::Remove { window_id })
            },
        }
    } else if spells(&chars, start, end, "list") {
        Ok(Request::List)
    } else if spells(&chars, start, end, "toggle_active") {
        Ok(Request::ToggleActive)
    } else if spells(&chars, start, end, "stage") {
        if missing {
            Err(EngineError::ProtocolError(Malformed::MissingStageArgument))
        } else if spells(&chars, argument_start, argument_end, "--all") {
            Ok(Request::Stage(StageArgs { window_id: None, all: true, list: false, active: false }))
        } else if spells(&chars, argument_start, argument_end, "--list") {
            Ok(Request::Stage(StageArgs { window_id: None, all: false, list: true, active: false }))
        } else if spells(&chars, argument_start, argument_end, "--active") {
            Ok(Request::Stage(StageArgs { window_id: None, all: false, list: false, active: true }))
        } else {
            match window_id(&chars, argument_start, argument_end) {
                None => Err(EngineError::ProtocolError(Malformed::InvalidWindowId)),
                Some(id) => Ok(
                    Request::Stage(
                        StageArgs { window_id: Some(id), all: false, list: false, active: false },
                    ),
                ),
            }
        }
    } else if spells(&chars, start, end, "unstage") {
        if missing {
            Err(EngineError::ProtocolError(Malformed::MissingUnstageArgument))
        } else if spells(&chars, argument_start, argument_end, "--all") {
            Ok(Request::Unstage(UnstageArgs { window_id: None, all: true, active: false }))
        } else if spells(&chars, argument_start, argument_end, "--active") {
            Ok(Request::Unstage(UnstageArgs { window_id: None, all: false, active: true }))
        } else {
            match window_id(&chars, argument_start, argument_end) {
                None => Err(EngineError::ProtocolError(Malformed::InvalidWindowId)),
                Some(id) => Ok(
                    Request::Unstage(UnstageArgs { window_id: Some(id), all: false, active: false }),
                ),
            }
        }
    } else {
        Err(EngineError::ProtocolError(Malformed::UnknownCommand))
    }
}

/// Renders a response as the text that is sent to the client.
pub fn format_response(response: Response) -> (text: String)
    ensures
        text@ == response_text(response),
{
    match response {
        Response::Success(msg) => msg,
        Response::Error(msg) => String::from_str("Error: ").concat(msg.as_str()),
        Response::Data(data) => data,
    }
}

} // verus!
