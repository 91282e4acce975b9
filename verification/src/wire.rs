//! The client and the daemon agree on the line protocol: what one writes, the
//! other reads.

use crate::business::Membership;
use crate::cli::{argument_line, as_read, command_line, line_of};
use crate::daemon::{
    advanced, begun, begun_from_line, count_line, error_line, list_line, ActionView, Event,
    SessionView,
};
use crate::error::EngineError;
use crate::protocol::{
    all_digits, comma_separated, decimal, digit_char, digits_value, id_list, is_digit, is_space,
    on_one_line, parse_line, parse_window_id, skip_run, word_bounds, Request,
};
use vstd::prelude::*;

verus! {

/// A word: at least one character, none of them white space.
pub open spec fn is_word(word: Seq<char>) -> bool {
    word.len() > 0 && forall|i: int| 0 <= i < word.len() ==> !is_space(#[trigger] word[i])
}

/// A run of characters of one kind ends where the first character of the
/// other kind stands, or at the end of the line.
pub proof fn lemma_skip_run(line: Seq<char>, from: int, to: int, spaces: bool)
    requires
        0 <= from <= to <= line.len(),
        forall|i: int| from <= i < to ==> is_space(#[trigger] line[i]) == spaces,
        to == line.len() || is_space(line[to]) != spaces,
    ensures
        skip_run(line, from, spaces) == to,
    decreases to - from,
{
    if from < to {
        assert(is_space(line[from]) == spaces);
        lemma_skip_run(line, from + 1, to, spaces);
    }
}

/// A number written in decimal is a word of digits that denotes the number,
/// and is read back as that number.
pub proof fn lemma_decimal_is_read_back(number: nat)
    ensures
        is_word(decimal(number)),
        all_digits(decimal(number)),
        digits_value(decimal(number)) == number,
        number <= u64::MAX ==> parse_window_id(decimal(number)) == Some(number as u64),
    decreases number,
{
    let text = decimal(number);
    if number < 10 {
        assert(text.drop_last() =~= Seq::<char>::empty());
        assert(digits_value(text.drop_last()) == 0);
        assert(text.last() == digit_char(number));
    } else {
        lemma_decimal_is_read_back(number / 10);
        let front = decimal(number / 10);
        assert(text.drop_last() =~= front);
        assert(text.last() == digit_char(number % 10));
        assert forall|i: int| 0 <= i < text.len() implies is_digit(#[trigger] text[i]) by {
            if i < front.len() {
                assert(text[i] == front[i]);
            }
        }
    }
    assert forall|i: int| 0 <= i < text.len() implies !is_space(#[trigger] text[i]) by {
        assert(is_digit(text[i]));
    }
    assert(is_digit(text[0]));
}

/// On a line that holds a command word alone, the command is the first word
/// and no word follows it.
pub proof fn lemma_words_of_command_line(command: Seq<char>)
    requires
        is_word(command),
    ensures
        ({
            let line = command_line(command);
            let (start, end) = word_bounds(line, 0);
            let (argument_start, argument_end) = word_bounds(line, end);
            &&& line.subrange(start, end) == command
            &&& line.subrange(argument_start, argument_end) == Seq::<char>::empty()
        }),
{
    reveal_strlit("\n");
    let line = command_line(command);
    let n = command.len() as int;
    assert(line.len() == n + 1);
    assert forall|i: int| 0 <= i < n implies !is_space(#[trigger] line[i]) by {
        assert(line[i] == command[i]);
    }
    assert(line[n] == '\n');
    lemma_skip_run(line, 0, 0, true);
    lemma_skip_run(line, 0, n, false);
    lemma_skip_run(line, n, n + 1, true);
    lemma_skip_run(line, n + 1, n + 1, false);
    assert(line.subrange(0, n) =~= command);
    assert(line.subrange(n + 1, n + 1) =~= Seq::<char>::empty());
}

/// On a line that holds a command word and an argument, they are the first
/// and the second word.
pub proof fn lemma_words_of_argument_line(command: Seq<char>, argument: Seq<char>)
    requires
        is_word(command),
        is_word(argument),
    ensures
        ({
            let line = argument_line(command, argument);
            let (start, end) = word_bounds(line, 0);
            let (argument_start, argument_end) = word_bounds(line, end);
            &&& line.subrange(start, end) == command
            &&& line.subrange(argument_start, argument_end) == argument
        }),
{
    reveal_strlit("\n");
    reveal_strlit(" ");
    let line = argument_line(command, argument);
    let n = command.len() as int;
    let m = argument.len() as int;
    assert(line.len() == n + 1 + m + 1);
    assert forall|i: int| 0 <= i < n implies !is_space(#[trigger] line[i]) by {
        assert(line[i] == command[i]);
    }
    assert(line[n] == ' ');
    assert forall|i: int| n + 1 <= i < n + 1 + m implies !is_space(#[trigger] line[i]) by {
        assert(line[i] == argument[i - n - 1]);
    }
    assert(line[n + 1 + m] == '\n');
    lemma_skip_run(line, 0, 0, true);
    lemma_skip_run(line, 0, n, false);
    lemma_skip_run(line, n, n + 1, true);
    lemma_skip_run(line, n + 1, n + 1 + m, false);
    assert(line.subrange(0, n) =~= command);
    assert(line.subrange(n + 1, n + 1 + m) =~= argument);
}

/// The words of the protocol are words, each of a length of its own among the
/// commands and among the flags, and a flag starts with a dash.
pub proof fn lemma_protocol_words()
    ensures
        is_word("add"@) && "add"@.len() == 3,
        is_word("remove"@) && "remove"@.len() == 6,
        is_word("list"@) && "list"@.len() == 4,
        is_word("toggle_active"@) && "toggle_active"@.len() == 13,
        is_word("stage"@) && "stage"@.len() == 5,
        is_word("unstage"@) && "unstage"@.len() == 7,
        is_word("--all"@) && "--all"@.len() == 5 && "--all"@[0] == '-',
        is_word("--list"@) && "--list"@.len() == 6 && "--list"@[0] == '-',
        is_word("--active"@) && "--active"@.len() == 8 && "--active"@[0] == '-',
{
    reveal_strlit("add");
    reveal_strlit("remove");
    reveal_strlit("list");
    reveal_strlit("toggle_active");
    reveal_strlit("stage");
    reveal_strlit("unstage");
    reveal_strlit("--all");
    reveal_strlit("--list");
    reveal_strlit("--active");
    lemma_spelled("add"@);
    lemma_spelled("remove"@);
    lemma_spelled("list"@);
    lemma_spelled("toggle_active"@);
    lemma_spelled("stage"@);
    lemma_spelled("unstage"@);
    lemma_spelled("--all"@);
    lemma_spelled("--list"@);
    lemma_spelled("--active"@);
}

/// A lower-case letter, a dash or an underscore.
pub open spec fn is_plain(c: char) -> bool {
    ('a' <= c <= 'z') || c == '-' || c == '_'
}

/// A text of up to thirteen plain characters has no white space in it.
proof fn lemma_spelled(word: Seq<char>)
    requires
        0 < word.len() <= 13,
        0 < word.len() ==> is_plain(word[0]),
        1 < word.len() ==> is_plain(word[1]),
        2 < word.len() ==> is_plain(word[2]),
        3 < word.len() ==> is_plain(word[3]),
        4 < word.len() ==> is_plain(word[4]),
        5 < word.len() ==> is_plain(word[5]),
        6 < word.len() ==> is_plain(word[6]),
        7 < word.len() ==> is_plain(word[7]),
        8 < word.len() ==> is_plain(word[8]),
        9 < word.len() ==> is_plain(word[9]),
        10 < word.len() ==> is_plain(word[10]),
        11 < word.len() ==> is_plain(word[11]),
        12 < word.len() ==> is_plain(word[12]),
    ensures
        is_word(word),
{
    assert forall|i: int| 0 <= i < word.len() implies !is_space(#[trigger] word[i]) by {
        assert(is_plain(word[i])) by {
            if i == 0 {
            } else if i == 1 {
            } else if i == 2 {
            } else if i == 3 {
            } else if i == 4 {
            } else if i == 5 {
            } else if i == 6 {
            } else if i == 7 {
            } else if i == 8 {
            } else if i == 9 {
            } else if i == 10 {
            } else if i == 11 {
            } else {
            }
        }
    }
}

/// What the client writes for a request, the daemon reads as that request:
/// the line of a request stands for the request, with the one target that
/// decides.
pub proof fn lemma_written_request_is_read(request: Request)
    requires
        line_of(request) is Some,
    ensures
        parse_line(line_of(request)->0) == Ok::<Request, EngineError>(as_read(request)),
{
    lemma_protocol_words();
    match request {
        Request::Add { window_id } => {
            lemma_decimal_is_read_back(window_id as nat);
            lemma_words_of_argument_line("add"@, decimal(window_id as nat));
        },
        Request::Remove { window_id } => {
            lemma_decimal_is_read_back(window_id as nat);
            lemma_words_of_argument_line("remove"@, decimal(window_id as nat));
        },
        Request::List => {
            lemma_words_of_command_line("list"@);
        },
        Request::ToggleActive => {
            lemma_words_of_command_line("toggle_active"@);
        },
        Request::Stage(args) => {
            if args.all {
                lemma_words_of_argument_line("stage"@, "--all"@);
            } else if args.list {
                lemma_words_of_argument_line("stage"@, "--list"@);
            } else if args.active {
                lemma_words_of_argument_line("stage"@, "--active"@);
            } else {
                let window_id = args.window_id->0;
                lemma_decimal_is_read_back(window_id as nat);
                lemma_words_of_argument_line("stage"@, decimal(window_id as nat));
                assert(is_digit(decimal(window_id as nat)[0]));
            }
        },
        Request::Unstage(args) => {
            if args.all {
                lemma_words_of_argument_line("unstage"@, "--all"@);
            } else if args.active {
                lemma_words_of_argument_line("unstage"@, "--active"@);
            } else {
                let window_id = args.window_id->0;
                lemma_decimal_is_read_back(window_id as nat);
                lemma_words_of_argument_line("unstage"@, decimal(window_id as nat));
                assert(is_digit(decimal(window_id as nat)[0]));
            }
        },
    }
}

/// A text without a line feed.
pub open spec fn no_line_feed(text: Seq<char>) -> bool {
    forall|i: int| 0 <= i < text.len() ==> #[trigger] text[i] != '\n'
}

/// One line: a text with exactly one line feed, which ends it.
pub open spec fn is_one_line(text: Seq<char>) -> bool {
    text.len() > 0 && text.last() == '\n' && no_line_feed(text.drop_last())
}

/// No line feed is among the first `count` characters of `text`.
pub open spec fn clear_below(text: Seq<char>, count: int) -> bool
    decreases count,
{
    count <= 0 || (text[count - 1] != '\n' && clear_below(text, count - 1))
}

/// A text that is clear of line feeds up to its end has none, and one that is
/// clear up to a line feed at its end is one line.
proof fn lemma_clear(text: Seq<char>, count: int)
    requires
        0 <= count <= text.len(),
        clear_below(text, count),
    ensures
        forall|i: int| 0 <= i < count ==> #[trigger] text[i] != '\n',
        count == text.len() ==> no_line_feed(text),
        count == text.len() - 1 && text[count] == '\n' ==> is_one_line(text),
    decreases count,
{
    if count > 0 {
        lemma_clear(text, count - 1);
    }
    if count == text.len() - 1 && text[count] == '\n' {
        assert forall|i: int| 0 <= i < text.drop_last().len() implies #[trigger] text.drop_last()[i]
            != '\n' by {
            assert(text.drop_last()[i] == text[i]);
        }
    }
}

/// A text without line feeds followed by another is without line feeds, and
/// followed by one line it is one line.
proof fn lemma_joined(front: Seq<char>, back: Seq<char>)
    requires
        no_line_feed(front),
    ensures
        no_line_feed(back) ==> no_line_feed(front + back),
        is_one_line(back) ==> is_one_line(front + back),
{
    let whole = front + back;
    if no_line_feed(back) {
        assert forall|i: int| 0 <= i < whole.len() implies #[trigger] whole[i] != '\n' by {
            if i < front.len() {
                assert(whole[i] == front[i]);
            } else {
                assert(whole[i] == back[i - front.len()]);
            }
        }
    }
    if is_one_line(back) {
        assert(whole.last() == back.last());
        let body = whole.drop_last();
        assert forall|i: int| 0 <= i < body.len() implies #[trigger] body[i] != '\n' by {
            if i < front.len() {
                assert(body[i] == front[i]);
            } else {
                assert(body[i] == back.drop_last()[i - front.len()]);
            }
        }
    }
}

/// The short fixed replies are one line each.
proof fn lemma_short_replies()
    ensures
        is_one_line("\n"@),
        is_one_line(" windows\n"@),
        is_one_line("Added\n"@),
        is_one_line("Removed\n"@),
        is_one_line("Staged window\n"@),
        is_one_line("Unstaged window\n"@),
        is_one_line("Not in sticky list\n"@),
{
    reveal_with_fuel(clear_below, 20);
    reveal_strlit("\n");
    reveal_strlit(" windows\n");
    reveal_strlit("Added\n");
    reveal_strlit("Removed\n");
    reveal_strlit("Staged window\n");
    reveal_strlit("Unstaged window\n");
    reveal_strlit("Not in sticky list\n");
    lemma_clear("\n"@, 0);
    lemma_clear(" windows\n"@, 8);
    lemma_clear("Added\n"@, 5);
    lemma_clear("Removed\n"@, 7);
    lemma_clear("Staged window\n"@, 13);
    lemma_clear("Unstaged window\n"@, 15);
    lemma_clear("Not in sticky list\n"@, 18);
}

/// The long fixed replies are one line each.
proof fn lemma_long_replies()
    ensures
        is_one_line("Already in sticky list\n"@),
        is_one_line("Staged active window\n"@),
        is_one_line("Unstaged active window\n"@),
        is_one_line("Added active window to sticky\n"@),
        is_one_line("Removed active window from sticky\n"@),
{
    reveal_with_fuel(clear_below, 35);
    reveal_strlit("Already in sticky list\n");
    reveal_strlit("Staged active window\n");
    reveal_strlit("Unstaged active window\n");
    reveal_strlit("Added active window to sticky\n");
    reveal_strlit("Removed active window from sticky\n");
    lemma_clear("Already in sticky list\n"@, 22);
    lemma_clear("Staged active window\n"@, 20);
    lemma_clear("Unstaged active window\n"@, 22);
    lemma_clear("Added active window to sticky\n"@, 29);
    lemma_clear("Removed active window from sticky\n"@, 33);
}

/// The fixed parts of the other replies hold no line feed.
proof fn lemma_fixed_parts()
    ensures
        no_line_feed("Error: "@),
        no_line_feed("Staged"@),
        no_line_feed("Unstaged"@),
        no_line_feed(" "@),
        no_line_feed(", "@),
        no_line_feed("["@),
        no_line_feed("]"@),
{
    reveal_with_fuel(clear_below, 10);
    reveal_strlit("Error: ");
    reveal_strlit("Staged");
    reveal_strlit("Unstaged");
    reveal_strlit(" ");
    reveal_strlit(", ");
    reveal_strlit("[");
    reveal_strlit("]");
    lemma_clear("Error: "@, 7);
    lemma_clear("Staged"@, 6);
    lemma_clear("Unstaged"@, 8);
    lemma_clear(" "@, 1);
    lemma_clear(", "@, 2);
    lemma_clear("["@, 1);
    lemma_clear("]"@, 1);
}

/// A number in decimal holds no line feed.
proof fn lemma_decimal_has_no_line_feed(number: nat)
    ensures
        no_line_feed(decimal(number)),
{
    lemma_decimal_is_read_back(number);
    let text = decimal(number);
    assert forall|i: int| 0 <= i < text.len() implies #[trigger] text[i] != '\n' by {
        assert(is_digit(text[i]));
    }
}

/// Window identifiers with commas between them hold no line feed.
proof fn lemma_identifiers_have_no_line_feed(ids: Seq<u64>)
    ensures
        no_line_feed(comma_separated(ids)),
    decreases ids.len(),
{
    lemma_fixed_parts();
    if ids.len() == 0 {
    } else if ids.len() == 1 {
        lemma_decimal_has_no_line_feed(ids[0] as nat);
    } else {
        lemma_identifiers_have_no_line_feed(ids.drop_last());
        lemma_decimal_has_no_line_feed(ids.last() as nat);
        lemma_joined(comma_separated(ids.drop_last()), ", "@);
        lemma_joined(comma_separated(ids.drop_last()) + ", "@, decimal(ids.last() as nat));
    }
}

/// The line that reports a failure is one line, whatever the reason holds.
pub proof fn lemma_error_line_is_one_line(reason: Seq<char>)
    ensures
        is_one_line(error_line(reason)),
{
    lemma_fixed_parts();
    lemma_short_replies();
    let kept = on_one_line(reason);
    assert(no_line_feed(kept));
    lemma_joined(kept, "\n"@);
    lemma_joined("Error: "@, kept + "\n"@);
}

/// The line that lists windows is one line.
pub proof fn lemma_list_line_is_one_line(ids: Seq<u64>)
    ensures
        is_one_line(list_line(ids)),
{
    lemma_fixed_parts();
    lemma_short_replies();
    lemma_identifiers_have_no_line_feed(ids);
    lemma_joined("["@, comma_separated(ids));
    lemma_joined("["@ + comma_separated(ids), "]"@);
    lemma_joined(id_list(ids), "\n"@);
}

/// The line that counts the windows of a batch is one line.
pub proof fn lemma_count_line_is_one_line(count: nat)
    ensures
        is_one_line(count_line("Staged"@, count)),
        is_one_line(count_line("Unstaged"@, count)),
{
    lemma_fixed_parts();
    lemma_short_replies();
    lemma_decimal_has_no_line_feed(count);
    lemma_joined("Staged"@, " "@);
    lemma_joined("Staged"@ + " "@, decimal(count));
    lemma_joined("Staged"@ + " "@ + decimal(count), " windows\n"@);
    lemma_joined("Unstaged"@, " "@);
    lemma_joined("Unstaged"@ + " "@, decimal(count));
    lemma_joined("Unstaged"@ + " "@ + decimal(count), " windows\n"@);
}

/// Every kind of reply is one line.
proof fn lemma_reply_texts()
    ensures
        forall|reason: Seq<char>| is_one_line(#[trigger] error_line(reason)),
        forall|ids: Seq<u64>| is_one_line(#[trigger] list_line(ids)),
        forall|count: nat| is_one_line(#[trigger] count_line("Staged"@, count)),
        forall|count: nat| is_one_line(#[trigger] count_line("Unstaged"@, count)),
        is_one_line("Added\n"@),
        is_one_line("Removed\n"@),
        is_one_line("Staged window\n"@),
        is_one_line("Unstaged window\n"@),
        is_one_line("Not in sticky list\n"@),
        is_one_line("Already in sticky list\n"@),
        is_one_line("Staged active window\n"@),
        is_one_line("Unstaged active window\n"@),
        is_one_line("Added active window to sticky\n"@),
        is_one_line("Removed active window from sticky\n"@),
{
    lemma_short_replies();
    lemma_long_replies();
    assert forall|reason: Seq<char>| is_one_line(#[trigger] error_line(reason)) by {
        lemma_error_line_is_one_line(reason);
    }
    assert forall|ids: Seq<u64>| is_one_line(#[trigger] list_line(ids)) by {
        lemma_list_line_is_one_line(ids);
    }
    assert forall|count: nat| is_one_line(#[trigger] count_line("Staged"@, count)) by {
        lemma_count_line_is_one_line(count);
    }
    assert forall|count: nat| is_one_line(#[trigger] count_line("Unstaged"@, count)) by {
        lemma_count_line_is_one_line(count);
    }
}

/// Every reply that a session hands out in answer to an event is one line:
/// it holds one line feed, at its end.
pub proof fn lemma_reply_is_one_line(
    before: SessionView,
    sets: Membership,
    event: Event,
    after: SessionView,
    sets_after: Membership,
    action: ActionView,
)
    requires
        advanced(before, sets, event, after, sets_after, action),
    ensures
        action matches ActionView::Reply(text) ==> is_one_line(text),
{
    lemma_reply_texts();
}

/// A reply that the session for a request hands out as soon as it starts is
/// one line.
pub proof fn lemma_first_reply_to_request_is_one_line(
    sets: Membership,
    request: Request,
    session: SessionView,
    action: ActionView,
)
    requires
        begun(sets, request, session, action),
    ensures
        action matches ActionView::Reply(text) ==> is_one_line(text),
{
    lemma_reply_texts();
}

/// A reply that a session hands out as soon as it starts is one line,
/// whether the client's line was a request or not.
pub proof fn lemma_first_reply_is_one_line(
    sets: Membership,
    line: Seq<char>,
    session: SessionView,
    action: ActionView,
)
    requires
        begun_from_line(sets, line, session, action),
    ensures
        action matches ActionView::Reply(text) ==> is_one_line(text),
{
    lemma_reply_texts();
}

} // verus!
