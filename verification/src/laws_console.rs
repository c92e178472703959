//! What the lines that a user types come to.

use crate::arith::fits;
use crate::console::{
    command_of, node_name, parse_leader_command, LeaderCommand, LeaderCommandView,
};
use crate::text::{
    all_digits, decimal, decimal_value, digits_value, i64_value, is_space, lemma_word_len,
    push_decimal, word_len, words,
};
use vstd::prelude::*;

verus! {

// ---- Words ----

/// The characters that separate words.
pub proof fn law_spaces(c: char)
    ensures
        is_space(c) <==> {
            ||| c == ' ' || c == '\t' || c == '\n' || c == '\r'
            ||| c == '\u{b}' || c == '\u{c}'
            ||| c == '\u{85}' || c == '\u{a0}' || c == '\u{1680}'
            ||| '\u{2000}' <= c <= '\u{200a}'
            ||| c == '\u{2028}' || c == '\u{2029}' || c == '\u{202f}'
            ||| c == '\u{205f}' || c == '\u{3000}'
        },
{
}

/// A text that starts with a space has the words of the rest.
pub proof fn law_spaces_are_skipped(c: char, rest: Seq<char>)
    requires
        is_space(c),
    ensures
        words(seq![c] + rest) == words(rest),
        words(Seq::<char>::empty()).len() == 0,
{
    let s = seq![c] + rest;
    assert(s[0] == c);
    assert(s.drop_first() =~= rest);
}

/// A text that starts with characters that are no spaces, up to a space or its
/// end, has them as its first word, and then the words of the rest.
pub proof fn law_words_are_split_at_spaces(word: Seq<char>, rest: Seq<char>)
    requires
        word.len() > 0,
        forall|i: int| 0 <= i < word.len() ==> !is_space(#[trigger] word[i]),
        rest.len() > 0 ==> is_space(rest[0]),
    ensures
        words(word + rest) == seq![word] + words(rest),
{
    let s = word + rest;
    let n = word.len() as int;
    lemma_word_len(s);
    assert forall|i: int| 0 <= i < n implies !is_space(#[trigger] s[i]) by {
        assert(s[i] == word[i]);
    }
    if word_len(s) < n {
        assert(is_space(s[word_len(s) as int]));
    }
    if word_len(s) > n {
        assert(s[n] == rest[0]);
    }
    assert(s[0] == word[0]);
    assert(s.take(n) =~= word);
    assert(s.skip(n) =~= rest);
}

// ---- Numbers ----

/// A further digit makes ten times the number plus the digit.
pub proof fn law_digits_add_up(digits: Seq<char>, c: char)
    requires
        '0' <= c <= '9',
    ensures
        digits_value(Seq::<char>::empty()) == 0,
        digits_value(digits.push(c)) == 10 * digits_value(digits) + (c as int - 48),
        all_digits(digits) ==> all_digits(digits.push(c)),
{
    let s = digits.push(c);
    assert(s.drop_last() =~= digits);
    if all_digits(digits) {
        assert forall|i: int| 0 <= i < s.len() implies '0' <= #[trigger] s[i] <= '9' by {
            if i < digits.len() {
                assert(s[i] == digits[i]);
            }
        }
    }
}

/// Digits may stand alone or behind a plus, and behind a minus they stand for
/// the negative number.
pub proof fn law_numbers_may_have_a_sign(digits: Seq<char>)
    requires
        digits.len() > 0,
        forall|i: int| 0 <= i < digits.len() ==> '0' <= #[trigger] digits[i] <= '9',
    ensures
        decimal_value(digits) == Some(digits_value(digits)),
        decimal_value(seq!['+'] + digits) == Some(digits_value(digits)),
        decimal_value(seq!['-'] + digits) == Some(-digits_value(digits)),
{
    assert('0' <= digits[0] <= '9');
    assert((seq!['+'] + digits).drop_first() =~= digits);
    assert((seq!['-'] + digits).drop_first() =~= digits);
}

/// Nothing else is a number: not a text without digits, nor one with a
/// character that is neither a digit nor a sign in front.
pub proof fn law_other_texts_are_no_numbers(s: Seq<char>, i: int)
    ensures
        s.len() == 0 ==> decimal_value(s) is None,
        s.len() == 1 && (s[0] == '+' || s[0] == '-') ==> decimal_value(s) is None,
        0 <= i < s.len() && !('0' <= s[i] <= '9') && !(i == 0 && (s[0] == '+' || s[0] == '-'))
            ==> decimal_value(s) is None,
{
    if 0 <= i < s.len() && !('0' <= s[i] <= '9') && !(i == 0 && (s[0] == '+' || s[0] == '-')) {
        if s[0] == '+' || s[0] == '-' {
            assert(s.drop_first()[i - 1] == s[i]);
        }
    }
}

/// A number is read if it fits 64 bits, and then as it is.
pub proof fn law_numbers_are_read_exactly(s: Seq<char>)
    ensures
        match decimal_value(s) {
            Some(n) => {
                &&& fits(n) ==> (i64_value(s) matches Some(r) && r == n)
                &&& !fits(n) ==> i64_value(s) is None
            },
            None => i64_value(s) is None,
        },
{
}

/// The decimal form of a number that may be negative.
pub open spec fn signed_decimal(n: int) -> Seq<char> {
    if n >= 0 {
        decimal(n as nat)
    } else {
        seq!['-'] + decimal((-n) as nat)
    }
}

/// A number in decimal consists of digits that stand for it, without a zero in
/// front unless it is zero.
pub proof fn law_decimal_form_stands_for_the_number(n: nat)
    ensures
        decimal(n).len() > 0,
        all_digits(decimal(n)),
        digits_value(decimal(n)) == n,
        decimal(n)[0] == '0' <==> n == 0,
        n < 10 <==> decimal(n).len() == 1,
    decreases n,
{
    if n < 10 {
        let c = decimal(n)[0];
        let none = Seq::<char>::empty();
        assert(decimal(n) =~= none.push(c));
        law_digits_add_up(none, c);
    } else {
        let m = n / 10;
        law_decimal_form_stands_for_the_number(m);
        let c = decimal(n).last();
        assert(decimal(n) =~= decimal(m).push(c));
        law_digits_add_up(decimal(m), c);
        assert(decimal(n)[0] == decimal(m)[0]);
    }
}

/// A number that is appended to a text leaves the text as it was and is read
/// back from behind it.
pub proof fn law_appended_number_is_read_back(text: &mut String, n: u32)
    requires
        call_ensures(push_decimal, (text, n), ()),
    ensures
        final(text)@.take(old(text)@.len() as int) == old(text)@,
        i64_value(final(text)@.skip(old(text)@.len() as int)) == Some(n as i64),
{
    let digits = decimal(n as nat);
    law_decimal_form_stands_for_the_number(n as nat);
    law_numbers_may_have_a_sign(digits);
    assert((text@ + digits).take(text@.len() as int) =~= text@);
    assert((text@ + digits).skip(text@.len() as int) =~= digits);
}

/// What is written in decimal is read back, for every 64-bit number.
pub proof fn law_written_numbers_are_read_back(n: i64)
    ensures
        i64_value(signed_decimal(n as int)) == Some(n),
{
    let m: nat = if n >= 0 {
        n as nat
    } else {
        (-n) as nat
    };
    law_decimal_form_stands_for_the_number(m);
    law_numbers_may_have_a_sign(decimal(m));
}

// ---- Commands ----

/// For a line of `start` or `stop` and a 64-bit number, with any further words,
/// the delay is that number, whatever it is.
pub proof fn law_delay_is_what_was_typed(line: Seq<Seq<char>>, n: i64)
    requires
        line.len() >= 2,
        line[1] == signed_decimal(n as int),
    ensures
        line[0] == "start"@ ==> command_of(line) == Some(LeaderCommandView::Start { delay_ms: n }),
        line[0] == "stop"@ ==> command_of(line) == Some(LeaderCommandView::Stop { delay_ms: n }),
{
    law_written_numbers_are_read_back(n);
    lemma_command_words_differ();
}

/// Any other form of a number counts as well; without a number behind them,
/// `start` is for two seconds ahead and `stop` for one.
pub proof fn law_delay_falls_back_to_the_default(line: Seq<Seq<char>>)
    requires
        line.len() >= 1,
    ensures
        line.len() >= 2 ==> (i64_value(line[1]) matches Some(n) ==> {
            &&& line[0] == "start"@ ==> command_of(line) == Some(
                LeaderCommandView::Start { delay_ms: n },
            )
            &&& line[0] == "stop"@ ==> command_of(line) == Some(
                LeaderCommandView::Stop { delay_ms: n },
            )
        }),
        line.len() == 1 || i64_value(line[1]) is None ==> {
            &&& line[0] == "start"@ ==> command_of(line) == Some(
                LeaderCommandView::Start { delay_ms: 2000 },
            )
            &&& line[0] == "stop"@ ==> command_of(line) == Some(
                LeaderCommandView::Stop { delay_ms: 1000 },
            )
        },
{
    lemma_command_words_differ();
}

/// The first word alone decides which command it is; a line has none exactly if
/// it has no words, and a word that is no command is reported as it is.
pub proof fn law_first_word_names_the_command(line: Seq<Seq<char>>)
    ensures
        command_of(line) is None <==> line.len() == 0,
        line.len() > 0 ==> {
            let command = command_of(line)->0;
            &&& command is Start <==> line[0] == "start"@
            &&& command is Stop <==> line[0] == "stop"@
            &&& command is Peers <==> line[0] == "peers"@
            &&& command is Quit <==> line[0] == "quit"@
            &&& command matches LeaderCommandView::Unknown { word } ==> word == line[0]
        },
{
    lemma_command_words_differ();
}

/// A line typed as `word`, spaces and a number means the command of those two
/// words, whatever follows behind a space.
pub proof fn law_typed_line_has_its_delay(
    word: Seq<char>,
    gap: char,
    n: i64,
    rest: Seq<char>,
)
    requires
        word == "start"@ || word == "stop"@,
        is_space(gap),
        rest.len() > 0 ==> is_space(rest[0]),
    ensures
        command_of(words(word + (seq![gap] + (signed_decimal(n as int) + rest)))) == Some(
            if word == "start"@ {
                LeaderCommandView::Start { delay_ms: n }
            } else {
                LeaderCommandView::Stop { delay_ms: n }
            },
        ),
{
    let number = signed_decimal(n as int);
    let m: nat = if n >= 0 {
        n as nat
    } else {
        (-n) as nat
    };
    law_decimal_form_stands_for_the_number(m);
    assert forall|i: int| 0 <= i < number.len() implies !is_space(#[trigger] number[i]) by {
        if n >= 0 {
            assert('0' <= decimal(m)[i] <= '9');
        } else if i > 0 {
            assert(number[i] == decimal(m)[i - 1]);
            assert('0' <= decimal(m)[i - 1] <= '9');
        }
    }
    law_words_are_split_at_spaces(number, rest);
    let tail = seq![gap] + (number + rest);
    law_spaces_are_skipped(gap, number + rest);
    assert(tail[0] == gap);
    reveal_strlit("start");
    reveal_strlit("stop");
    assert forall|i: int| 0 <= i < word.len() implies !is_space(#[trigger] word[i]) by {
        if word == "start"@ {
            assert("start"@[i] == word[i]);
        }
    }
    law_words_are_split_at_spaces(word, tail);
    let line = words(word + tail);
    assert(line[0] == word);
    assert(line[1] == number);
    law_delay_is_what_was_typed(line, n);
    lemma_command_words_differ();
}

/// A `start` or `stop` typed with any 64-bit number is read as that command
/// with that delay, for whatever follows the number behind a space.
pub proof fn law_typed_delay_is_read(
    line: &str,
    gap: char,
    n: i64,
    rest: Seq<char>,
    r: Option<LeaderCommand>,
)
    requires
        is_space(gap),
        rest.len() > 0 ==> is_space(rest[0]),
        call_ensures(parse_leader_command, (line,), r),
    ensures
        line@ == "start"@ + (seq![gap] + (signed_decimal(n as int) + rest)) ==> r == Some(
            LeaderCommand::Start { delay_ms: n },
        ),
        line@ == "stop"@ + (seq![gap] + (signed_decimal(n as int) + rest)) ==> r == Some(
            LeaderCommand::Stop { delay_ms: n },
        ),
{
    law_typed_line_has_its_delay("start"@, gap, n, rest);
    law_typed_line_has_its_delay("stop"@, gap, n, rest);
    lemma_command_words_differ();
}

/// A line of nothing but spaces is read as no command, and one with a word in it
/// as some.
pub proof fn law_blank_lines_are_no_commands(line: &str, r: Option<LeaderCommand>)
    requires
        call_ensures(parse_leader_command, (line,), r),
    ensures
        r is None <==> forall|i: int| 0 <= i < line@.len() ==> is_space(#[trigger] line@[i]),
{
    law_first_word_names_the_command(words(line@));
    lemma_blank_text_has_no_words(line@);
}

/// A text has no words exactly if it has nothing but spaces.
proof fn lemma_blank_text_has_no_words(s: Seq<char>)
    ensures
        words(s).len() == 0 <==> forall|i: int| 0 <= i < s.len() ==> is_space(#[trigger] s[i]),
    decreases s.len(),
{
    if s.len() > 0 {
        let t = s.drop_first();
        lemma_blank_text_has_no_words(t);
        if is_space(s[0]) {
            assert forall|i: int| 0 <= i < t.len() implies t[i] == #[trigger] s[i + 1] by {}
            if words(t).len() == 0 {
                assert forall|i: int| 0 <= i < s.len() implies is_space(#[trigger] s[i]) by {
                    if i > 0 {
                        assert(is_space(t[i - 1]));
                    }
                }
            } else {
                let i = choose|i: int| 0 <= i < t.len() && !is_space(#[trigger] t[i]);
                assert(!is_space(s[i + 1]));
            }
        }
    }
}

/// A node bears the name that it is given. Without one it is called `node-`
/// and the decimal form of its process id.
pub proof fn law_nodes_have_a_name(given: Option<String>, process_id: u32, r: String)
    requires
        call_ensures(node_name, (given, process_id), r),
    ensures
        given matches Some(name) ==> r@ == name@,
        given is None ==> {
            &&& r@.len() > 5
            &&& r@.take(5) == seq!['n', 'o', 'd', 'e', '-']
            &&& r@[5] == '0' ==> process_id == 0 && r@.len() == 6
            &&& i64_value(r@.skip(5)) == Some(process_id as i64)
        },
{
    if given is None {
        reveal_strlit("node-");
        let digits = decimal(process_id as nat);
        law_decimal_form_stands_for_the_number(process_id as nat);
        law_numbers_may_have_a_sign(digits);
        assert(r@.take(5) =~= seq!['n', 'o', 'd', 'e', '-']);
        assert(r@.skip(5) =~= digits);
        assert(r@[5] == digits[0]);
    }
}

/// No two commands have the same word.
proof fn lemma_command_words_differ()
    ensures
        "start"@ != "stop"@,
        "start"@ != "peers"@,
        "start"@ != "quit"@,
        "stop"@ != "peers"@,
        "stop"@ != "quit"@,
        "peers"@ != "quit"@,
{
    reveal_strlit("start");
    reveal_strlit("stop");
    reveal_strlit("peers");
    reveal_strlit("quit");
    assert("start"@[1] == 't');
    assert("start"@[2] == 'a');
    assert("stop"@[2] == 'o');
    assert("peers"@[0] == 'p');
    assert("quit"@[0] == 'q');
    assert("start"@[0] == 's');
    assert("stop"@[0] == 's');
}

/// A command is seen as what it is.
pub proof fn law_commands_are_seen_as_they_are(command: LeaderCommand)
    ensures
        match command {
            LeaderCommand::Start { delay_ms } => command@ == (LeaderCommandView::Start {
                delay_ms,
            }),
            LeaderCommand::Stop { delay_ms } => command@ == (LeaderCommandView::Stop { delay_ms }),
            LeaderCommand::Peers => command@ == LeaderCommandView::Peers,
            LeaderCommand::Quit => command@ == LeaderCommandView::Quit,
            LeaderCommand::Unknown { word } => command@ == (LeaderCommandView::Unknown {
                word: word@,
            }),
        },
{
}

} // verus!
