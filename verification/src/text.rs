//! Numbers, flags and errors as text.

use vstd::prelude::*;
use vstd::string::StringExecFns;

use crate::protocol::ProbeError;

verus! {

/// The character of a decimal digit.
pub open spec fn digit_char(digit: int) -> char {
    ('0' as int + digit) as char
}

/// A number in decimal, without leading zeros.
pub open spec fn decimal(n: nat) -> Seq<char>
    decreases n,
{
    if n < 10 {
        seq![digit_char(n as int)]
    } else {
        decimal(n / 10).push(digit_char((n % 10) as int))
    }
}

/// The number that decimal digits stand for.
pub open spec fn decimal_value(digits: Seq<char>) -> int
    decreases digits.len(),
{
    if digits.len() == 0 {
        0
    } else {
        decimal_value(digits.drop_last()) * 10 + (digits.last() as int - '0' as int)
    }
}

/// A number can be read back from its decimal text, which holds nothing but
/// digits and begins with a zero only where the number is zero.
pub proof fn decimal_round_trip(n: nat)
    ensures
        decimal_value(decimal(n)) == n,
        decimal(n).len() > 0,
        n > 0 ==> decimal(n)[0] != '0',
        forall|i: int|
            0 <= i < decimal(n).len() ==> '0' as int <= #[trigger] decimal(n)[i] as int
                <= '9' as int,
    decreases n,
{
    if n < 10 {
        assert(seq![digit_char(n as int)].drop_last() =~= Seq::<char>::empty());
        assert(decimal_value(Seq::<char>::empty()) == 0);
    } else {
        decimal_round_trip(n / 10);
        let head = decimal(n / 10);
        assert(decimal(n).drop_last() =~= head);
        assert(forall|i: int| 0 <= i < head.len() ==> decimal(n)[i] == head[i]);
    }
}

fn digit_text(digit: u64) -> (text: &'static str)
    requires
        digit < 10,
    ensures
        text@ == seq![digit_char(digit as int)],
{
    proof {
        reveal_strlit("0");
        reveal_strlit("1");
        reveal_strlit("2");
        reveal_strlit("3");
        reveal_strlit("4");
        reveal_strlit("5");
        reveal_strlit("6");
        reveal_strlit("7");
        reveal_strlit("8");
        reveal_strlit("9");
    }
    match digit {
        0 => "0",
        1 => "1",
        2 => "2",
        3 => "3",
        4 => "4",
        5 => "5",
        6 => "6",
        7 => "7",
        8 => "8",
        _ => "9",
    }
}

/// Appends a number in decimal.
pub fn push_number(out: &mut String, n: u64)
    ensures
        final(out)@ == old(out)@ + decimal(n as nat),
    decreases n,
{
    if n >= 10 {
        push_number(out, n / 10);
    }
    out.append(digit_text(n % 10));
}

/// The text of a flag.
pub open spec fn flag_text(flag: bool) -> Seq<char> {
    if flag {
        "true"@
    } else {
        "false"@
    }
}

/// Appends a flag.
pub fn push_flag(out: &mut String, flag: bool)
    ensures
        final(out)@ == old(out)@ + flag_text(flag),
{
    out.append(
        if flag {
            "true"
        } else {
            "false"
        },
    );
}

impl ProbeError {
    /// What an error says.
    pub open spec fn text(self) -> Seq<char> {
        match self {
            ProbeError::EndOfStream => "unexpected end of stream"@,
            ProbeError::InvalidVarint => "invalid varint"@,
            ProbeError::InvalidVersion(version) => "unsupported probe protocol version: "@
                + decimal(version as nat),
            ProbeError::UnexpectedMessageType(message_type) => "unexpected probe message type: "@
                + decimal(message_type as nat),
            ProbeError::InvalidEndStatus(status) => "invalid probe end status: "@ + decimal(
                status as nat,
            ),
            ProbeError::InvalidBoolean(value) => "invalid probe boolean: "@ + decimal(
                value as nat,
            ),
            ProbeError::Protocol(what) => "probe protocol error: "@ + what@,
            ProbeError::State(what) => "probe state error: "@ + what@,
            ProbeError::ZeroWrite => "zero-length write"@,
        }
    }

    /// What the error says.
    pub fn message(&self) -> (message: String)
        ensures
            message@ == self.text(),
    {
        match self {
            ProbeError::EndOfStream => "unexpected end of stream".to_owned(),
            ProbeError::InvalidVarint => "invalid varint".to_owned(),
            ProbeError::InvalidVersion(version) => labelled(
                "unsupported probe protocol version: ",
                *version,
            ),
            ProbeError::UnexpectedMessageType(message_type) => labelled(
                "unexpected probe message type: ",
                *message_type,
            ),
            ProbeError::InvalidEndStatus(status) => labelled("invalid probe end status: ", *status),
            ProbeError::InvalidBoolean(value) => labelled("invalid probe boolean: ", *value),
            ProbeError::Protocol(what) => "probe protocol error: ".to_owned().concat(what),
            ProbeError::State(what) => "probe state error: ".to_owned().concat(what),
            ProbeError::ZeroWrite => "zero-length write".to_owned(),
        }
    }
}

fn labelled(label: &str, n: u64) -> (text: String)
    ensures
        text@ == label@ + decimal(n as nat),
{
    let mut text: String = label.to_owned();
    push_number(&mut text, n);
    text
}

/// A flag is written as `true` or `false`.
pub proof fn flags_are_words()
    ensures
        flag_text(true) == seq!['t', 'r', 'u', 'e'],
        flag_text(false) == seq!['f', 'a', 'l', 's', 'e'],
{
    reveal_strlit("true");
    reveal_strlit("false");
}

/// The last digit of a decimal text is the number's remainder by ten, and the digits
/// before it are the text of the tenth.
pub proof fn decimal_digits(n: nat)
    ensures
        decimal(n).last() as int == '0' as int + n % 10,
        n >= 10 ==> decimal(n).drop_last() == decimal(n / 10),
        n < 10 ==> decimal(n).len() == 1,
{
    if n >= 10 {
        assert(decimal(n).drop_last() =~= decimal(n / 10));
    }
}

/// What each error says: its words, and behind them the number or the words that
/// came with it.
pub proof fn error_texts(number: u64, what: &'static str)
    ensures
        ProbeError::EndOfStream.text() == "unexpected end of stream"@,
        ProbeError::InvalidVarint.text() == "invalid varint"@,
        ProbeError::ZeroWrite.text() == "zero-length write"@,
        ProbeError::InvalidVersion(number).text() == "unsupported probe protocol version: "@
            + decimal(number as nat),
        ProbeError::UnexpectedMessageType(number).text() == "unexpected probe message type: "@
            + decimal(number as nat),
        ProbeError::InvalidEndStatus(number).text() == "invalid probe end status: "@ + decimal(
            number as nat,
        ),
        ProbeError::InvalidBoolean(number).text() == "invalid probe boolean: "@ + decimal(
            number as nat,
        ),
        ProbeError::Protocol(what).text() == "probe protocol error: "@ + what@,
        ProbeError::State(what).text() == "probe state error: "@ + what@,
{
}

} // verus!
