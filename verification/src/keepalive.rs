//! The keep-alive frame that the writer loop sends, and the decimal
//! rendering of the port number inside it.

use vstd::prelude::*;
use vstd::string::*;

verus! {

/// The character that stands for a single decimal digit.
pub open spec fn digit_char(d: nat) -> char
    recommends
        d < 10,
{
    if d == 0 {
        '0'
    } else if d == 1 {
        '1'
    } else if d == 2 {
        '2'
    } else if d == 3 {
        '3'
    } else if d == 4 {
        '4'
    } else if d == 5 {
        '5'
    } else if d == 6 {
        '6'
    } else if d == 7 {
        '7'
    } else if d == 8 {
        '8'
    } else {
        '9'
    }
}

/// The digit that a character written by `digit_char` stands for.
pub open spec fn digit_value(c: char) -> nat {
    if c == '1' {
        1
    } else if c == '2' {
        2
    } else if c == '3' {
        3
    } else if c == '4' {
        4
    } else if c == '5' {
        5
    } else if c == '6' {
        6
    } else if c == '7' {
        7
    } else if c == '8' {
        8
    } else if c == '9' {
        9
    } else {
        0
    }
}

/// A number in base ten, most significant digit first, without leading
/// zeros; zero is the single digit `0`.
pub open spec fn decimal_text(n: nat) -> Seq<char>
    decreases n,
{
    if n < 10 {
        seq![digit_char(n)]
    } else {
        decimal_text(n / 10).push(digit_char(n % 10))
    }
}

/// The number that a sequence of decimal digits denotes.
pub open spec fn decimal_value(digits: Seq<char>) -> nat
    decreases digits.len(),
{
    if digits.len() == 0 {
        0
    } else {
        decimal_value(digits.drop_last()) * 10 + digit_value(digits.last())
    }
}

/// The keep-alive frame for an agent and the port it exposes.
pub open spec fn keepalive_text(agent_id: Seq<char>, port: u16) -> Seq<char> {
    "Ping from agent "@ + agent_id + " on port "@ + decimal_text(port as nat) + "\n"@
}

/// Reading a rendered number back gives the number, and the rendering of a
/// positive number does not start with a zero.
pub proof fn decimal_text_round_trip(n: nat)
    ensures
        decimal_value(decimal_text(n)) == n,
        decimal_text(n).len() >= 1,
        n > 0 ==> decimal_text(n)[0] != '0',
        forall|i: int|
            0 <= i < decimal_text(n).len() ==> '0' <= #[trigger] decimal_text(n)[i] <= '9',
    decreases n,
{
    if n < 10 {
        let s = seq![digit_char(n)];
        assert(s.drop_last() =~= Seq::<char>::empty());
        assert(decimal_value(s.drop_last()) == 0);
        assert(s.last() == digit_char(n));
    } else {
        decimal_text_round_trip(n / 10);
        let head = decimal_text(n / 10);
        let s = head.push(digit_char(n % 10));
        assert(s.drop_last() =~= head);
        assert(s.last() == digit_char(n % 10));
        assert(s[0] == head[0]);
        assert forall|i: int| 0 <= i < s.len() implies '0' <= #[trigger] s[i] <= '9' by {
            if i < head.len() {
                assert(s[i] == head[i]);
            }
        }
    }
}

/// The frame holds the identity and the port's decimal text as they are, each
/// at its place between the fixed words, and ends with a line feed.
pub proof fn keepalive_text_layout(agent_id: Seq<char>, port: u16)
    ensures
        ({
            let frame = keepalive_text(agent_id, port);
            let digits = decimal_text(port as nat);
            let id_end: int = 16 + agent_id.len() as int;
            &&& frame.len() == 16 + agent_id.len() + 9 + digits.len() + 1
            &&& frame.subrange(0, 16) == "Ping from agent "@
            &&& frame.subrange(16, id_end) == agent_id
            &&& frame.subrange(id_end, id_end + 9) == " on port "@
            &&& frame.subrange(id_end + 9, id_end + 9 + digits.len()) == digits
            &&& frame[frame.len() - 1] == '\n'
            &&& decimal_value(digits) == port
        }),
{
    reveal_strlit("Ping from agent ");
    reveal_strlit(" on port ");
    reveal_strlit("\n");
    decimal_text_round_trip(port as nat);
    let frame = keepalive_text(agent_id, port);
    let digits = decimal_text(port as nat);
    let id_end: int = 16 + agent_id.len() as int;
    assert(frame.subrange(0, 16) =~= "Ping from agent "@);
    assert(frame.subrange(16, id_end) =~= agent_id);
    assert(frame.subrange(id_end, id_end + 9) =~= " on port "@);
    assert(frame.subrange(id_end + 9, id_end + 9 + digits.len()) =~= digits);
}

/// Frames differ where the identity or the port differs, as long as the
/// identities are equally long.
pub proof fn keepalive_text_tells_apart(
    first_id: Seq<char>,
    first_port: u16,
    second_id: Seq<char>,
    second_port: u16,
)
    requires
        first_id.len() == second_id.len(),
        keepalive_text(first_id, first_port) == keepalive_text(second_id, second_port),
    ensures
        first_id == second_id,
        first_port == second_port,
{
    keepalive_text_layout(first_id, first_port);
    keepalive_text_layout(second_id, second_port);
    let frame = keepalive_text(first_id, first_port);
    let first_digits = decimal_text(first_port as nat);
    let second_digits = decimal_text(second_port as nat);
    assert(first_digits.len() == second_digits.len());
}

/// The text of one decimal digit.
fn digit_str(d: u16) -> (s: &'static str)
    requires
        d < 10,
    ensures
        s@ == seq![digit_char(d as nat)],
{
    proof {
        reveal_strlit("0");
        reveal_strlit("1");
        reveal_strlit("2");
        reveal_strlit("3");
        reveal_strlit("4");
        reveal_strlit("5");
        reveal_strlit("6");
        reveal_strlit("7");
        reveal_strlit("8");
        reveal_strlit("9");
    }
    let s: &'static str = if d == 0 {
        "0"
    } else if d == 1 {
        "1"
    } else if d == 2 {
        "2"
    } else if d == 3 {
        "3"
    } else if d == 4 {
        "4"
    } else if d == 5 {
        "5"
    } else if d == 6 {
        "6"
    } else if d == 7 {
        "7"
    } else if d == 8 {
        "8"
    } else {
        "9"
    };
    assert(s@ =~= seq![digit_char(d as nat)]);
    s
}

/// Renders a port number in base ten.
pub fn port_text(port: u16) -> (text: String)
    ensures
        text@ == decimal_text(port as nat),
    decreases port,
{
    if port < 10 {
        String::from_str(digit_str(port))
    } else {
        let mut text = port_text(port / 10);
        let last = digit_str(port % 10);
        text.append(last);
        assert(text@ =~= decimal_text((port / 10) as nat).push(digit_char((port % 10) as nat)));
        text
    }
}

/// Formats the keep-alive frame that the writer loop sends: the agent's
/// identity and the exposed port, in one line of text.
pub fn keepalive_message(agent_id: &str, port: u16) -> (message: String)
    ensures
        message@ == keepalive_text(agent_id@, port),
{
    let mut message = String::from_str("Ping from agent ");
    message.append(agent_id);
    message.append(" on port ");
    let digits = port_text(port);
    message.append(digits.as_str());
    message.append("\n");
    message
}

} // verus!
