//! Decimal numbers as text, and the short texts that set the program up.

use vstd::prelude::*;

verus! {

/// The character that stands for a single decimal digit.
pub open spec fn digit(d: nat) -> char {
    if d == 0 {
        '0'
    } else if d == 1 {
        '1'
    } else if d == 2 {
        '2'
    } else if d == 3 {
        '3'
    } else if d == 4 {
        '4'
    } else if d == 5 {
        '5'
    } else if d == 6 {
        '6'
    } else if d == 7 {
        '7'
    } else if d == 8 {
        '8'
    } else {
        '9'
    }
}

/// A number in decimal, without leading zeros.
pub open spec fn decimal(n: nat) -> Seq<char>
    decreases n,
{
    if n < 10 {
        seq![digit(n)]
    } else {
        decimal(n / 10).push(digit(n % 10))
    }
}

/// What a row of decimal digits says, read from the left: each digit counts for
/// its distance from zero, and for ten times as much with every digit after it.
pub open spec fn numeral_value(digits: Seq<char>) -> int
    decreases digits.len(),
{
    if digits.len() == 0 {
        0
    } else {
        10 * numeral_value(digits.drop_last()) + (digits.last() as int - '0' as int)
    }
}

/// The text of the capture filter for a port.
pub open spec fn filter_text(port: nat) -> Seq<char> {
    "port "@ + decimal(port)
}

/// The last digit of a number stands for its remainder by ten, and the digits
/// before it are those of its tenth part.
pub proof fn law_last_digit(n: nat)
    ensures
        decimal(n).len() >= 1,
        decimal(n).last() as int - '0' as int == n % 10,
        n < 10 ==> decimal(n).len() == 1,
        n >= 10 ==> decimal(n).drop_last() == decimal(n / 10),
{
    if n >= 10 {
        assert(decimal(n).drop_last() =~= decimal(n / 10));
    }
}

/// A written number reads back as itself. It is made of the ten digits alone
/// and begins with a zero only if it is a single one.
pub proof fn law_decimal_reads_back(n: nat)
    ensures
        numeral_value(decimal(n)) == n,
        decimal(n).len() >= 1,
        forall|i: int|
            0 <= i < decimal(n).len() ==> '0' as int <= (#[trigger] decimal(n)[i]) as int
                <= '9' as int,
        decimal(n)[0] == '0' ==> decimal(n).len() == 1,
    decreases n,
{
    law_last_digit(n);
    if n >= 10 {
        law_decimal_reads_back(n / 10);
        if decimal(n)[0] == '0' {
            assert(decimal(n / 10)[0] == '0');
            assert(decimal(n / 10).drop_last() =~= Seq::<char>::empty());
            assert(numeral_value(Seq::<char>::empty()) == 0);
            assert(n / 10 == 0);
        }
    } else {
        assert(decimal(n).drop_last() =~= Seq::<char>::empty());
        assert(numeral_value(Seq::<char>::empty()) == 0);
    }
}

/// Different numbers are written differently.
pub proof fn law_decimals_differ(a: nat, b: nat)
    requires
        a != b,
    ensures
        decimal(a) != decimal(b),
{
    law_decimal_reads_back(a);
    law_decimal_reads_back(b);
}

/// The filter for a port is the word `port`, a space and a numeral that reads
/// as the port, so it names that port and no other.
pub proof fn law_filter_names_its_port(port: nat, other: nat)
    ensures
        filter_text(port).len() > 5,
        filter_text(port).take(5) == seq!['p', 'o', 'r', 't', ' '],
        numeral_value(filter_text(port).skip(5)) == port,
        forall|i: int|
            5 <= i < filter_text(port).len() ==> '0' as int <= (#[trigger] filter_text(
                port,
            )[i]) as int <= '9' as int,
        filter_text(port) == filter_text(other) ==> port == other,
{
    reveal_strlit("port ");
    law_decimal_reads_back(port);
    law_decimal_reads_back(other);
    assert(filter_text(port).skip(5) =~= decimal(port));
    assert(filter_text(other).skip(5) =~= decimal(other));
    assert(filter_text(port).take(5) =~= seq!['p', 'o', 'r', 't', ' ']);
}

/// The text of the logging directive for a program.
pub open spec fn directive_text(program: Seq<char>, debug: bool) -> Seq<char> {
    program + "="@ + (if debug {
        "debug"@
    } else {
        "info"@
    })
}

/// A directive is the program's whole name, an equals sign and the level, so
/// different programs or levels give different directives.
pub proof fn law_directive_names_its_program(
    program: Seq<char>,
    debug: bool,
    other: Seq<char>,
    other_debug: bool,
)
    ensures
        directive_text(program, debug).take(program.len() as int) == program,
        directive_text(program, debug)[program.len() as int] == '=',
        directive_text(program, true).skip(program.len() as int + 1) == seq!['d', 'e', 'b', 'u', 'g'],
        directive_text(program, false).skip(program.len() as int + 1) == seq!['i', 'n', 'f', 'o'],
        directive_text(program, debug) == directive_text(other, other_debug) ==> program == other
            && debug == other_debug,
{
    reveal_strlit("=");
    reveal_strlit("debug");
    reveal_strlit("info");
    let text = directive_text(program, debug);
    let other_text = directive_text(other, other_debug);
    assert(text.take(program.len() as int) =~= program);
    assert(other_text.take(other.len() as int) =~= other);
    assert(directive_text(program, true).skip(program.len() as int + 1) =~= seq!['d', 'e', 'b', 'u', 'g']);
    assert(directive_text(program, false).skip(program.len() as int + 1) =~= seq!['i', 'n', 'f', 'o']);
    assert(text.last() == (if debug {
        'g'
    } else {
        'o'
    }));
    assert(other_text.last() == (if other_debug {
        'g'
    } else {
        'o'
    }));
}

fn digit_text(d: u128) -> (text: &'static str)
    requires
        d < 10,
    ensures
        text@ == seq![digit(d as nat)],
{
    proof {
        reveal_strlit("0");
        reveal_strlit("1");
        reveal_strlit("2");
        reveal_strlit("3");
        reveal_strlit("4");
        reveal_strlit("5");
        reveal_strlit("6");
        reveal_strlit("7");
        reveal_strlit("8");
        reveal_strlit("9");
    }
    match d {
        0 => "0",
        1 => "1",
        2 => "2",
        3 => "3",
        4 => "4",
        5 => "5",
        6 => "6",
        7 => "7",
        8 => "8",
        _ => "9",
    }
}

/// Writes a number in decimal.
pub fn decimal_text(n: u128) -> (text: String)
    ensures
        text@ == decimal(n as nat),
        numeral_value(text@) == n,
    decreases n,
{
    proof {
        law_decimal_reads_back(n as nat);
    }
    if n < 10 {
        digit_text(n).to_string()
    } else {
        let mut text = decimal_text(n / 10);
        text.append(digit_text(n % 10));
        text
    }
}

/// The capture filter that restricts packet counting to one port, if a port is
/// monitored. Without a port every received packet counts.
pub fn capture_filter(port: Option<usize>) -> (filter: Option<String>)
    ensures
        filter is Some <==> port is Some,
        port matches Some(p) ==> filter->0@ == "port "@ + decimal(p as nat),
        port matches Some(p) ==> filter->0@ == filter_text(p as nat),
{
    match port {
        Some(p) => Some("port ".to_string().concat(decimal_text(p as u128).as_str())),
        None => None,
    }
}

/// The logging directive for a program's own messages: debugging output is
/// shown on request only.
pub fn log_directive(program: &str, debug: bool) -> (directive: String)
    ensures
        directive@ == program@ + "="@ + (if debug {
            "debug"@
        } else {
            "info"@
        }),
        directive@ == directive_text(program@, debug),
{
    let level = if debug {
        "debug"
    } else {
        "info"
    };
    program.to_string().concat("=").concat(level)
}

} // verus!
