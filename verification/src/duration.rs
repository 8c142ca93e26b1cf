//! Lengths of time: how they are read from and written to text, and how long a
//! wait still has to go.

use duration_string::DurationString;
use std::time::Duration;
use vstd::prelude::*;

verus! {

/// A length of time, or the time since the program was started: whole seconds
/// and the nanoseconds beyond them.
#[derive(Clone, Copy, Debug, PartialEq, Eq, Structural)]
pub struct Span {
    secs: u64,
    nanos: u32,
}

/// The length of time that `text` denotes, in nanoseconds, or the complaint
/// about a `text` that denotes none: what `duration_string::DurationString`'s
/// `FromStr` makes of the text.
pub uninterp spec fn parsed_duration(text: Seq<char>) -> Result<nat, Seq<char>>;

/// A reading of a length of time as plain values.
pub open spec fn reading(parsed: Result<Span, String>) -> Result<nat, Seq<char>> {
    match parsed {
        Ok(span) => Ok(span.total()),
        Err(complaint) => Err(complaint@),
    }
}

/// The unit in which a length of `ns` nanoseconds is written, in nanoseconds
/// and by its suffix: the first of year, week, day, hour, minute, second,
/// millisecond and microsecond that measures it exactly, else the nanosecond.
pub open spec fn duration_unit(ns: nat) -> (nat, Seq<char>) {
    if ns % 31_556_926_000_000_000 == 0 {
        (31_556_926_000_000_000, "y"@)
    } else if ns % 604_800_000_000_000 == 0 {
        (604_800_000_000_000, "w"@)
    } else if ns % 86_400_000_000_000 == 0 {
        (86_400_000_000_000, "d"@)
    } else if ns % 3_600_000_000_000 == 0 {
        (3_600_000_000_000, "h"@)
    } else if ns % 60_000_000_000 == 0 {
        (60_000_000_000, "m"@)
    } else if ns % 1_000_000_000 == 0 {
        (1_000_000_000, "s"@)
    } else if ns % 1_000_000 == 0 {
        (1_000_000, "ms"@)
    } else if ns % 1_000 == 0 {
        (1_000, "us"@)
    } else {
        (1, "ns"@)
    }
}

/// A length of `ns` nanoseconds as text: how many of its unit, then the unit.
pub open spec fn duration_text(ns: nat) -> Seq<char> {
    let (unit, suffix) = duration_unit(ns);
    crate::text::decimal(ns / unit) + suffix
}

/// `suffix` stands for a unit of `size` nanoseconds.
pub open spec fn is_unit(size: nat, suffix: Seq<char>) -> bool {
    ||| size == 31_556_926_000_000_000 && suffix == "y"@
    ||| size == 604_800_000_000_000 && suffix == "w"@
    ||| size == 86_400_000_000_000 && suffix == "d"@
    ||| size == 3_600_000_000_000 && suffix == "h"@
    ||| size == 60_000_000_000 && suffix == "m"@
    ||| size == 1_000_000_000 && suffix == "s"@
    ||| size == 1_000_000 && suffix == "ms"@
    ||| size == 1_000 && suffix == "us"@
    ||| size == 1 && suffix == "ns"@
}

/// `count` can be read as a number, and so many units of `size` nanoseconds
/// last for no more seconds than can be counted.
pub open spec fn is_countable(count: nat, size: nat) -> bool {
    count <= u64::MAX && count * size < (u64::MAX + 1) * 1_000_000_000
}

/// If `text` is a number followed by a unit, and so many of the unit are
/// countable, the outcome is so many of the unit.
pub open spec fn units_are_read(text: Seq<char>, outcome: Result<nat, Seq<char>>) -> bool {
    forall|count: nat, size: nat, suffix: Seq<char>|
        #![trigger crate::text::decimal(count), is_unit(size, suffix)]
        text == crate::text::decimal(count) + suffix && is_unit(size, suffix) && is_countable(
            count,
            size,
        ) ==> outcome == Ok::<nat, Seq<char>>(count * size)
}

/// If `text` is how some length of time is written, and the count in it is
/// countable, the outcome is that length.
pub open spec fn written_is_read(text: Seq<char>, outcome: Result<nat, Seq<char>>) -> bool {
    forall|ns: nat|
        text == #[trigger] duration_text(ns) && is_countable(
            ns / duration_unit(ns).0,
            duration_unit(ns).0,
        ) ==> outcome == Ok::<nat, Seq<char>>(ns)
}

/// The nanoseconds from `now` until `delay` after `since`, none once that
/// moment has passed.
pub open spec fn time_left(since: Span, delay: Span, now: Span) -> nat {
    if since.total() + delay.total() > now.total() {
        (since.total() + delay.total() - now.total()) as nat
    } else {
        0
    }
}

/// While a wait lasts, the time left and the time that it is now make up the
/// moment at which the wait is over, so the time left shrinks exactly as the
/// clock advances. From that moment on no time is left.
pub proof fn law_time_left_runs_with_the_clock(since: Span, delay: Span, now: Span, later: Span)
    ensures
        now.total() <= since.total() + delay.total() ==> time_left(since, delay, now) + now.total()
            == since.total() + delay.total(),
        now.total() >= since.total() + delay.total() ==> time_left(since, delay, now) == 0,
        now.total() <= later.total() <= since.total() + delay.total() ==> time_left(
            since,
            delay,
            now,
        ) - time_left(since, delay, later) == later.total() - now.total(),
{
}

/// A wait that begins later, or lasts longer, by some time leaves that much
/// more time.
pub proof fn law_longer_waits_leave_more_time(
    since: Span,
    delay: Span,
    other_since: Span,
    other_delay: Span,
    now: Span,
)
    requires
        now.total() <= since.total() + delay.total(),
        now.total() <= other_since.total() + other_delay.total(),
    ensures
        time_left(other_since, other_delay, now) - time_left(since, delay, now) == (
        other_since.total() - since.total()) + (other_delay.total() - delay.total()),
{
}

/// Every length of time, and any two together, can be counted in nanoseconds by
/// a machine number.
pub proof fn law_lengths_are_bounded(span: Span)
    ensures
        span.total() < 0x1_0000_0000_0000_0000 * 1_000_000_000 + 0x1_0000_0000,
{
}

/// A mark stands for one unit only: a thousand nanoseconds, microseconds and
/// milliseconds make up the next of these and a second, sixty seconds a minute,
/// sixty minutes an hour, 24 hours a day, seven days a week.
pub proof fn law_units(size: nat, suffix: Seq<char>)
    requires
        is_unit(size, suffix),
    ensures
        suffix == "ns"@ ==> size == 1,
        suffix == "us"@ ==> size == 1_000,
        suffix == "ms"@ ==> size == 1_000 * 1_000,
        suffix == "s"@ ==> size == 1_000 * 1_000_000,
        suffix == "m"@ ==> size == 60 * 1_000_000_000,
        suffix == "h"@ ==> size == 60 * 60 * 1_000_000_000,
        suffix == "d"@ ==> size == 24 * 60 * 60 * 1_000_000_000,
        suffix == "w"@ ==> size == 7 * 24 * 60 * 60 * 1_000_000_000,
        suffix == "y"@ ==> size == 31_556_926 * 1_000_000_000,
        forall|other: nat| is_unit(other, suffix) ==> other == size,
{
    reveal_strlit("ns");
    reveal_strlit("us");
    reveal_strlit("ms");
    reveal_strlit("s");
    reveal_strlit("m");
    reveal_strlit("h");
    reveal_strlit("d");
    reveal_strlit("w");
    reveal_strlit("y");
    assert("ns"@[0] == 'n' && "us"@[0] == 'u' && "ms"@[0] == 'm' && "s"@[0] == 's');
    assert("m"@[0] == 'm' && "h"@[0] == 'h' && "d"@[0] == 'd' && "w"@[0] == 'w' && "y"@[0] == 'y');
    assert("m"@.len() == 1 && "ms"@.len() == 2);
}

/// A written length is a numeral and a unit, and so many of the unit make up the
/// length. No larger unit measures the length exactly.
pub proof fn law_written_length(ns: nat)
    ensures
        exists|count: nat, size: nat, suffix: Seq<char>|
            #![trigger crate::text::decimal(count), is_unit(size, suffix)]
            {
                &&& duration_text(ns) == crate::text::decimal(count) + suffix
                &&& is_unit(size, suffix)
                &&& count * size == ns
                &&& forall|larger: nat, mark: Seq<char>| #[trigger]
                    is_unit(larger, mark) && larger > size ==> ns % larger != 0
            },
{
    let (size, suffix) = duration_unit(ns);
    let count = ns / size;
    assert(is_unit(size, suffix));
    assert(count * size == ns);
    assert(duration_text(ns) == crate::text::decimal(count) + suffix);
}

/// Of a text that is a number and a unit, a reading that meets the contract
/// makes so many of the unit, unless the number or the seconds are too large for
/// a machine number.
pub proof fn law_number_and_unit_are_read(
    count: nat,
    size: nat,
    suffix: Seq<char>,
    outcome: Result<nat, Seq<char>>,
)
    requires
        is_unit(size, suffix),
        count <= u64::MAX,
        count * size < (u64::MAX + 1) * 1_000_000_000,
        units_are_read(crate::text::decimal(count) + suffix, outcome),
    ensures
        outcome == Ok::<nat, Seq<char>>(count * size),
{
}

/// A length of whole seconds, and any length whose nanoseconds fit a machine
/// number, is read back as itself once it is written.
pub proof fn law_written_length_reads_back(ns: nat, outcome: Result<nat, Seq<char>>)
    requires
        ns <= u64::MAX || (ns % 1_000_000_000 == 0 && ns / 1_000_000_000 <= u64::MAX),
        written_is_read(duration_text(ns), outcome),
    ensures
        outcome == Ok::<nat, Seq<char>>(ns),
{
    let (size, suffix) = duration_unit(ns);
    assert((ns / size) * size == ns);
    assert(is_countable(ns / size, size));
}

/// Reads a length of time by `str::parse::<DurationString>`. The contract says
/// that the outcome, a length or the error's text, is a function of the text
/// alone, and that a number followed by a unit denotes so many of the unit.
/// What other texts denote, several units in a row or spaces among them, is left
/// to that crate. A `Duration`'s `subsec_nanos` make up less than a second.
#[verifier::external_body]
fn parse_with_crate(text: &str) -> (parsed: Result<Span, String>)
    ensures
        reading(parsed) == parsed_duration(text@),
        units_are_read(text@, reading(parsed)),
{
    match text.parse::<DurationString>() {
        Ok(read) => {
            let length: Duration = read.into();
            Ok(Span { secs: length.as_secs(), nanos: length.subsec_nanos() })
        },
        Err(error) => Err(error.to_string()),
    }
}

/// Writes a length of time by the `Display` of `DurationString`, which picks
/// the first unit that measures the length exactly and writes the count of
/// units followed by the unit's suffix.
#[verifier::external_body]
fn text_with_crate(span: Span) -> (text: String)
    requires
        span.wf(),
    ensures
        text@ == duration_text(span.total()),
{
    DurationString::new(Duration::new(span.secs, span.nanos)).to_string()
}

impl Span {
    #[verifier::type_invariant]
    spec fn wf(self) -> bool {
        self.nanos < 1_000_000_000
    }

    /// The length in nanoseconds.
    pub closed spec fn total(self) -> nat {
        (self.secs * 1_000_000_000 + self.nanos) as nat
    }

    /// A length of `secs` seconds and `nanos` nanoseconds, of which there are
    /// to be less than make up a second.
    pub fn new(secs: u64, nanos: u32) -> (span: Option<Span>)
        ensures
            span is Some <==> nanos < 1_000_000_000,
            span matches Some(s) ==> s.total() == secs * 1_000_000_000 + nanos,
    {
        if nanos < 1_000_000_000 {
            Some(Span { secs, nanos })
        } else {
            None
        }
    }

    /// The whole seconds.
    pub fn as_secs(self) -> (secs: u64)
        ensures
            secs == self.total() / 1_000_000_000,
    {
        proof {
            use_type_invariant(&self);
        }
        self.secs
    }

    /// The nanoseconds beyond the whole seconds.
    pub fn subsec_nanos(self) -> (nanos: u32)
        ensures
            nanos == self.total() % 1_000_000_000,
    {
        proof {
            use_type_invariant(&self);
        }
        self.nanos
    }

    /// The length in nanoseconds.
    pub fn as_nanos(self) -> (ns: u128)
        ensures
            ns == self.total(),
    {
        self.secs as u128 * 1_000_000_000 + self.nanos as u128
    }

    /// Reads a length of time such as `100ms`, `2s` or `1h10m`. A number
    /// followed by a unit denotes so many of the unit, and a length that was
    /// written reads back as itself.
    pub fn parse(text: &str) -> (parsed: Result<Span, String>)
        ensures
            reading(parsed) == parsed_duration(text@),
            parsed matches Ok(span) ==> parsed_duration(text@) == Ok::<nat, Seq<char>>(
                span.total(),
            ),
            parsed matches Err(complaint) ==> parsed_duration(text@) == Err::<nat, Seq<char>>(
                complaint@,
            ),
            units_are_read(text@, reading(parsed)),
            written_is_read(text@, reading(parsed)),
    {
        let parsed = parse_with_crate(text);
        proof {
            assert forall|ns: nat|
                text@ == #[trigger] duration_text(ns) && is_countable(
                    ns / duration_unit(ns).0,
                    duration_unit(ns).0,
                ) implies reading(parsed) == Ok::<nat, Seq<char>>(ns) by {
                let (size, suffix) = duration_unit(ns);
                let count = ns / size;
                assert(is_unit(size, suffix));
                assert(text@ == crate::text::decimal(count) + suffix);
                assert(count * size == ns);
            }
        }
        parsed
    }

    /// Writes the length in the first unit that measures it exactly, `5s` or
    /// `2m`.
    pub fn text(self) -> (text: String)
        ensures
            text@ == duration_text(self.total()),
    {
        proof {
            use_type_invariant(&self);
        }
        text_with_crate(self)
    }

    /// The whole seconds from `now` until `delay` after `self`, none once that
    /// moment has passed.
    pub fn seconds_left(self, delay: Span, now: Span) -> (seconds: u128)
        ensures
            seconds == time_left(self, delay, now) / 1_000_000_000,
            now.total() <= self.total() + delay.total() ==> seconds * 1_000_000_000
                <= self.total() + delay.total() - now.total() < (seconds + 1) * 1_000_000_000,
            now.total() >= self.total() + delay.total() ==> seconds == 0,
    {
        let due: u128 = self.as_nanos() + delay.as_nanos();
        let current: u128 = now.as_nanos();
        if due > current {
            (due - current) / 1_000_000_000
        } else {
            0
        }
    }
}

} // verus!
