//! What the program tells its user, and in which words.

use crate::duration::Span;
use crate::text::decimal_text;
use vstd::prelude::*;

verus! {

/// How much a message matters.
#[derive(Clone, Copy, Debug, PartialEq, Eq, Structural)]
pub enum Level {
    Debug,
    Info,
    Warn,
}

/// Something worth telling.
#[derive(Clone, Debug)]
pub enum Notice {
    /// The main loop is about to begin.
    MainLoopStarting,
    /// So many packets were received in an interval of this length.
    PacketsReceived { count: u128, rate: Span },
    /// The monitored port has an open connection.
    ActiveConnection,
    /// The listing does not tell whether the container is running.
    StatusUnknown { container: String },
    /// The container counts as active.
    ThresholdHit,
    /// The pending suspension is called off.
    AbortingSuspension,
    /// The container counts as idle; its suspension is due in so many seconds.
    SuspensionPending { seconds: u128 },
    /// The container counts as idle; its suspension is now due after `delay`.
    SchedulingSuspension { delay: Span },
    /// The container counts as idle and is suspended without a wait.
    SuspendingWithoutWait,
    /// A suspension was begun, and how it ended.
    Suspending,
    Suspended,
    SuspendFailed { error: String },
    /// A start was begun, and how it ended.
    Starting,
    Started,
    StartFailed { error: String },
}

impl Notice {
    /// The words of the message.
    pub open spec fn words(self) -> Seq<char> {
        match self {
            Notice::MainLoopStarting => "Starting main loop"@,
            Notice::PacketsReceived { count, rate } => "Received "@ + crate::text::decimal(
                count as nat,
            ) + " packets in last "@ + crate::duration::duration_text(rate.total()),
            Notice::ActiveConnection => "Socket has an active connection"@,
            Notice::StatusUnknown { container } => "Failed to check if container "@ + container@
                + " is running"@,
            Notice::ThresholdHit => "Threshold hit"@,
            Notice::AbortingSuspension => "Aborting suspension"@,
            Notice::SuspensionPending { seconds } => "Threshold missed, suspension scheduled in "@
                + crate::text::decimal(seconds as nat) + " seconds"@,
            Notice::SchedulingSuspension { delay } => "Threshold missed. Scheduling suspension in "@
                + crate::duration::duration_text(delay.total()),
            Notice::SuspendingWithoutWait => "Threshold missed. Suspending container"@,
            Notice::Suspending => "Suspending container"@,
            Notice::Suspended => "Container suspended"@,
            Notice::SuspendFailed { error } => "Failed to suspend container: "@ + error@,
            Notice::Starting => "Starting container"@,
            Notice::Started => "Container started"@,
            Notice::StartFailed { error } => "Failed to start container: "@ + error@,
        }
    }

    /// The words of the message.
    pub fn message(&self) -> (message: String)
        ensures
            message@ == self.words(),
    {
        match self {
            Notice::MainLoopStarting => "Starting main loop".to_string(),
            Notice::PacketsReceived { count, rate } => "Received ".to_string().concat(
                decimal_text(*count).as_str(),
            ).concat(" packets in last ").concat(rate.text().as_str()),
            Notice::ActiveConnection => "Socket has an active connection".to_string(),
            Notice::StatusUnknown { container } => {
                "Failed to check if container ".to_string().concat(container.as_str()).concat(
                    " is running",
                )
            },
            Notice::ThresholdHit => "Threshold hit".to_string(),
            Notice::AbortingSuspension => "Aborting suspension".to_string(),
            Notice::SuspensionPending { seconds } => {
                "Threshold missed, suspension scheduled in ".to_string().concat(
                    decimal_text(*seconds).as_str(),
                ).concat(" seconds")
            },
            Notice::SchedulingSuspension { delay } => {
                "Threshold missed. Scheduling suspension in ".to_string().concat(
                    delay.text().as_str(),
                )
            },
            Notice::SuspendingWithoutWait => "Threshold missed. Suspending container".to_string(),
            Notice::Suspending => "Suspending container".to_string(),
            Notice::Suspended => "Container suspended".to_string(),
            Notice::SuspendFailed { error } => "Failed to suspend container: ".to_string().concat(
                error.as_str(),
            ),
            Notice::Starting => "Starting container".to_string(),
            Notice::Started => "Container started".to_string(),
            Notice::StartFailed { error } => "Failed to start container: ".to_string().concat(
                error.as_str(),
            ),
        }
    }

    /// How much the message matters.
    pub open spec fn weight(self) -> Level {
        match self {
            Notice::Suspending => Level::Debug,
            Notice::Starting => Level::Debug,
            Notice::StatusUnknown { container } => Level::Warn,
            _ => Level::Info,
        }
    }

    /// A message is shown to every user, except the beginnings of a start and of
    /// a suspension, and only an unknown status is a warning.
    pub proof fn law_weight(self)
        ensures
            self.weight() is Debug <==> self is Suspending || self is Starting,
            self.weight() is Warn <==> self is StatusUnknown,
    {
    }

    /// How much the message matters: the beginnings of a start and of a
    /// suspension are for debugging, an unknown status is a warning.
    pub fn level(&self) -> (level: Level)
        ensures
            level == Level::Debug <==> (self is Suspending || self is Starting),
            level == Level::Warn <==> self is StatusUnknown,
            level == self.weight(),
    {
        match self {
            Notice::Suspending => Level::Debug,
            Notice::Starting => Level::Debug,
            Notice::StatusUnknown { container: _ } => Level::Warn,
            _ => Level::Info,
        }
    }
}

/// `words` hold a numeral from `start` on that reads as `n` and ends before a
/// space.
pub open spec fn tells_number(words: Seq<char>, start: int, n: int) -> bool {
    exists|end: int|
        {
            &&& start < end < words.len()
            &&& #[trigger] words[end] == ' '
            &&& forall|i: int|
                start <= i < end ==> '0' as int <= (#[trigger] words[i]) as int <= '9' as int
            &&& crate::text::numeral_value(words.subrange(start, end)) == n
        }
}

/// Whoever reads the log finds, after the word `Received` and a space, the
/// number of packets up to the next space, for every number, and at the end the
/// length of the interval. Different numbers give different messages.
pub proof fn law_packets_are_told(count: u128, other: u128, rate: Span)
    ensures
        (Notice::PacketsReceived { count, rate }).words().take(9) == "Received "@,
        tells_number((Notice::PacketsReceived { count, rate }).words(), 9, count as int),
        (Notice::PacketsReceived { count, rate }).words().len() == 9 + crate::text::decimal(
            count as nat,
        ).len() + 17 + crate::duration::duration_text(rate.total()).len(),
        (Notice::PacketsReceived { count, rate }).words().skip(
            9 + crate::text::decimal(count as nat).len() as int,
        ) == " packets in last "@ + crate::duration::duration_text(rate.total()),
        count != other ==> (Notice::PacketsReceived { count, rate }).words()
            != (Notice::PacketsReceived { count: other, rate }).words(),
{
    reveal_strlit("Received ");
    reveal_strlit(" packets in last ");
    crate::text::law_decimal_reads_back(count as nat);
    crate::text::law_decimal_reads_back(other as nat);
    let words = (Notice::PacketsReceived { count, rate }).words();
    let others = (Notice::PacketsReceived { count: other, rate }).words();
    let digits = crate::text::decimal(count as nat);
    let other_digits = crate::text::decimal(other as nat);
    let end = 9 + digits.len() as int;
    let other_end = 9 + other_digits.len() as int;
    assert(words.take(9) =~= "Received "@);
    assert(words.subrange(9, end) =~= digits);
    assert(others.subrange(9, other_end) =~= other_digits);
    assert(words[end] == ' ');
    assert forall|i: int| 9 <= i < end implies '0' as int <= (#[trigger] words[i]) as int
        <= '9' as int by {
        assert(words[i] == digits[i - 9]);
    }
    assert(words.skip(end) =~= " packets in last "@ + crate::duration::duration_text(
        rate.total(),
    ));
    if words == others {
        assert(end == other_end);
    }
}

/// The message on a pending suspension tells its seconds, for every number of
/// them, before the word `seconds`.
pub proof fn law_seconds_are_told(seconds: u128, other: u128)
    ensures
        (Notice::SuspensionPending { seconds }).words().take(42)
            == "Threshold missed, suspension scheduled in "@,
        tells_number((Notice::SuspensionPending { seconds }).words(), 42, seconds as int),
        (Notice::SuspensionPending { seconds }).words().skip(
            42 + crate::text::decimal(seconds as nat).len() as int,
        ) == " seconds"@,
        seconds != other ==> (Notice::SuspensionPending { seconds }).words()
            != (Notice::SuspensionPending { seconds: other }).words(),
{
    reveal_strlit("Threshold missed, suspension scheduled in ");
    reveal_strlit(" seconds");
    crate::text::law_decimal_reads_back(seconds as nat);
    crate::text::law_decimal_reads_back(other as nat);
    let words = (Notice::SuspensionPending { seconds }).words();
    let others = (Notice::SuspensionPending { seconds: other }).words();
    let digits = crate::text::decimal(seconds as nat);
    let other_digits = crate::text::decimal(other as nat);
    let end = 42 + digits.len() as int;
    let other_end = 42 + other_digits.len() as int;
    assert(words.take(42) =~= "Threshold missed, suspension scheduled in "@);
    assert(words.subrange(42, end) =~= digits);
    assert(others.subrange(42, other_end) =~= other_digits);
    assert(words[end] == ' ');
    assert forall|i: int| 42 <= i < end implies '0' as int <= (#[trigger] words[i]) as int
        <= '9' as int by {
        assert(words[i] == digits[i - 42]);
    }
    assert(words.skip(end) =~= " seconds"@);
    if words == others {
        assert(end == other_end);
    }
}

/// The message on a newly scheduled suspension ends with the whole delay, as
/// lengths of time are written.
pub proof fn law_delay_is_told(delay: Span)
    ensures
        (Notice::SchedulingSuspension { delay }).words().take(43)
            == "Threshold missed. Scheduling suspension in "@,
        (Notice::SchedulingSuspension { delay }).words().skip(43) == crate::duration::duration_text(
            delay.total(),
        ),
{
    reveal_strlit("Threshold missed. Scheduling suspension in ");
    let words = (Notice::SchedulingSuspension { delay }).words();
    assert(words.take(43) =~= "Threshold missed. Scheduling suspension in "@);
    assert(words.skip(43) =~= crate::duration::duration_text(delay.total()));
}

/// A container of unknown status is told by its whole name, and a failure by
/// the daemon's whole complaint.
pub proof fn law_names_and_complaints_are_told(text: String)
    ensures
        (Notice::StatusUnknown { container: text }).words().len() == 29 + text@.len() + 11,
        (Notice::StatusUnknown { container: text }).words().take(29)
            == "Failed to check if container "@,
        (Notice::StatusUnknown { container: text }).words().subrange(29, 29 + text@.len() as int)
            == text@,
        (Notice::StatusUnknown { container: text }).words().skip(29 + text@.len() as int)
            == " is running"@,
        (Notice::SuspendFailed { error: text }).words().take(29) == "Failed to suspend container: "@,
        (Notice::SuspendFailed { error: text }).words().skip(29) == text@,
        (Notice::StartFailed { error: text }).words().take(27) == "Failed to start container: "@,
        (Notice::StartFailed { error: text }).words().skip(27) == text@,
{
    reveal_strlit("Failed to check if container ");
    reveal_strlit(" is running");
    reveal_strlit("Failed to suspend container: ");
    reveal_strlit("Failed to start container: ");
    let unknown = (Notice::StatusUnknown { container: text }).words();
    let stop = (Notice::SuspendFailed { error: text }).words();
    let start = (Notice::StartFailed { error: text }).words();
    assert(unknown.take(29) =~= "Failed to check if container "@);
    assert(unknown.subrange(29, 29 + text@.len() as int) =~= text@);
    assert(unknown.skip(29 + text@.len() as int) =~= " is running"@);
    assert(stop.take(29) =~= "Failed to suspend container: "@);
    assert(stop.skip(29) =~= text@);
    assert(start.take(27) =~= "Failed to start container: "@);
    assert(start.skip(27) =~= text@);
}

/// What to tell once the daemon has answered a request to stop the container.
pub fn suspend_outcome(answer: Result<(), String>) -> (notice: Notice)
    ensures
        notice == (match answer {
            Ok(_) => Notice::Suspended,
            Err(error) => Notice::SuspendFailed { error },
        }),
{
    match answer {
        Ok(()) => Notice::Suspended,
        Err(error) => Notice::SuspendFailed { error },
    }
}

/// What to tell once the daemon has answered a request to start the container.
pub fn start_outcome(answer: Result<(), String>) -> (notice: Notice)
    ensures
        notice == (match answer {
            Ok(_) => Notice::Started,
            Err(error) => Notice::StartFailed { error },
        }),
{
    match answer {
        Ok(()) => Notice::Started,
        Err(error) => Notice::StartFailed { error },
    }
}

} // verus!
