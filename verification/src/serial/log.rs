//! The logging pipeline: which records are written, and the text of the
//! line that is written for one.

use super::ansi::{decimal, push_decimal, Color, EscapeSequence, EscapeSequenceView, Style};
use vstd::prelude::*;
use vstd::string::*;

verus! {

/// The severity of a record, from the most severe to the least.
#[derive(Clone, Copy, PartialEq, Eq, PartialOrd, Ord, Debug, Structural)]
pub enum Severity {
    /// A serious failure.
    Error,
    /// A hazardous situation.
    Warn,
    /// Useful information.
    Info,
    /// Lower priority information.
    Debug,
    /// Very low priority, often very verbose, information.
    Trace,
}

/// A bound on the severities that are let through: `Off` lets none through,
/// any other bound lets through what is at least as severe as itself.
#[derive(Clone, Copy, PartialEq, Eq, PartialOrd, Ord, Debug, Structural)]
pub enum Threshold {
    /// Nothing is let through.
    Off,
    /// Only errors.
    Error,
    /// Warnings and errors.
    Warn,
    /// Information and what is more severe.
    Info,
    /// Debugging output and what is more severe.
    Debug,
    /// Everything.
    Trace,
}

impl Severity {
    /// The place of a severity in the order: 1 for the most severe, 5 for
    /// the least.
    pub open spec fn rank(self) -> nat {
        match self {
            Severity::Error => 1,
            Severity::Warn => 2,
            Severity::Info => 3,
            Severity::Debug => 4,
            Severity::Trace => 5,
        }
    }

    /// The word that names a severity in a written line.
    pub open spec fn label(self) -> Seq<char> {
        match self {
            Severity::Error => seq!['E', 'R', 'R', 'O', 'R'],
            Severity::Warn => seq!['W', 'A', 'R', 'N'],
            Severity::Info => seq!['I', 'N', 'F', 'O'],
            Severity::Debug => seq!['D', 'E', 'B', 'U', 'G'],
            Severity::Trace => seq!['T', 'R', 'A', 'C', 'E'],
        }
    }

    /// The colour in which a severity is written.
    pub open spec fn color(self) -> Color {
        match self {
            Severity::Error => Color::LightRed,
            Severity::Warn => Color::LightYellow,
            Severity::Info => Color::LightBlue,
            Severity::Debug => Color::Magenta,
            Severity::Trace => Color::LightBlack,
        }
    }

    /// The place of a severity in the order.
    pub fn ordinal(self) -> (n: u8)
        ensures
            n == self.rank(),
    {
        match self {
            Severity::Error => 1,
            Severity::Warn => 2,
            Severity::Info => 3,
            Severity::Debug => 4,
            Severity::Trace => 5,
        }
    }

    /// The word that names a severity in a written line.
    pub fn as_str(self) -> (word: &'static str)
        ensures
            word@ == self.label(),
    {
        proof {
            reveal_strlit("ERROR");
            reveal_strlit("WARN");
            reveal_strlit("INFO");
            reveal_strlit("DEBUG");
            reveal_strlit("TRACE");
        }
        let word = match self {
            Severity::Error => "ERROR",
            Severity::Warn => "WARN",
            Severity::Info => "INFO",
            Severity::Debug => "DEBUG",
            Severity::Trace => "TRACE",
        };
        assert(word@ =~= self.label());
        word
    }

    /// The colour in which a severity is written.
    pub fn level_color(self) -> (color: Color)
        ensures
            color == self.color(),
    {
        match self {
            Severity::Error => Color::LightRed,
            Severity::Warn => Color::LightYellow,
            Severity::Info => Color::LightBlue,
            Severity::Debug => Color::Magenta,
            Severity::Trace => Color::LightBlack,
        }
    }
}

impl Threshold {
    /// The rank of the least severe severity that a bound lets through; 0
    /// for `Off`.
    pub open spec fn rank(self) -> nat {
        match self {
            Threshold::Off => 0,
            Threshold::Error => 1,
            Threshold::Warn => 2,
            Threshold::Info => 3,
            Threshold::Debug => 4,
            Threshold::Trace => 5,
        }
    }

    /// Whether a bound lets a severity through: the severity is at least as
    /// severe as the bound.
    pub open spec fn admits(self, severity: Severity) -> bool {
        severity.rank() <= self.rank()
    }

    /// The rank of a bound.
    pub fn ordinal(self) -> (n: u8)
        ensures
            n == self.rank(),
    {
        match self {
            Threshold::Off => 0,
            Threshold::Error => 1,
            Threshold::Warn => 2,
            Threshold::Info => 3,
            Threshold::Debug => 4,
            Threshold::Trace => 5,
        }
    }

    /// Whether a bound lets a severity through.
    pub fn allows(self, severity: Severity) -> (yes: bool)
        ensures
            yes == self.admits(severity),
    {
        severity.ordinal() <= self.ordinal()
    }
}

/// A filter table as contracts see it: targets with their optional bound,
/// in the order of the table.
pub type FilterTable = Seq<(Seq<char>, Option<Threshold>)>;

/// The filter table that a vector of entries stands for.
pub open spec fn table_of(entries: Seq<(String, Option<Threshold>)>) -> FilterTable {
    Seq::new(entries.len(), |i: int| (entries[i].0@, entries[i].1))
}

/// The bound of the first entry at or after `from` whose target is exactly
/// `target`; `None` where there is no such entry.
pub open spec fn lookup_from(table: FilterTable, target: Seq<char>, from: int) -> Option<
    Option<Threshold>,
>
    decreases table.len() - from,
{
    if from < 0 || from >= table.len() {
        None
    } else if table[from].0 == target {
        Some(table[from].1)
    } else {
        lookup_from(table, target, from + 1)
    }
}

/// Whether a filter table lets a record of this target and severity
/// through. An empty table lets everything through. Otherwise the first
/// entry for exactly this target decides: without a bound it lets the record
/// through, with one it does so where the bound admits the severity. A target
/// without entry is kept out.
pub open spec fn table_admits(table: FilterTable, target: Seq<char>, severity: Severity) -> bool {
    table.len() == 0 || match lookup_from(table, target, 0) {
        None => false,
        Some(None) => true,
        Some(Some(bound)) => bound.admits(severity),
    }
}

/// A diagnostic record as its producer hands it over.
pub struct LogRecord {
    /// How severe the record is.
    pub severity: Severity,
    /// The name of the part of the program that produced it.
    pub target: String,
    /// The monotonic time at which it was produced, in milliseconds.
    pub timestamp_ms: u32,
    /// The message.
    pub message: String,
}

/// What a record holds.
pub struct LogRecordView {
    /// How severe the record is.
    pub severity: Severity,
    /// The name of the part of the program that produced it.
    pub target: Seq<char>,
    /// The monotonic time at which it was produced, in milliseconds.
    pub timestamp_ms: u32,
    /// The message.
    pub message: Seq<char>,
}

impl View for LogRecord {
    type V = LogRecordView;

    open spec fn view(&self) -> LogRecordView {
        LogRecordView {
            severity: self.severity,
            target: self.target@,
            timestamp_ms: self.timestamp_ms,
            message: self.message@,
        }
    }
}

/// The escape sequence that opens the severity word of a line.
pub open spec fn tag_open(severity: Severity) -> EscapeSequenceView {
    EscapeSequenceView { fg: Some(severity.color()), bg: None, styles: Seq::empty() }
}

/// The escape sequence that closes the severity word of a line.
pub open spec fn tag_close() -> EscapeSequenceView {
    EscapeSequenceView { fg: None, bg: None, styles: seq![Style::Clear] }
}

/// The line that is written for a record: `[`, the severity word between
/// its two escape sequences, the target, the time, `]: `, the message, and a
/// carriage return followed by a line feed.
pub open spec fn line_of(record: LogRecordView, color_enabled: bool) -> Seq<char> {
    seq!['['] + tag_open(record.severity).rendered(color_enabled) + record.severity.label()
        + tag_close().rendered(color_enabled) + seq![' '] + record.target + seq![' '] + decimal(
        record.timestamp_ms as nat,
    ) + seq![']', ':', ' '] + record.message + seq!['\r', '\n']
}

/// The line that is written for a record.
pub fn format_line(record: &LogRecord, color_enabled: bool) -> (line: String)
    ensures
        line@ == line_of(record@, color_enabled),
{
    proof {
        reveal_strlit("[");
        reveal_strlit(" ");
        reveal_strlit("]: ");
        reveal_strlit("\r\n");
    }
    let clear = [Style::Clear];
    let open_tag = EscapeSequence::new().set_fg(record.severity.level_color());
    let close_tag = EscapeSequence::new().set_styles(clear.as_slice());
    assert(close_tag@.styles =~= seq![Style::Clear]);
    assert(close_tag@ == tag_close());
    let mut line = String::new();
    line.append("[");
    open_tag.push_to(color_enabled, &mut line);
    line.append(record.severity.as_str());
    close_tag.push_to(color_enabled, &mut line);
    line.append(" ");
    line.append(record.target.as_str());
    line.append(" ");
    push_decimal(&mut line, record.timestamp_ms);
    line.append("]: ");
    line.append(record.message.as_str());
    line.append("\r\n");
    assert(line@ =~= line_of(record@, color_enabled));
    line
}

/// The settings with which the pipeline is started.
pub struct LoggingConfig {
    /// The least severe severity that is written at all.
    pub max_level: Threshold,
    /// The targets that are written, each with an optional bound of its own.
    /// Where this is empty every target is written.
    pub filters: Vec<(String, Option<Threshold>)>,
    /// Whether escape sequences for colour are written.
    pub color: bool,
}

impl Default for LoggingConfig {
    /// Everything is written, in colour, for every target.
    fn default() -> (config: LoggingConfig)
        ensures
            config.max_level == Threshold::Trace,
            config.filters@.len() == 0,
            config.color,
    {
        LoggingConfig { max_level: Threshold::Trace, filters: Vec::new(), color: true }
    }
}

/// Why the pipeline could not be started.
#[derive(Clone, Copy, PartialEq, Eq, Debug, Structural)]
pub enum InitError {
    /// The pipeline is active already.
    AlreadyActive,
}

/// The state of the pipeline as contracts see it.
pub struct USBLoggerView {
    /// Whether the pipeline is active.
    pub enabled: bool,
    /// The least severe severity that is written at all.
    pub max_level: Threshold,
    /// Whether escape sequences for colour are written.
    pub color: bool,
    /// The filter table.
    pub filters: FilterTable,
}

impl USBLoggerView {
    /// The state after an attempt to start the pipeline with `config`, and
    /// whether the attempt succeeds: an inactive pipeline becomes active
    /// with the settings of `config`; an active one stays as it is, and the
    /// attempt fails.
    pub open spec fn init(self, config: LoggingConfig) -> (USBLoggerView, Result<(), InitError>) {
        if self.enabled {
            (self, Err(InitError::AlreadyActive))
        } else {
            (
                USBLoggerView {
                    enabled: true,
                    max_level: config.max_level,
                    color: config.color,
                    filters: table_of(config.filters@),
                },
                Ok(()),
            )
        }
    }

    /// Whether a record is written: the pipeline is active, the severity is
    /// at least as severe as the maximum, and the filter table lets the
    /// record through.
    pub open spec fn enabled_for(self, record: LogRecordView) -> bool {
        self.enabled && self.max_level.admits(record.severity) && table_admits(
            self.filters,
            record.target,
            record.severity,
        )
    }

    /// What is written for a record: its line where the record is enabled,
    /// nothing otherwise.
    pub open spec fn output(self, record: LogRecordView) -> Option<Seq<char>> {
        if self.enabled_for(record) {
            Some(line_of(record, self.color))
        } else {
            None
        }
    }
}

/// The logging pipeline. It starts inactive and is started once.
pub struct USBLogger {
    enabled: bool,
    max_level: Threshold,
    color: bool,
    filters: Vec<(String, Option<Threshold>)>,
}

impl View for USBLogger {
    type V = USBLoggerView;

    closed spec fn view(&self) -> USBLoggerView {
        USBLoggerView {
            enabled: self.enabled,
            max_level: self.max_level,
            color: self.color,
            filters: table_of(self.filters@),
        }
    }
}

impl USBLogger {
    /// An inactive pipeline: it writes nothing until it is started.
    pub fn new() -> (logger: Self)
        ensures
            !logger@.enabled,
            logger@.max_level == Threshold::Off,
            logger@.color,
            logger@.filters.len() == 0,
    {
        USBLogger { enabled: false, max_level: Threshold::Off, color: true, filters: Vec::new() }
    }

    /// Starts the pipeline with the settings of `config`. This succeeds
    /// once: on an active pipeline it fails and changes nothing.
    pub fn init(&mut self, config: LoggingConfig) -> (started: Result<(), InitError>)
        ensures
            (final(self)@, started) == old(self)@.init(config),
    {
        if self.enabled {
            return Err(InitError::AlreadyActive);
        }
        self.enabled = true;
        self.max_level = config.max_level;
        self.color = config.color;
        self.filters = config.filters;
        Ok(())
    }

    /// Whether the pipeline is active.
    pub fn is_active(&self) -> (active: bool)
        ensures
            active == self@.enabled,
    {
        self.enabled
    }

    /// The least severe severity that is written at all.
    pub fn max_level(&self) -> (bound: Threshold)
        ensures
            bound == self@.max_level,
    {
        self.max_level
    }

    /// Whether the filter table lets a record through.
    pub fn filtered(&self, record: &LogRecord) -> (admitted: bool)
        ensures
            admitted == table_admits(self@.filters, record@.target, record@.severity),
    {
        if self.filters.len() == 0 {
            return true;
        }
        let ghost table = table_of(self.filters@);
        let mut i: usize = 0;
        while i < self.filters.len()
            invariant
                i <= self.filters@.len(),
                table == table_of(self.filters@),
                lookup_from(table, record@.target, 0) == lookup_from(
                    table,
                    record@.target,
                    i as int,
                ),
            decreases self.filters.len() - i,
        {
            if self.filters[i].0 == record.target {
                return match self.filters[i].1 {
                    None => true,
                    Some(bound) => bound.allows(record.severity),
                };
            }
            i += 1;
        }
        false
    }

    /// Whether a record is written.
    pub fn enabled(&self, record: &LogRecord) -> (yes: bool)
        ensures
            yes == self@.enabled_for(record@),
    {
        self.enabled && self.max_level.allows(record.severity) && self.filtered(record)
    }

    /// The line to write for a record, if the record is enabled. What
    /// becomes of the line once it is handed to the transport does not come
    /// back to the producer of the record.
    pub fn log(&self, record: &LogRecord) -> (line: Option<String>)
        ensures
            line.is_some() == self@.enabled_for(record@),
            match line {
                Some(text) => Some(text@),
                None => None,
            } == self@.output(record@),
    {
        if self.enabled(record) {
            Some(format_line(record, self.color))
        } else {
            None
        }
    }
}

/// With an empty filter table a record is enabled exactly where the
/// pipeline is active and the record is at least as severe as the maximum,
/// whatever its target.
pub proof fn empty_table_admits_every_target(logger: USBLoggerView, record: LogRecordView)
    requires
        logger.filters.len() == 0,
    ensures
        logger.enabled_for(record) == (logger.enabled && record.severity.rank()
            <= logger.max_level.rank()),
{
}

/// The order of severities: a bound lets through whatever a stricter bound
/// lets through, and whatever is more severe than something it lets through.
pub proof fn admits_is_monotone(
    strict: Threshold,
    loose: Threshold,
    severe: Severity,
    mild: Severity,
)
    requires
        strict.rank() <= loose.rank(),
        severe.rank() <= mild.rank(),
        strict.admits(mild),
    ensures
        loose.admits(mild),
        strict.admits(severe),
        loose.admits(severe),
{
}

/// Starting a pipeline twice: whatever the first attempt met, the pipeline
/// is active after it, the second attempt fails as already active, and it
/// leaves the state as the first attempt left it.
pub proof fn second_init_fails(logger: USBLoggerView, first: LoggingConfig, second: LoggingConfig)
    ensures
        logger.init(first).0.enabled,
        logger.init(first).0.init(second) == (
            logger.init(first).0,
            Err::<(), InitError>(InitError::AlreadyActive),
        ),
        !logger.enabled ==> logger.init(first).1 == Ok::<(), InitError>(()),
{
}

/// The filter table is searched by exact match, and the first match
/// decides: a lookup finds the bound of entry `i` exactly where entry `i`
/// has the target and no entry before it has.
pub proof fn lookup_finds_first_match(table: FilterTable, target: Seq<char>, i: int)
    requires
        0 <= i < table.len(),
        table[i].0 == target,
        forall|j: int| 0 <= j < i ==> (#[trigger] table[j]).0 != target,
    ensures
        lookup_from(table, target, 0) == Some(table[i].1),
{
    first_match_from(table, target, 0, i);
}

/// A target that no entry has is not found.
pub proof fn lookup_misses_absent_target(table: FilterTable, target: Seq<char>)
    requires
        forall|j: int| 0 <= j < table.len() ==> (#[trigger] table[j]).0 != target,
    ensures
        lookup_from(table, target, 0) == None::<Option<Threshold>>,
{
    absent_from(table, target, 0);
}

proof fn first_match_from(table: FilterTable, target: Seq<char>, from: int, i: int)
    requires
        0 <= from <= i < table.len(),
        table[i].0 == target,
        forall|j: int| from <= j < i ==> (#[trigger] table[j]).0 != target,
    ensures
        lookup_from(table, target, from) == Some(table[i].1),
    decreases i - from,
{
    if from < i {
        first_match_from(table, target, from + 1, i);
    }
}

proof fn absent_from(table: FilterTable, target: Seq<char>, from: int)
    requires
        0 <= from,
        forall|j: int| from <= j < table.len() ==> (#[trigger] table[j]).0 != target,
    ensures
        lookup_from(table, target, from) == None::<Option<Threshold>>,
    decreases table.len() - from,
{
    if from < table.len() {
        absent_from(table, target, from + 1);
    }
}

} // verus!
