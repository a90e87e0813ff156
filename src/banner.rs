use vstd::prelude::*;

verus! {

/// Severity of a startup log line.
#[derive(Debug, Clone, Copy, PartialEq, Eq, Structural)]
pub enum LogLevel {
    /// Informational.
    Info,
    /// A warning.
    Warn,
}

/// One line to be logged at startup.
pub struct LogLine {
    /// Its severity.
    pub level: LogLevel,
    /// Its text.
    pub text: String,
}

/// The lines logged when the bots start, in order: the application name,
/// its version, its support tag and its identifier, then the pre-release warning.
pub open spec fn banner_of(app_id: Seq<char>) -> Seq<(LogLevel, Seq<char>)> {
    seq![
        (LogLevel::Info, "Application: MONITOR"@),
        (LogLevel::Info, "Version: v0.1.0"@),
        (LogLevel::Info, "Support: AUTOMAN-0.0.1"@),
        (LogLevel::Info, "Application ID: "@ + app_id),
        (LogLevel::Warn, "---"@),
        (LogLevel::Warn, "PLEASE NOTE THAT THIS IS A VERY EARLY PRE-RELEASE VERSION OF THE PROGRAM."@),
        (LogLevel::Warn, "ALMOST EVERYTHING IN THIS APPLICATION IS SUBJECT TO CHANGE IN THE FUTURE."@),
        (LogLevel::Warn, "---"@),
    ]
}

fn line(level: LogLevel, text: &str) -> (r: LogLine)
    ensures
        r.level == level,
        r.text@ == text@,
{
    LogLine { level, text: String::from_str(text) }
}

/// The startup lines for the application with identifier `app_id`.
pub fn startup_banner(app_id: &str) -> (r: Vec<LogLine>)
    ensures
        r@.len() == banner_of(app_id@).len(),
        forall|i: int|
            0 <= i < r@.len() ==> (#[trigger] r@[i]).level == banner_of(app_id@)[i].0
                && r@[i].text@ == banner_of(app_id@)[i].1,
{
    let mut id_line = String::from_str("Application ID: ");
    id_line.append(app_id);
    let mut lines: Vec<LogLine> = Vec::new();
    lines.push(line(LogLevel::Info, "Application: MONITOR"));
    lines.push(line(LogLevel::Info, "Version: v0.1.0"));
    lines.push(line(LogLevel::Info, "Support: AUTOMAN-0.0.1"));
    lines.push(LogLine { level: LogLevel::Info, text: id_line });
    lines.push(line(LogLevel::Warn, "---"));
    lines.push(
        line(
            LogLevel::Warn,
            "PLEASE NOTE THAT THIS IS A VERY EARLY PRE-RELEASE VERSION OF THE PROGRAM.",
        ),
    );
    lines.push(
        line(
            LogLevel::Warn,
            "ALMOST EVERYTHING IN THIS APPLICATION IS SUBJECT TO CHANGE IN THE FUTURE.",
        ),
    );
    lines.push(line(LogLevel::Warn, "---"));
    lines
}

} // verus!
