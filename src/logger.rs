use vstd::prelude::*;
use crate::text::{decimal_two_digits, two_digits};

verus! {

/// How serious a log line is.
#[derive(Clone, Copy, PartialEq, Eq, Structural, Debug)]
pub enum LogKind {
    Info,
    Warn,
    Error,
}

/// How long a desktop notification stays up.
#[derive(Clone, Copy, PartialEq, Eq, Structural, Debug)]
pub enum Duration {
    Short,
    Long,
}

/// A log line: its text, its kind and the seconds since the logger began.
#[derive(Clone, Debug)]
pub struct LogData(pub String, pub LogKind, pub u64);

/// A pending notification: its text and how long it stays up.
#[derive(Clone, Debug)]
pub struct NotificationData(pub String, pub Duration);

impl View for LogData {
    type V = (Seq<char>, LogKind, u64);

    open spec fn view(&self) -> (Seq<char>, LogKind, u64) {
        (self.0@, self.1, self.2)
    }
}

impl View for NotificationData {
    type V = (Seq<char>, Duration);

    open spec fn view(&self) -> (Seq<char>, Duration) {
        (self.0@, self.1)
    }
}

/// The view of a pending notification, if there is one.
pub open spec fn notification_view(n: Option<NotificationData>) -> Option<(Seq<char>, Duration)> {
    match n {
        Some(d) => Some(d@),
        None => None,
    }
}

/// The buffer of status lines shown on screen, with at most one notification
/// waiting to be delivered.
pub struct Logger {
    logs: Vec<LogData>,
    notification: Option<NotificationData>,
}

impl Logger {
    /// The log lines, oldest first.
    pub closed spec fn logs(&self) -> Seq<(Seq<char>, LogKind, u64)> {
        self.logs@.map_values(|d: LogData| d@)
    }

    /// The notification waiting to be delivered.
    pub closed spec fn notification(&self) -> Option<(Seq<char>, Duration)> {
        notification_view(self.notification)
    }

    /// An empty logger.
    pub fn new() -> (l: Logger)
        ensures
            l.logs() == Seq::<(Seq<char>, LogKind, u64)>::empty(),
            l.notification() is None,
    {
        let l = Logger { logs: Vec::new(), notification: None };
        assert(l.logs() =~= Seq::<(Seq<char>, LogKind, u64)>::empty());
        l
    }

    /// Appends a line, stamped with `elapsed_secs`.
    pub fn log(&mut self, text: String, kind: LogKind, elapsed_secs: u64)
        ensures
            final(self).logs() == old(self).logs().push((text@, kind, elapsed_secs)),
            final(self).notification() == old(self).notification(),
    {
        let ghost text_view = text@;
        self.logs.push(LogData(text, kind, elapsed_secs));
        assert(self.logs() =~= old(self).logs().push((text_view, kind, elapsed_secs)));
    }

    /// Sets the waiting notification, replacing any earlier one, and logs its
    /// text as an information line.
    pub fn notify(&mut self, text: String, duration: Duration, elapsed_secs: u64)
        ensures
            final(self).notification() == Some((text@, duration)),
            final(self).logs() == old(self).logs().push((text@, LogKind::Info, elapsed_secs)),
    {
        self.notification = Some(NotificationData(text.clone(), duration));
        self.log(text, LogKind::Info, elapsed_secs);
    }

    /// The latest line, if any.
    pub fn last(&self) -> (r: Option<LogData>)
        ensures
            self.logs().len() == 0 ==> r is None,
            self.logs().len() > 0 ==> r is Some && r->Some_0@ == self.logs().last(),
    {
        let n = self.logs.len();
        if n == 0 {
            None
        } else {
            let d = &self.logs[n - 1];
            Some(LogData(d.0.clone(), d.1, d.2))
        }
    }

    /// Hands out the waiting notification and clears it.
    pub fn consume_notification(&mut self) -> (r: Option<NotificationData>)
        ensures
            notification_view(r) == old(self).notification(),
            final(self).notification() is None,
            final(self).logs() == old(self).logs(),
    {
        self.notification.take()
    }
}

/// A log line as the status bar shows it: ` [hh:mm:ss] text`, each field at
/// least two digits wide (the hours are not wrapped).
pub open spec fn status_text(text: Seq<char>, secs: u64) -> Seq<char> {
    " ["@ + two_digits(secs as nat / 3600) + ":"@ + two_digits((secs as nat / 60) % 60) + ":"@
        + two_digits(secs as nat % 60) + "] "@ + text
}

impl LogData {
    /// This line as the status bar shows it.
    pub fn status_line(&self) -> (r: String)
        ensures
            r@ == status_text(self.0@, self.2),
    {
        let secs = self.2;
        let mut r = String::from_str(" [").concat(decimal_two_digits(secs / 3600).as_str());
        r.append(":");
        r.append(decimal_two_digits((secs / 60) % 60).as_str());
        r.append(":");
        r.append(decimal_two_digits(secs % 60).as_str());
        r.append("] ");
        r.append(self.0.as_str());
        r
    }
}

impl Logger {
    /// The status bar's text and kind: the latest line, or an empty
    /// information line when there is none.
    pub fn status(&self) -> (r: (String, LogKind))
        ensures
            self.logs().len() == 0 ==> r.0@ == ""@ && r.1 == LogKind::Info,
            self.logs().len() > 0 ==> r.0@ == status_text(self.logs().last().0, self.logs().last().2)
                && r.1 == self.logs().last().1,
    {
        match self.last() {
            Some(d) => (d.status_line(), d.1),
            None => (String::from_str(""), LogKind::Info),
        }
    }
}

} // verus!
