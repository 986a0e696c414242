use crate::adb::{AdbError, AdbErrorKind, AdbWrapper};
use crate::entry::{LogCatEntry, DEFAULT_TAG};
use vstd::prelude::*;

verus! {

/// What the caller saw when it tried to read one line of input.
pub enum InputEvent {
    /// A line, with its line terminator as read.
    Line(String),
    /// The input stream is closed.
    EndOfInput,
    /// The read failed, with the reason.
    ReadFailed(String),
}

/// What the caller is to do next.
pub enum Step {
    /// Inject this entry into the device log, then read on.
    Inject(LogCatEntry),
    /// Report this error, then read on.
    Report(AdbError),
    /// End the session normally.
    Exit,
}

/// The lines that end an interactive session, compared with the terminator.
pub open spec fn is_stop_line(line: Seq<char>) -> bool {
    line == "exit\n\r"@ || line == "quit\n\r"@
}

/// Whether the line, as read, ends the session.
pub fn stop_requested(line: &String) -> (r: bool)
    ensures
        r == is_stop_line(line@),
{
    *line == "exit\n\r".to_owned() || *line == "quit\n\r".to_owned()
}

/// An injection session: one device and one tag, fixed once resolved.
pub struct Session {
    device: AdbWrapper,
    tag: String,
}

impl Session {
    pub closed spec fn spec_device(&self) -> Seq<char> {
        self.device@
    }

    pub closed spec fn spec_tag(&self) -> Seq<char> {
        self.tag@
    }

    /// A session on `device` that tags its entries with `tag`, or with the
    /// default tag when none is given.
    pub fn new(device: AdbWrapper, tag: Option<&str>) -> (r: Session)
        ensures
            r.spec_device() == device@,
            tag is Some ==> r.spec_tag() == tag->Some_0@,
            tag is None ==> r.spec_tag() == DEFAULT_TAG@,
    {
        let tag = match tag {
            Some(t) => t.to_owned(),
            None => DEFAULT_TAG.to_owned(),
        };
        Session { device, tag }
    }

    pub fn device(&self) -> (r: &AdbWrapper)
        ensures
            r@ == self.spec_device(),
    {
        &self.device
    }

    pub fn tag(&self) -> (r: &String)
        ensures
            r@ == self.spec_tag(),
    {
        &self.tag
    }

    /// The single entry that one-shot mode injects: the session's tag and
    /// the message exactly as given.
    pub fn one_shot(&self, message: &str) -> (r: LogCatEntry)
        ensures
            r.tag() == self.spec_tag(),
            r.msg() == message@,
    {
        LogCatEntry::new(self.tag.as_str(), message)
    }

    /// The next step of an interactive session after one read of input. A
    /// stop line and the end of input end the session; a failed read is
    /// reported and reading goes on; every other line, terminator included,
    /// becomes one entry with the session's tag.
    pub fn on_input(&self, event: InputEvent) -> (r: Step)
        ensures
            event is EndOfInput ==> r is Exit,
            event matches InputEvent::Line(l) ==> (is_stop_line(l@) ==> r is Exit),
            event matches InputEvent::Line(l) ==> (!is_stop_line(l@) ==> (r matches Step::Inject(e)
                && e.tag() == self.spec_tag() && e.msg() == l@)),
            event matches InputEvent::ReadFailed(m) ==> (r matches Step::Report(e) && e.spec_kind()
                == AdbErrorKind::StdinReadError && e.spec_message() == m@),
    {
        match event {
            InputEvent::Line(line) => {
                if stop_requested(&line) {
                    Step::Exit
                } else {
                    Step::Inject(LogCatEntry::new(self.tag.as_str(), line.as_str()))
                }
            },
            InputEvent::EndOfInput => Step::Exit,
            InputEvent::ReadFailed(reason) => Step::Report(
                AdbError::new(AdbErrorKind::StdinReadError, reason.as_str()),
            ),
        }
    }
}

} // verus!
