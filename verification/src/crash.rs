//! The crash reporter: what happens when the process meets an unrecoverable
//! fault.
//!
//! The reporter is built once, at the very start of the process, and decides
//! whether the friendly fault handler is put in front of the one that was
//! registered before. On a fault the handler asks [`CrashReporter::react`]
//! what to do, does it, and reports back what came of it, until the answer is
//! to let the fault go on. No answer ever suppresses the fault.

use vstd::prelude::*;

verus! {

/// The environment variable whose mere presence keeps the low-level fault
/// diagnostics of the runtime untouched.
pub const DIAGNOSTICS_TOGGLE: &'static str = "RUST_BACKTRACE";

/// The message of the failure raised inside the handler when the friendly
/// message cannot be printed.
pub const DOUBLE_FAULT: &'static str = "human-panic: printing error message to console failed";

/// The parts of a crash report record that this crate sets.
#[derive(Clone, Copy, Debug, PartialEq, Eq)]
pub enum ReportPart {
    /// The tool's name.
    Name,
    /// The tool's version.
    Version,
    /// The list of the tool's authors.
    Authors,
    /// The address of the tool's website.
    Homepage,
}

/// Makes the record type of the crash report writer known. Nothing inside a
/// value of it can be seen from here.
#[verifier::external_type_specification]
#[verifier::external_body]
pub struct ExMetadata(human_panic::Metadata);

/// What a record of the crash report writer holds: the text of each part
/// that is set in it. A part that is not set has no entry.
pub uninterp spec fn report_parts(record: human_panic::Metadata) -> Map<ReportPart, Seq<char>>;

/// `human_panic::Metadata::new`: a record with the given name and version
/// set, and neither authors nor homepage.
#[verifier::external_body]
fn report_record(name: String, version: String) -> (record: human_panic::Metadata)
    ensures
        report_parts(record) == map![
            ReportPart::Name => name@,
            ReportPart::Version => version@,
        ],
{
    human_panic::Metadata::new(name, version)
}

/// `human_panic::Metadata::authors`: sets the authors to the given text,
/// unless the text is empty, which leaves the record as it was.
#[verifier::external_body]
fn with_authors(record: human_panic::Metadata, authors: String) -> (changed: human_panic::Metadata)
    ensures
        report_parts(changed) == (if authors@.len() == 0 {
            report_parts(record)
        } else {
            report_parts(record).insert(ReportPart::Authors, authors@)
        }),
{
    record.authors(authors)
}

/// `human_panic::Metadata::homepage`: sets the homepage to the given text,
/// unless the text is empty, which leaves the record as it was.
#[verifier::external_body]
fn with_homepage(record: human_panic::Metadata, homepage: String) -> (changed:
    human_panic::Metadata)
    ensures
        report_parts(changed) == (if homepage@.len() == 0 {
            report_parts(record)
        } else {
            report_parts(record).insert(ReportPart::Homepage, homepage@)
        }),
{
    record.homepage(homepage)
}

/// What a crash report says about the tool: fixed at startup, read-only after.
#[derive(Clone, Debug, PartialEq, Eq)]
pub struct PanicMetadata {
    name: String,
    version: String,
    authors: String,
    homepage: String,
}

/// The contents of a [`PanicMetadata`].
pub struct PanicMetadataView {
    pub name: Seq<char>,
    pub version: Seq<char>,
    pub authors: Seq<char>,
    pub homepage: Seq<char>,
}

impl PanicMetadataView {
    /// What a crash report shows of this metadata: always the name and the
    /// version, the authors and the homepage only where they are not empty.
    pub open spec fn shown(self) -> Map<ReportPart, Seq<char>> {
        let named = map![
            ReportPart::Name => self.name,
            ReportPart::Version => self.version,
        ];
        let authored = if self.authors.len() == 0 {
            named
        } else {
            named.insert(ReportPart::Authors, self.authors)
        };
        if self.homepage.len() == 0 {
            authored
        } else {
            authored.insert(ReportPart::Homepage, self.homepage)
        }
    }
}

impl View for PanicMetadata {
    type V = PanicMetadataView;

    closed spec fn view(&self) -> PanicMetadataView {
        PanicMetadataView {
            name: self.name@,
            version: self.version@,
            authors: self.authors@,
            homepage: self.homepage@,
        }
    }
}

impl PanicMetadata {
    /// The record made of the tool's name, version, author list and homepage.
    pub fn new(name: &str, version: &str, authors: &str, homepage: &str) -> (meta: PanicMetadata)
        ensures
            meta@ == (PanicMetadataView {
                name: name@,
                version: version@,
                authors: authors@,
                homepage: homepage@,
            }),
    {
        PanicMetadata {
            name: name.to_owned(),
            version: version.to_owned(),
            authors: authors.to_owned(),
            homepage: homepage.to_owned(),
        }
    }

    /// The tool's name.
    pub fn name(&self) -> (r: &str)
        ensures
            r@ == self@.name,
    {
        self.name.as_str()
    }

    /// The tool's version.
    pub fn version(&self) -> (r: &str)
        ensures
            r@ == self@.version,
    {
        self.version.as_str()
    }

    /// The tool's authors.
    pub fn authors(&self) -> (r: &str)
        ensures
            r@ == self@.authors,
    {
        self.authors.as_str()
    }

    /// The tool's homepage.
    pub fn homepage(&self) -> (r: &str)
        ensures
            r@ == self@.homepage,
    {
        self.homepage.as_str()
    }

    /// The same metadata as a record of the crash report writer, which takes
    /// no other form. An empty author list or homepage is left out of it.
    pub fn to_report(&self) -> (record: human_panic::Metadata)
        ensures
            report_parts(record) == self@.shown(),
    {
        let record = report_record(self.name.clone(), self.version.clone());
        let record = with_authors(record, self.authors.clone());
        with_homepage(record, self.homepage.clone())
    }
}

/// What the fault handler reports to the reporter.
#[derive(Clone, Debug, PartialEq, Eq)]
pub enum FaultEvent {
    /// An unrecoverable fault has just occurred.
    Fault,
    /// The handler that was registered before has run.
    PreviousRan,
    /// The crash dump was attempted: the path of the file, if one was written.
    DumpWritten(Option<String>),
    /// The friendly message was attempted: whether it reached the console.
    MessagePrinted(bool),
}

/// What the reporter tells the fault handler to do next.
#[derive(Clone, Debug, PartialEq, Eq)]
pub enum FaultAction {
    /// Run the handler that was registered before this one.
    RunPrevious,
    /// Write the crash dump file.
    WriteDump,
    /// Print the friendly message; it points at this dump file, if there is one.
    PrintMessage(Option<String>),
    /// Nothing is left to do: the fault goes on and ends the process abnormally.
    Resume,
    /// Fail inside the handler with this message.
    Abort(&'static str),
}

/// Whether the friendly handler is in place after an installation, given
/// whether it was before and the value of the diagnostics toggle, if set.
pub open spec fn installed_after(before: bool, toggle: Option<&str>) -> bool {
    before || toggle is None
}

/// Whether an installation has the caller register the friendly handler: only
/// the first one with the toggle unset does.
pub open spec fn registers(before: bool, toggle: Option<&str>) -> bool {
    !before && toggle is None
}

/// The answer to an event, given whether the friendly handler is in place.
pub open spec fn reaction(installed: bool, event: FaultEvent) -> FaultAction {
    match event {
        FaultEvent::Fault => FaultAction::RunPrevious,
        FaultEvent::PreviousRan => if installed {
            FaultAction::WriteDump
        } else {
            FaultAction::Resume
        },
        FaultEvent::DumpWritten(path) => if installed {
            FaultAction::PrintMessage(path)
        } else {
            FaultAction::Resume
        },
        FaultEvent::MessagePrinted(printed) => if installed && !printed {
            FaultAction::Abort(DOUBLE_FAULT)
        } else {
            FaultAction::Resume
        },
    }
}

/// The failure interception service of the process.
#[derive(Clone, Debug, PartialEq, Eq)]
pub struct CrashReporter {
    meta: PanicMetadata,
    installed: bool,
}

impl CrashReporter {
    /// The metadata that the reporter was built from.
    pub closed spec fn metadata(&self) -> PanicMetadata {
        self.meta
    }

    /// Whether the friendly handler is in place.
    pub closed spec fn installed(&self) -> bool {
        self.installed
    }

    /// A reporter that has not put any handler in place yet.
    pub fn new(meta: PanicMetadata) -> (reporter: CrashReporter)
        ensures
            reporter.metadata() == meta,
            !reporter.installed(),
    {
        CrashReporter { meta, installed: false }
    }

    /// The metadata of the tool.
    pub fn meta(&self) -> (meta: &PanicMetadata)
        ensures
            *meta == self.metadata(),
    {
        &self.meta
    }

    /// Whether the friendly handler is in place.
    pub fn is_installed(&self) -> (r: bool)
        ensures
            r == self.installed(),
    {
        self.installed
    }

    /// Puts the friendly handler in place unless the diagnostics toggle is
    /// set, to whatever value. `toggle` is the value of the variable if it is
    /// present. The result says whether the caller has to register the
    /// handler now: only the first installation with the toggle unset does.
    pub fn install(&mut self, toggle: Option<&str>) -> (register: bool)
        ensures
            final(self).metadata() == old(self).metadata(),
            final(self).installed() == installed_after(old(self).installed(), toggle),
            register == registers(old(self).installed(), toggle),
    {
        if toggle.is_none() && !self.installed {
            self.installed = true;
            true
        } else {
            false
        }
    }

    /// The next thing to do on a fault, given what has just happened. The
    /// handler that was registered before always runs first. With the
    /// friendly handler in place the dump is written next, then the message
    /// is printed with the path that the dump reported, and a message that
    /// cannot be printed is a failure of its own.
    pub fn react(&self, event: FaultEvent) -> (action: FaultAction)
        ensures
            action == reaction(self.installed(), event),
    {
        match event {
            FaultEvent::Fault => FaultAction::RunPrevious,
            FaultEvent::PreviousRan => if self.installed {
                FaultAction::WriteDump
            } else {
                FaultAction::Resume
            },
            FaultEvent::DumpWritten(path) => if self.installed {
                FaultAction::PrintMessage(path)
            } else {
                FaultAction::Resume
            },
            FaultEvent::MessagePrinted(printed) => if self.installed && !printed {
                FaultAction::Abort(DOUBLE_FAULT)
            } else {
                FaultAction::Resume
            },
        }
    }
}

/// What the handler reports after it has carried out an action, given what
/// came of the dump and of the message. After the last action it reports
/// nothing more.
pub open spec fn outcome(action: FaultAction, dump: Option<String>, printed: bool) -> Option<
    FaultEvent,
> {
    match action {
        FaultAction::RunPrevious => Some(FaultEvent::PreviousRan),
        FaultAction::WriteDump => Some(FaultEvent::DumpWritten(dump)),
        FaultAction::PrintMessage(_) => Some(FaultEvent::MessagePrinted(printed)),
        FaultAction::Resume => None,
        FaultAction::Abort(_) => None,
    }
}

/// Everything that happens on one fault, in order, given whether the friendly
/// handler is in place and what comes of the dump and of the message.
pub open spec fn course(installed: bool, dump: Option<String>, printed: bool) -> Seq<FaultAction> {
    if !installed {
        seq![FaultAction::RunPrevious, FaultAction::Resume]
    } else if printed {
        seq![
            FaultAction::RunPrevious,
            FaultAction::WriteDump,
            FaultAction::PrintMessage(dump),
            FaultAction::Resume,
        ]
    } else {
        seq![
            FaultAction::RunPrevious,
            FaultAction::WriteDump,
            FaultAction::PrintMessage(dump),
            FaultAction::Abort(DOUBLE_FAULT),
        ]
    }
}

/// A handler that does what the reporter answers, and reports back what came
/// of it, takes exactly the course above and then stops: the course begins
/// with the answer to the fault, each further action is the answer to the
/// outcome of the one before, and the last action has no outcome.
pub proof fn lemma_course_follows_the_answers(installed: bool, dump: Option<String>, printed: bool)
    ensures
        course(installed, dump, printed).len() >= 2,
        course(installed, dump, printed)[0] == reaction(installed, FaultEvent::Fault),
        forall|i: int|
            #![trigger course(installed, dump, printed)[i]]
            0 <= i < course(installed, dump, printed).len() - 1 ==> {
                let done = outcome(course(installed, dump, printed)[i], dump, printed);
                &&& done is Some
                &&& course(installed, dump, printed)[i + 1] == reaction(installed, done->0)
            },
        outcome(course(installed, dump, printed).last(), dump, printed) is None,
{
}

/// With the diagnostics toggle set, to any value, installing changes nothing
/// and registers nothing: a reporter without the friendly handler stays
/// without it, and on a fault the handler that was registered before is the
/// only one that runs.
pub proof fn lemma_toggle_set_keeps_previous_handler(
    before: bool,
    value: &str,
    dump: Option<String>,
    printed: bool,
)
    ensures
        installed_after(before, Some(value)) == before,
        !registers(before, Some(value)),
        course(installed_after(false, Some(value)), dump, printed) == seq![
            FaultAction::RunPrevious,
            FaultAction::Resume,
        ],
{
}

/// With the diagnostics toggle unset, the friendly handler is in place after
/// the installation, and a fault runs the handler that was registered
/// before, then writes the dump, then prints the message with the very path
/// that the dump reported, and then goes on.
pub proof fn lemma_toggle_unset_reports_fault(before: bool, dump: Option<String>)
    ensures
        installed_after(before, None),
        registers(before, None) == !before,
        course(installed_after(before, None), dump, true) == seq![
            FaultAction::RunPrevious,
            FaultAction::WriteDump,
            FaultAction::PrintMessage(dump),
            FaultAction::Resume,
        ],
{
}

/// The friendly handler is registered at most once in the life of a reporter,
/// and once in place it stays: whatever the toggle is at a later
/// installation, nothing is registered again and nothing is taken away.
pub proof fn lemma_handler_is_registered_at_most_once(
    before: bool,
    first: Option<&str>,
    second: Option<&str>,
)
    ensures
        registers(before, first) ==> !registers(installed_after(before, first), second),
        installed_after(before, first) ==> installed_after(installed_after(before, first), second),
        before ==> !registers(before, first),
{
}

/// No fault is ever put to rest, and no failure inside the friendly handler
/// passes in silence: every course ends by letting the fault go on or by
/// failing with [`DOUBLE_FAULT`], a dump that could not be written still gets
/// its message, and a message that could not be printed is that failure.
pub proof fn lemma_fault_always_surfaces(installed: bool, dump: Option<String>, printed: bool)
    ensures
        course(installed, dump, printed).last() == FaultAction::Resume || course(
            installed,
            dump,
            printed,
        ).last() == FaultAction::Abort(DOUBLE_FAULT),
        course(true, None, printed)[2] == FaultAction::PrintMessage(None),
        course(true, dump, false).last() == FaultAction::Abort(DOUBLE_FAULT),
{
}

} // verus!
