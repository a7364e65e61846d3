//! The decisions of one run: from a key file's first line and a PIN to a QR
//! code written to a file or shown on the terminal. The outside work (reading
//! the file, decoding the key, drawing the code) is done by the caller, who
//! reports each outcome as an `Event` and performs each `Action`.
use vstd::prelude::*;
use crate::pin::QRPin;

verus! {

/// `std::path::PathBuf`, carried through as an opaque value: the run only
/// holds the input and output paths for the caller.
#[verifier::external_type_specification]
#[verifier::external_body]
pub struct ExPathBuf(std::path::PathBuf);

/// Unicode white space, as `char::is_whitespace` has it.
pub open spec fn is_white_space(c: char) -> bool {
    let u = c as u32;
    ||| 0x09 <= u <= 0x0D
    ||| u == 0x20
    ||| u == 0x85
    ||| u == 0xA0
    ||| u == 0x1680
    ||| 0x2000 <= u <= 0x200A
    ||| u == 0x2028
    ||| u == 0x2029
    ||| u == 0x202F
    ||| u == 0x205F
    ||| u == 0x3000
}

/// `s` without its trailing white space.
pub open spec fn trim_end(s: Seq<char>) -> Seq<char>
    decreases s.len(),
{
    if s.len() > 0 && is_white_space(s.last()) {
        trim_end(s.drop_last())
    } else {
        s
    }
}

fn white_space(c: char) -> (r: bool)
    ensures
        r == is_white_space(c),
{
    let u: u32 = c as u32;
    (0x09 <= u && u <= 0x0D) || u == 0x20 || u == 0x85 || u == 0xA0 || u == 0x1680 || (0x2000
        <= u && u <= 0x200A) || u == 0x2028 || u == 0x2029 || u == 0x202F || u == 0x205F || u
        == 0x3000
}

/// The key text of a key file's first line: the line without its trailing
/// white space, the line terminator among it.
pub fn key_text(line: &str) -> (r: String)
    ensures
        r@ == trim_end(line@),
{
    let mut n: usize = line.unicode_len();
    assert(line@.subrange(0, n as int) =~= line@);
    loop
        invariant
            n <= line@.len(),
            trim_end(line@) == trim_end(line@.subrange(0, n as int)),
        ensures
            n <= line@.len(),
            trim_end(line@) == line@.subrange(0, n as int),
        decreases n,
    {
        if n == 0 {
            assert(trim_end(line@.subrange(0, 0)) == line@.subrange(0, 0));
            break;
        }
        if !white_space(line.get_char(n - 1)) {
            assert(line@.subrange(0, n as int).last() == line@[n - 1]);
            assert(trim_end(line@.subrange(0, n as int)) == line@.subrange(0, n as int));
            break;
        }
        proof {
            assert(line@.subrange(0, n as int).drop_last() =~= line@.subrange(0, n - 1));
        }
        n = n - 1;
    }
    let kept = line.substring_char(0, n);
    kept.to_owned()
}

/// Why a run failed.
#[derive(Debug, PartialEq, Eq, Structural)]
pub enum AppError {
    /// The input file could not be opened or read.
    InputUnreadable,
    /// The key text is no bech32 extended Ed25519 secret key.
    MalformedKey,
    /// The QR code could not be written to the output path.
    OutputUnwritable,
}

impl AppError {
    /// The message shown to the user.
    pub fn message(&self) -> (r: String)
        ensures
            r@ == self.text(),
    {
        match self {
            AppError::InputUnreadable => String::from_str("Could not open input file."),
            AppError::MalformedKey => String::from_str("Malformed secret key."),
            AppError::OutputUnwritable => String::from_str("Could not write output file."),
        }
    }

    pub open spec fn text(&self) -> Seq<char> {
        match self {
            AppError::InputUnreadable => "Could not open input file."@,
            AppError::MalformedKey => "Malformed secret key."@,
            AppError::OutputUnwritable => "Could not write output file."@,
        }
    }
}

/// Where a run stands. A run starts by reading the first line of the input.
#[derive(Debug, PartialEq, Eq, Structural)]
pub enum Stage {
    Start,
    InputRead,
    KeyDecoded,
    PayloadComposed,
    OutputDispatched,
    Failed,
}

/// The outcome of the last action, as the caller saw it.
pub enum Event {
    /// The first line of the input file, as read.
    LineRead(String),
    /// The input file could not be opened or read.
    ReadFailed,
    /// The key text decoded to an extended Ed25519 secret key.
    KeyAccepted,
    /// The key text did not decode.
    KeyRejected,
    /// The QR code was made from the key and the PIN digits.
    QrGenerated,
    /// The QR code was written or shown.
    OutputDone,
    /// Writing the QR code failed.
    OutputFailed,
}

/// What the caller is to do next.
#[derive(Debug)]
pub enum Action {
    /// Decode this text as a bech32 extended Ed25519 secret key.
    DecodeKey(String),
    /// Make the QR code from the decoded key and these PIN digits.
    GenerateQr([u8; 4]),
    /// Write the QR code as SVG to the output path.
    WriteSvg,
    /// Show the QR code on the terminal.
    RenderTerminal,
    /// The run is over, with this result.
    Finish(Result<(), AppError>),
    /// The event does not fit the stage: nothing to do.
    Ignore,
}

/// The QR code tool's arguments: the key file, where to put the code, the PIN.
pub struct QRcodeApp {
    input: std::path::PathBuf,
    output: Option<std::path::PathBuf>,
    pin: QRPin,
}

impl QRcodeApp {
    pub closed spec fn spec_pin(&self) -> QRPin {
        self.pin
    }

    pub closed spec fn spec_input(&self) -> std::path::PathBuf {
        self.input
    }

    pub closed spec fn spec_output(&self) -> Option<std::path::PathBuf> {
        self.output
    }

    pub open spec fn has_output(&self) -> bool {
        self.spec_output() is Some
    }

    pub fn new(input: std::path::PathBuf, output: Option<std::path::PathBuf>, pin: QRPin) -> (r:
        QRcodeApp)
        ensures
            r.spec_input() == input,
            r.spec_output() == output,
            r.spec_pin() == pin,
    {
        QRcodeApp { input, output, pin }
    }

    /// The path of the file that holds the key.
    pub fn input(&self) -> (r: &std::path::PathBuf)
        ensures
            *r == self.spec_input(),
    {
        &self.input
    }

    /// Where the QR code goes; `None` for the terminal.
    pub fn output(&self) -> (r: &Option<std::path::PathBuf>)
        ensures
            *r == self.spec_output(),
    {
        &self.output
    }

    /// The PIN that protects the key.
    pub fn pin(&self) -> (r: &QRPin)
        ensures
            *r == self.spec_pin(),
    {
        &self.pin
    }

    /// The stage that `event` leads to from `stage`, and the action it asks for.
    pub open spec fn transition(&self, stage: Stage, event: Event, next: Stage, action: Action)
        -> bool {
        match (stage, event) {
            (Stage::Start, Event::LineRead(line)) => {
                &&& next == Stage::InputRead
                &&& action matches Action::DecodeKey(k)
                &&& k@ == trim_end(line@)
            },
            (Stage::Start, Event::ReadFailed) => {
                &&& next == Stage::Failed
                &&& action == Action::Finish(Err(AppError::InputUnreadable))
            },
            (Stage::InputRead, Event::KeyAccepted) => {
                &&& next == Stage::KeyDecoded
                &&& action matches Action::GenerateQr(d)
                &&& d@ == self.spec_pin().digits()
            },
            (Stage::InputRead, Event::KeyRejected) => {
                &&& next == Stage::Failed
                &&& action == Action::Finish(Err(AppError::MalformedKey))
            },
            (Stage::KeyDecoded, Event::QrGenerated) => {
                &&& next == Stage::PayloadComposed
                &&& action == if self.has_output() {
                    Action::WriteSvg
                } else {
                    Action::RenderTerminal
                }
            },
            (Stage::PayloadComposed, Event::OutputDone) => {
                &&& next == Stage::OutputDispatched
                &&& action == Action::Finish(Ok(()))
            },
            (Stage::PayloadComposed, Event::OutputFailed) => {
                &&& next == Stage::Failed
                &&& action == Action::Finish(Err(AppError::OutputUnwritable))
            },
            (s, _) => next == s && action == Action::Ignore,
        }
    }

    /// Takes the run one step: from where it stands and what just happened, to
    /// where it goes and what to do.
    pub fn step(&self, stage: Stage, event: Event) -> (r: (Stage, Action))
        ensures
            self.transition(stage, event, r.0, r.1),
    {
        match (stage, event) {
            (Stage::Start, Event::LineRead(line)) => {
                (Stage::InputRead, Action::DecodeKey(key_text(line.as_str())))
            },
            (Stage::Start, Event::ReadFailed) => {
                (Stage::Failed, Action::Finish(Err(AppError::InputUnreadable)))
            },
            (Stage::InputRead, Event::KeyAccepted) => {
                (Stage::KeyDecoded, Action::GenerateQr(self.pin.password_bytes()))
            },
            (Stage::InputRead, Event::KeyRejected) => {
                (Stage::Failed, Action::Finish(Err(AppError::MalformedKey)))
            },
            (Stage::KeyDecoded, Event::QrGenerated) => {
                if self.output.is_some() {
                    (Stage::PayloadComposed, Action::WriteSvg)
                } else {
                    (Stage::PayloadComposed, Action::RenderTerminal)
                }
            },
            (Stage::PayloadComposed, Event::OutputDone) => {
                (Stage::OutputDispatched, Action::Finish(Ok(())))
            },
            (Stage::PayloadComposed, Event::OutputFailed) => {
                (Stage::Failed, Action::Finish(Err(AppError::OutputUnwritable)))
            },
            (s, _) => (s, Action::Ignore),
        }
    }
}

/// Once a run has failed or dispatched its output, no event moves it or asks
/// for more work.
pub proof fn lemma_final_stages_stay(
    app: QRcodeApp,
    stage: Stage,
    event: Event,
    next: Stage,
    action: Action,
)
    requires
        stage == Stage::Failed || stage == Stage::OutputDispatched,
        app.transition(stage, event, next, action),
    ensures
        next == stage,
        action == Action::Ignore,
{
}

/// A run in which the file is read, the key decodes, the code is made and the
/// output succeeds passes through every stage in order and finishes with `Ok`.
pub proof fn lemma_successful_run(
    app: QRcodeApp,
    line: String,
    s1: Stage,
    a1: Action,
    s2: Stage,
    a2: Action,
    s3: Stage,
    a3: Action,
    s4: Stage,
    a4: Action,
)
    requires
        app.transition(Stage::Start, Event::LineRead(line), s1, a1),
        app.transition(s1, Event::KeyAccepted, s2, a2),
        app.transition(s2, Event::QrGenerated, s3, a3),
        app.transition(s3, Event::OutputDone, s4, a4),
    ensures
        s1 == Stage::InputRead,
        s2 == Stage::KeyDecoded,
        s3 == Stage::PayloadComposed,
        s4 == Stage::OutputDispatched,
        a4 == Action::Finish(Ok(())),
{
}

} // verus!
