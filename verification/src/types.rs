//! The small value types of a profile.
use crate::strings::same_text;
use vstd::prelude::*;

verus! {

/// A kind of test to collect coverage for.
#[derive(Clone, Copy, Debug, PartialEq, Eq, Structural)]
pub enum RunType {
    Tests,
    Doctests,
    Benchmarks,
    Examples,
}

/// A report format to write.
#[derive(Clone, Copy, Debug, PartialEq, Eq, Structural)]
pub enum OutputFile {
    Json,
    Toml,
    Stdout,
    Xml,
    Html,
    Lcov,
}

/// A continuous-integration service.
#[derive(Clone, Debug, PartialEq, Eq)]
pub enum CiService {
    Travis,
    TravisPro,
    Circle,
    Semaphore,
    Jenkins,
    Codeship,
    /// A service known only by its name.
    Other(String),
}

/// The mathematical value of a [`CiService`].
pub enum CiName {
    Travis,
    TravisPro,
    Circle,
    Semaphore,
    Jenkins,
    Codeship,
    Other(Seq<char>),
}

impl View for CiService {
    type V = CiName;

    open spec fn view(&self) -> CiName {
        match self {
            CiService::Travis => CiName::Travis,
            CiService::TravisPro => CiName::TravisPro,
            CiService::Circle => CiName::Circle,
            CiService::Semaphore => CiName::Semaphore,
            CiService::Jenkins => CiName::Jenkins,
            CiService::Codeship => CiName::Codeship,
            CiService::Other(name) => CiName::Other(name@),
        }
    }
}

/// A length of time: whole seconds and the nanoseconds beyond them.
#[derive(Clone, Copy, Debug, PartialEq, Eq, Structural)]
pub struct Timeout {
    pub secs: u64,
    pub nanos: u32,
}

/// The most decimal digits that the text of a timeout may hold.
pub const MAX_TIMEOUT_DIGITS: usize = 11;

/// Whether `c` is one of the ten decimal digits.
pub open spec fn is_digit(c: char) -> bool {
    '0' <= c && c <= '9'
}

/// The number of decimal digits in `text`.
pub open spec fn digit_count(text: Seq<char>) -> nat
    decreases text.len(),
{
    if text.len() == 0 {
        0
    } else if is_digit(text.last()) {
        digit_count(text.drop_last()) + 1
    } else {
        digit_count(text.drop_last())
    }
}

/// Whether `text` is short enough in digits to be read as a timeout.
pub open spec fn timeout_is_bounded(text: Seq<char>) -> bool {
    digit_count(text) <= MAX_TIMEOUT_DIGITS
}

/// A part of a text has no more digits than the whole.
pub proof fn lemma_digit_count_grows(text: Seq<char>, upto: int)
    requires
        0 <= upto <= text.len(),
    ensures
        digit_count(text.take(upto)) <= digit_count(text),
    decreases text.len() - upto,
{
    if upto < text.len() {
        assert(text.take(upto + 1).drop_last() =~= text.take(upto));
        lemma_digit_count_grows(text, upto + 1);
    } else {
        assert(text.take(upto) =~= text);
    }
}

/// Whether `text` is short enough in digits to be read as a timeout.
pub fn timeout_text_is_bounded(text: &str) -> (bounded: bool)
    ensures
        bounded == timeout_is_bounded(text@),
{
    let mut digits: usize = 0;
    assert(text@.take(0) =~= Seq::<char>::empty());
    for c in it: text.chars()
        invariant
            it.seq() == text@,
            digits == digit_count(text@.take(it.index())),
            digits <= MAX_TIMEOUT_DIGITS,
    {
        assert(text@.take(it.index() + 1).drop_last() =~= text@.take(it.index()));
        assert(text@.take(it.index() + 1).last() == c);
        if '0' <= c && c <= '9' {
            if digits == MAX_TIMEOUT_DIGITS {
                proof {
                    lemma_digit_count_grows(text@, it.index() + 1);
                }
                return false;
            }
            digits = digits + 1;
        }
    }
    assert(text@.take(text@.len() as int) =~= text@);
    true
}

/// The length of time that `humantime_serde::deserialize` reads from the
/// string `text`, or `None` where it reads none.
pub uninterp spec fn humantime_duration(text: Seq<char>) -> Option<Timeout>;

/// Calls `humantime_serde::deserialize` for a `std::time::Duration` on the
/// string `text`, handed over as a `toml::Value`, and hands out the seconds
/// and nanoseconds of the result. An error is handed out as `None`. The
/// contract gives the result the name [`humantime_duration`]; it says nothing
/// of how a length of time is written.
///
/// The text may hold eleven digits at most. The call sums the seconds of
/// the parts of the text and fails where a checked sum or product runs over,
/// but where the sum of the seconds is the largest 64-bit number it may
/// still carry one second more from the nanoseconds, and does not return.
/// With eleven digits the numbers of all parts together stay below ten to
/// the eleventh; the largest unit, the year, has 31 557 600 seconds, and a
/// fraction adds less than one unit for each part. So the seconds stay
/// below four times ten to the eighteenth, far from that number.
#[verifier::external_body]
pub(crate) fn parse_timeout(text: &str) -> (timeout: Option<Timeout>)
    requires
        timeout_is_bounded(text@),
    ensures
        timeout == humantime_duration(text@),
{
    let read: Result<std::time::Duration, toml::de::Error> = humantime_serde::deserialize(
        toml::Value::String(text.to_string()),
    );
    read.ok().map(|d| Timeout { secs: d.as_secs(), nanos: d.subsec_nanos() })
}

/// The length of time that `text` stands for: what the reader of timeouts
/// makes of it where it is short enough in digits, else none.
pub open spec fn timeout_of(text: Seq<char>) -> Option<Timeout> {
    if timeout_is_bounded(text) {
        humantime_duration(text)
    } else {
        None
    }
}

impl Timeout {
    /// The length of time that `text` stands for, if it stands for one. A
    /// text with more than eleven digits stands for none.
    pub fn from_text(text: &str) -> (timeout: Option<Timeout>)
        ensures
            timeout == timeout_of(text@),
    {
        if timeout_text_is_bounded(text) {
            parse_timeout(text)
        } else {
            None
        }
    }
}

/// The run type that the name `name` stands for, if any.
pub open spec fn run_type_named(name: Seq<char>) -> Option<RunType> {
    if name == "Tests"@ {
        Some(RunType::Tests)
    } else if name == "Doctests"@ {
        Some(RunType::Doctests)
    } else if name == "Benchmarks"@ {
        Some(RunType::Benchmarks)
    } else if name == "Examples"@ {
        Some(RunType::Examples)
    } else {
        None
    }
}

/// The report format that the name `name` stands for, if any.
pub open spec fn output_file_named(name: Seq<char>) -> Option<OutputFile> {
    if name == "Json"@ {
        Some(OutputFile::Json)
    } else if name == "Toml"@ {
        Some(OutputFile::Toml)
    } else if name == "Stdout"@ {
        Some(OutputFile::Stdout)
    } else if name == "Xml"@ {
        Some(OutputFile::Xml)
    } else if name == "Html"@ {
        Some(OutputFile::Html)
    } else if name == "Lcov"@ {
        Some(OutputFile::Lcov)
    } else {
        None
    }
}

/// The service that the name `name` stands for. Every name stands for one.
pub open spec fn ci_named(name: Seq<char>) -> CiName {
    if name == "travis-ci"@ {
        CiName::Travis
    } else if name == "travis-pro"@ {
        CiName::TravisPro
    } else if name == "circle-ci"@ {
        CiName::Circle
    } else if name == "semaphore"@ {
        CiName::Semaphore
    } else if name == "jenkins"@ {
        CiName::Jenkins
    } else if name == "codeship"@ {
        CiName::Codeship
    } else {
        CiName::Other(name)
    }
}

impl RunType {
    /// The run type with the name `name`.
    pub fn from_name(name: &str) -> (kind: Option<RunType>)
        ensures
            kind == run_type_named(name@),
    {
        if same_text(name, "Tests") {
            Some(RunType::Tests)
        } else if same_text(name, "Doctests") {
            Some(RunType::Doctests)
        } else if same_text(name, "Benchmarks") {
            Some(RunType::Benchmarks)
        } else if same_text(name, "Examples") {
            Some(RunType::Examples)
        } else {
            None
        }
    }
}

impl OutputFile {
    /// The report format with the name `name`.
    pub fn from_name(name: &str) -> (format: Option<OutputFile>)
        ensures
            format == output_file_named(name@),
    {
        if same_text(name, "Json") {
            Some(OutputFile::Json)
        } else if same_text(name, "Toml") {
            Some(OutputFile::Toml)
        } else if same_text(name, "Stdout") {
            Some(OutputFile::Stdout)
        } else if same_text(name, "Xml") {
            Some(OutputFile::Xml)
        } else if same_text(name, "Html") {
            Some(OutputFile::Html)
        } else if same_text(name, "Lcov") {
            Some(OutputFile::Lcov)
        } else {
            None
        }
    }
}

impl CiService {
    /// The service with the name `name`.
    pub fn from_name(name: &str) -> (service: CiService)
        ensures
            service@ == ci_named(name@),
    {
        if same_text(name, "travis-ci") {
            CiService::Travis
        } else if same_text(name, "travis-pro") {
            CiService::TravisPro
        } else if same_text(name, "circle-ci") {
            CiService::Circle
        } else if same_text(name, "semaphore") {
            CiService::Semaphore
        } else if same_text(name, "jenkins") {
            CiService::Jenkins
        } else if same_text(name, "codeship") {
            CiService::Codeship
        } else {
            CiService::Other(name.to_owned())
        }
    }

    /// A second value for the same service.
    pub fn duplicate(&self) -> (copy: CiService)
        ensures
            copy@ == self@,
    {
        match self {
            CiService::Travis => CiService::Travis,
            CiService::TravisPro => CiService::TravisPro,
            CiService::Circle => CiService::Circle,
            CiService::Semaphore => CiService::Semaphore,
            CiService::Jenkins => CiService::Jenkins,
            CiService::Codeship => CiService::Codeship,
            CiService::Other(name) => CiService::Other(name.clone()),
        }
    }
}

} // verus!
