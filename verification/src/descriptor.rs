//! Classification of a connection descriptor text.
//!
//! A descriptor is recognised by the markers it contains, tried in a fixed
//! order: the web marker on the trimmed text as written, then the file
//! marker, the server markers and the plain separator on its lower-case form.

use vstd::prelude::*;
use vstd::string::StringExecFns;
use crate::pattern::{find_groups, group, group_of, group_text, pattern_groups, search_of};
use crate::text::{contains, has_substring, lowercased, to_lowercase, trim, trimmed};

verus! {

/// Where a descriptor points.
#[derive(Debug, Clone, PartialEq, Eq)]
pub enum ConnectionDescriptor {
    /// A named database on a named server cluster.
    Server { host: String, ref_name: String },
    /// A file-based database.
    File { path: String },
    /// A web-service endpoint.
    Web { url: String },
}

/// Why a text is no descriptor.
#[derive(Debug, Clone, PartialEq, Eq)]
pub enum ClassificationError {
    /// The web marker is there, a quoted address is not.
    MalformedWebForm,
    /// The file marker is there, a quoted path is not.
    MalformedFileForm,
    /// The server markers are there, two quoted names are not.
    MalformedServerForm,
    /// A separator is there, a name on each side of it is not.
    MalformedSimpleForm,
    /// No marker occurs; holds the text as it was given.
    UnrecognizedDescriptor(String),
}

/// A descriptor as plain text.
pub enum DescriptorView {
    Server { host: Seq<char>, ref_name: Seq<char> },
    File { path: Seq<char> },
    Web { url: Seq<char> },
}

/// A classification error as plain text.
pub enum ClassificationErrorView {
    MalformedWebForm,
    MalformedFileForm,
    MalformedServerForm,
    MalformedSimpleForm,
    UnrecognizedDescriptor(Seq<char>),
}

impl View for ConnectionDescriptor {
    type V = DescriptorView;

    open spec fn view(&self) -> DescriptorView {
        match self {
            ConnectionDescriptor::Server { host, ref_name } => DescriptorView::Server {
                host: host@,
                ref_name: ref_name@,
            },
            ConnectionDescriptor::File { path } => DescriptorView::File { path: path@ },
            ConnectionDescriptor::Web { url } => DescriptorView::Web { url: url@ },
        }
    }
}

impl View for ClassificationError {
    type V = ClassificationErrorView;

    open spec fn view(&self) -> ClassificationErrorView {
        match self {
            ClassificationError::MalformedWebForm => ClassificationErrorView::MalformedWebForm,
            ClassificationError::MalformedFileForm => ClassificationErrorView::MalformedFileForm,
            ClassificationError::MalformedServerForm => ClassificationErrorView::MalformedServerForm,
            ClassificationError::MalformedSimpleForm => ClassificationErrorView::MalformedSimpleForm,
            ClassificationError::UnrecognizedDescriptor(raw) => {
                ClassificationErrorView::UnrecognizedDescriptor(raw@)
            },
        }
    }
}

/// The outcome of a classification as plain text.
pub type Classified = Result<DescriptorView, ClassificationErrorView>;

/// The view of an outcome.
pub open spec fn outcome_of(r: Result<ConnectionDescriptor, ClassificationError>) -> Classified {
    match r {
        Ok(d) => Ok(d@),
        Err(e) => Err(e@),
    }
}

/// The marker of the web form, looked for in the text as written.
pub open spec fn web_marker() -> Seq<char> {
    "ws="@
}

/// The marker of the file form.
pub open spec fn file_marker() -> Seq<char> {
    "file="@
}

/// The first marker of the server form.
pub open spec fn server_marker() -> Seq<char> {
    "srvr="@
}

/// The second marker of the server form.
pub open spec fn ref_marker() -> Seq<char> {
    "ref="@
}

/// The separator of the simple form.
pub open spec fn separator() -> Seq<char> {
    ";"@
}

/// One quoted segment, as long as it can be.
pub open spec fn quoted_pattern() -> Seq<char> {
    "\"(.+)\""@
}

/// Two quoted segments with something between them.
pub open spec fn two_quoted_pattern() -> Seq<char> {
    "\"(.+)\".+\"(.+)\""@
}

/// Two names around the last separator.
pub open spec fn simple_pattern() -> Seq<char> {
    "(.+);(.+)"@
}

/// The web form of what a search for one quoted segment found.
pub open spec fn web_from_groups(found: Option<Seq<Option<Seq<char>>>>) -> Classified {
    match group_text(found, 1) {
        Some(url) => Ok(DescriptorView::Web { url }),
        None => Err(ClassificationErrorView::MalformedWebForm),
    }
}

/// The file form of what a search for one quoted segment found.
pub open spec fn file_from_groups(found: Option<Seq<Option<Seq<char>>>>) -> Classified {
    match group_text(found, 1) {
        Some(path) => Ok(DescriptorView::File { path }),
        None => Err(ClassificationErrorView::MalformedFileForm),
    }
}

/// The server a search for two captures found, or `error`.
pub open spec fn server_from_groups(
    found: Option<Seq<Option<Seq<char>>>>,
    error: ClassificationErrorView,
) -> Classified {
    match (group_text(found, 1), group_text(found, 2)) {
        (Some(host), Some(ref_name)) => Ok(DescriptorView::Server { host, ref_name }),
        _ => Err(error),
    }
}

/// The web form of `s`.
pub open spec fn web_form(s: Seq<char>) -> Classified {
    web_from_groups(pattern_groups(quoted_pattern(), s))
}

/// The file form of `s`.
pub open spec fn file_form(s: Seq<char>) -> Classified {
    file_from_groups(pattern_groups(quoted_pattern(), s))
}

/// The server form of `s`.
pub open spec fn server_form(s: Seq<char>) -> Classified {
    server_from_groups(
        pattern_groups(two_quoted_pattern(), s),
        ClassificationErrorView::MalformedServerForm,
    )
}

/// The simple form of `s`.
pub open spec fn simple_form(s: Seq<char>) -> Classified {
    server_from_groups(
        pattern_groups(simple_pattern(), s),
        ClassificationErrorView::MalformedSimpleForm,
    )
}

/// The form that the markers in the lower-case text `lower` select, for the
/// text `raw` as it was given.
pub open spec fn classify_lowered(raw: Seq<char>, lower: Seq<char>) -> Classified {
    if has_substring(lower, file_marker()) {
        file_form(lower)
    } else if has_substring(lower, server_marker()) && has_substring(lower, ref_marker()) {
        server_form(lower)
    } else if has_substring(lower, separator()) {
        simple_form(lower)
    } else {
        Err(ClassificationErrorView::UnrecognizedDescriptor(raw))
    }
}

/// What a descriptor text is: the first form whose marker it holds.
pub open spec fn classify(raw: Seq<char>) -> Classified {
    let s = trimmed(raw);
    if has_substring(s, web_marker()) {
        web_form(s)
    } else {
        classify_lowered(raw, lowercased(s))
    }
}

/// Builds the web descriptor from the outcome of a search for one quoted
/// segment.
pub fn web_from_search(found: &Option<Vec<Option<String>>>) -> (r: Result<
    ConnectionDescriptor,
    ClassificationError,
>)
    ensures
        outcome_of(r) == web_from_groups(search_of(*found)),
{
    match group(found, 1) {
        Some(url) => Ok(ConnectionDescriptor::Web { url }),
        None => Err(ClassificationError::MalformedWebForm),
    }
}

/// Builds the file descriptor from the outcome of a search for one quoted
/// segment.
pub fn file_from_search(found: &Option<Vec<Option<String>>>) -> (r: Result<
    ConnectionDescriptor,
    ClassificationError,
>)
    ensures
        outcome_of(r) == file_from_groups(search_of(*found)),
{
    match group(found, 1) {
        Some(path) => Ok(ConnectionDescriptor::File { path }),
        None => Err(ClassificationError::MalformedFileForm),
    }
}

/// Builds the server descriptor from the outcome of a search with two
/// captures; `error` is returned where a capture is missing.
pub fn server_from_search(
    found: &Option<Vec<Option<String>>>,
    error: ClassificationError,
) -> (r: Result<ConnectionDescriptor, ClassificationError>)
    ensures
        outcome_of(r) == server_from_groups(search_of(*found), error@),
{
    match group(found, 1) {
        Some(host) => match group(found, 2) {
            Some(ref_name) => Ok(ConnectionDescriptor::Server { host, ref_name }),
            None => Err(error),
        },
        None => Err(error),
    }
}

/// Reads `input` as the web form: the address is the longest quoted segment.
pub fn parse_base_web_form(input: &str) -> (r: Result<ConnectionDescriptor, ClassificationError>)
    ensures
        outcome_of(r) == web_form(input@),
{
    let found = find_groups("\"(.+)\"", input);
    web_from_search(&found)
}

/// Reads `input` as the file form: the path is the longest quoted segment.
pub fn parse_base_file_form(input: &str) -> (r: Result<ConnectionDescriptor, ClassificationError>)
    ensures
        outcome_of(r) == file_form(input@),
{
    let found = find_groups("\"(.+)\"", input);
    file_from_search(&found)
}

/// Reads `input` as the server form: host and name are two quoted segments.
pub fn parse_base_server_form(input: &str) -> (r: Result<
    ConnectionDescriptor,
    ClassificationError,
>)
    ensures
        outcome_of(r) == server_form(input@),
{
    let found = find_groups("\"(.+)\".+\"(.+)\"", input);
    server_from_search(&found, ClassificationError::MalformedServerForm)
}

/// Reads `input` as the simple form: host and name around the last separator.
pub fn parse_base_simple_form(input: &str) -> (r: Result<
    ConnectionDescriptor,
    ClassificationError,
>)
    ensures
        outcome_of(r) == simple_form(input@),
{
    let found = find_groups("(.+);(.+)", input);
    server_from_search(&found, ClassificationError::MalformedSimpleForm)
}

/// Classifies a descriptor text.
pub fn parse_base_path(input_path: &str) -> (r: Result<ConnectionDescriptor, ClassificationError>)
    ensures
        outcome_of(r) == classify(input_path@),
{
    let s = trim(input_path);
    if contains(s, "ws=") {
        return parse_base_web_form(s);
    }
    let lower = to_lowercase(s);
    if contains(lower.as_str(), "file=") {
        parse_base_file_form(lower.as_str())
    } else if contains(lower.as_str(), "srvr=") && contains(lower.as_str(), "ref=") {
        parse_base_server_form(lower.as_str())
    } else if contains(lower.as_str(), ";") {
        parse_base_simple_form(lower.as_str())
    } else {
        Err(ClassificationError::UnrecognizedDescriptor(String::from_str(input_path)))
    }
}

/// The message shown for an error.
pub open spec fn message_of(error: ClassificationErrorView) -> Seq<char> {
    match error {
        ClassificationErrorView::MalformedWebForm => "expected pattern: ws=\"<url>\";"@,
        ClassificationErrorView::MalformedFileForm => "expected pattern: File=\"<path>\";"@,
        ClassificationErrorView::MalformedServerForm => {
            "expected pattern: Srvr=\"host\";Ref=\"ref\";"@
        },
        ClassificationErrorView::MalformedSimpleForm => "expected pattern: host;ref"@,
        ClassificationErrorView::UnrecognizedDescriptor(raw) => {
            "Could not parse provided path: "@ + raw
        },
    }
}

impl ClassificationError {
    /// Describes the error in one line.
    pub fn describe(&self) -> (text: String)
        ensures
            text@ == message_of(self@),
    {
        match self {
            ClassificationError::MalformedWebForm => String::from_str(
                "expected pattern: ws=\"<url>\";",
            ),
            ClassificationError::MalformedFileForm => String::from_str(
                "expected pattern: File=\"<path>\";",
            ),
            ClassificationError::MalformedServerForm => String::from_str(
                "expected pattern: Srvr=\"host\";Ref=\"ref\";",
            ),
            ClassificationError::MalformedSimpleForm => String::from_str(
                "expected pattern: host;ref",
            ),
            ClassificationError::UnrecognizedDescriptor(raw) => String::from_str(
                "Could not parse provided path: ",
            ).concat(raw.as_str()),
        }
    }
}

/// Whatever else a text holds, and in whatever case, the web marker decides:
/// a text whose trimmed form holds it and in which the quoted segment `url`
/// is found is the web descriptor of `url`, as written.
pub proof fn lemma_web_marker_decides(raw: Seq<char>, url: Seq<char>)
    requires
        has_substring(trimmed(raw), web_marker()),
        group_text(pattern_groups(quoted_pattern(), trimmed(raw)), 1) == Some(url),
    ensures
        classify(raw) == Classified::Ok(DescriptorView::Web { url }),
{
}

/// The web marker, exactly as written, is what makes a web descriptor: a
/// text whose trimmed form holds it is a web descriptor or a malformed web
/// form, and a text whose trimmed form does not hold it is neither.
pub proof fn lemma_web_needs_marker(raw: Seq<char>)
    ensures
        has_substring(trimmed(raw), web_marker()) <==> (classify(raw) matches Ok(
            DescriptorView::Web { .. },
        )) || classify(raw) == Classified::Err(ClassificationErrorView::MalformedWebForm),
{
}

/// A text without the web marker is classified by its lower-case form alone:
/// two texts with the same lower-case form get the same descriptor.
pub proof fn lemma_case_is_ignored(a: Seq<char>, b: Seq<char>)
    requires
        !has_substring(trimmed(a), web_marker()),
        !has_substring(trimmed(b), web_marker()),
        lowercased(trimmed(a)) == lowercased(trimmed(b)),
    ensures
        classify(a) is Ok ==> classify(a) == classify(b),
        classify(a) is Ok <==> classify(b) is Ok,
{
}

} // verus!
