//! From a classified descriptor to the invocation of the starter.

use vstd::prelude::*;
use vstd::string::StringExecFns;
use crate::descriptor::{
    classify, message_of, parse_base_path, Classified, ConnectionDescriptor, DescriptorView,
};

verus! {

/// The three tokens that the starter is called with.
#[derive(Debug, Clone, PartialEq, Eq)]
pub struct Invocation {
    /// `DESIGNER` or `ENTERPRISE`.
    pub mode: String,
    /// The flag that names the form of the descriptor.
    pub flag: String,
    /// The composed argument of the flag.
    pub argument: String,
}

/// An invocation as plain text.
pub struct InvocationView {
    pub mode: Seq<char>,
    pub flag: Seq<char>,
    pub argument: Seq<char>,
}

impl View for Invocation {
    type V = InvocationView;

    open spec fn view(&self) -> InvocationView {
        InvocationView { mode: self.mode@, flag: self.flag@, argument: self.argument@ }
    }
}

/// Why the starter did not start.
#[derive(Debug, Clone, PartialEq, Eq)]
pub enum LaunchError {
    /// The starter is not where it should be; holds that place.
    StarterNotFound(String),
    /// The process could not be created; holds the reason.
    SpawnFailed(String),
}

/// A launch error as plain text.
pub enum LaunchErrorView {
    StarterNotFound(Seq<char>),
    SpawnFailed(Seq<char>),
}

impl View for LaunchError {
    type V = LaunchErrorView;

    open spec fn view(&self) -> LaunchErrorView {
        match self {
            LaunchError::StarterNotFound(starter) => LaunchErrorView::StarterNotFound(starter@),
            LaunchError::SpawnFailed(reason) => LaunchErrorView::SpawnFailed(reason@),
        }
    }
}

/// The mode token.
pub open spec fn mode_token(designer: bool) -> Seq<char> {
    if designer {
        "DESIGNER"@
    } else {
        "ENTERPRISE"@
    }
}

/// The flag of a descriptor's form.
pub open spec fn flag_of(descriptor: DescriptorView) -> Seq<char> {
    match descriptor {
        DescriptorView::Server { .. } => "/S"@,
        DescriptorView::File { .. } => "/F"@,
        DescriptorView::Web { .. } => "/WS"@,
    }
}

/// The argument that goes with the flag: host and name joined by a
/// backslash, the path, or the address.
pub open spec fn argument_of(descriptor: DescriptorView) -> Seq<char> {
    match descriptor {
        DescriptorView::Server { host, ref_name } => host + "\\"@ + ref_name,
        DescriptorView::File { path } => path,
        DescriptorView::Web { url } => url,
    }
}

/// The invocation for a descriptor in a mode.
pub open spec fn invocation_for(descriptor: DescriptorView, designer: bool) -> InvocationView {
    InvocationView {
        mode: mode_token(designer),
        flag: flag_of(descriptor),
        argument: argument_of(descriptor),
    }
}

/// Plans the starter's invocation for a descriptor.
pub fn launch_base(path: &ConnectionDescriptor, designer: bool) -> (invocation: Invocation)
    ensures
        invocation@ == invocation_for(path@, designer),
{
    let mode = if designer {
        String::from_str("DESIGNER")
    } else {
        String::from_str("ENTERPRISE")
    };
    match path {
        ConnectionDescriptor::Server { host, ref_name } => Invocation {
            mode,
            flag: String::from_str("/S"),
            argument: host.clone().concat("\\").concat(ref_name.as_str()),
        },
        ConnectionDescriptor::File { path } => Invocation {
            mode,
            flag: String::from_str("/F"),
            argument: path.clone(),
        },
        ConnectionDescriptor::Web { url } => Invocation {
            mode,
            flag: String::from_str("/WS"),
            argument: url.clone(),
        },
    }
}

/// The mode changes the mode token and nothing else: flag and argument of
/// a descriptor are the same in both modes.
pub proof fn lemma_mode_changes_token_only(descriptor: DescriptorView)
    ensures
        invocation_for(descriptor, true).flag == invocation_for(descriptor, false).flag,
        invocation_for(descriptor, true).argument == invocation_for(descriptor, false).argument,
        invocation_for(descriptor, true).mode == "DESIGNER"@,
        invocation_for(descriptor, false).mode == "ENTERPRISE"@,
{
}

/// The view of what the starter's place and the attempt to start it gave.
pub open spec fn outcome_for(
    starter: Seq<char>,
    located: bool,
    failure: Option<Seq<char>>,
) -> Result<(), LaunchErrorView> {
    if !located {
        Err(LaunchErrorView::StarterNotFound(starter))
    } else {
        match failure {
            Some(reason) => Err(LaunchErrorView::SpawnFailed(reason)),
            None => Ok(()),
        }
    }
}

/// The view of a launch's result.
pub open spec fn launched_of(r: Result<(), LaunchError>) -> Result<(), LaunchErrorView> {
    match r {
        Ok(()) => Ok(()),
        Err(e) => Err(e@),
    }
}

/// The view of a failure's reason.
pub open spec fn reason_of(failure: Option<String>) -> Option<Seq<char>> {
    match failure {
        Some(reason) => Some(reason@),
        None => None,
    }
}

/// Judges a launch: a starter that is not in its place was not found,
/// whatever else is reported; otherwise a reported failure is a failed
/// spawn, and no report a success.
pub fn launch_outcome(starter: &str, located: bool, failure: Option<String>) -> (r: Result<
    (),
    LaunchError,
>)
    ensures
        launched_of(r) == outcome_for(starter@, located, reason_of(failure)),
{
    if !located {
        Err(LaunchError::StarterNotFound(String::from_str(starter)))
    } else {
        match failure {
            Some(reason) => Err(LaunchError::SpawnFailed(reason)),
            None => Ok(()),
        }
    }
}

/// The message shown for a launch error.
pub open spec fn launch_message_of(error: LaunchErrorView) -> Seq<char> {
    match error {
        LaunchErrorView::StarterNotFound(starter) => "Could not locate 1C starter app: '"@
            + starter + "'"@,
        LaunchErrorView::SpawnFailed(reason) => reason,
    }
}

impl LaunchError {
    /// Describes the error in one line.
    pub fn describe(&self) -> (text: String)
        ensures
            text@ == launch_message_of(self@),
    {
        match self {
            LaunchError::StarterNotFound(starter) => String::from_str(
                "Could not locate 1C starter app: '",
            ).concat(starter.as_str()).concat("'"),
            LaunchError::SpawnFailed(reason) => reason.clone(),
        }
    }
}

/// The line that reports a launch error.
pub open spec fn launcher_report(error: LaunchErrorView) -> Seq<char> {
    "Launcher error: "@ + launch_message_of(error)
}

/// Reports a launch error in one line, marked as coming from the launcher.
pub fn launcher_error(error: &LaunchError) -> (text: String)
    ensures
        text@ == launcher_report(error@),
{
    let detail = error.describe();
    String::from_str("Launcher error: ").concat(detail.as_str())
}

/// The view of a plan or the line that reports why there is none.
pub open spec fn plan_of(r: Result<Invocation, String>) -> Result<InvocationView, Seq<char>> {
    match r {
        Ok(invocation) => Ok(invocation@),
        Err(text) => Err(text@),
    }
}

/// What a classified text leads to: the invocation for its descriptor, or
/// the line that reports the classification error.
pub open spec fn plan_from(classified: Classified, designer: bool) -> Result<
    InvocationView,
    Seq<char>,
> {
    match classified {
        Ok(descriptor) => Ok(invocation_for(descriptor, designer)),
        Err(error) => Err("Parsing error: "@ + message_of(error)),
    }
}

/// Classifies a descriptor text and plans the starter's invocation for it;
/// a text that is no descriptor gives the line that reports why, marked as
/// coming from parsing.
pub fn try_parse_and_launch(path: &str, designer: bool) -> (r: Result<Invocation, String>)
    ensures
        plan_of(r) == plan_from(classify(path@), designer),
{
    match parse_base_path(path) {
        Ok(descriptor) => Ok(launch_base(&descriptor, designer)),
        Err(error) => {
            let detail = error.describe();
            Err(String::from_str("Parsing error: ").concat(detail.as_str()))
        },
    }
}

} // verus!
