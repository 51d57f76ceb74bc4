//! A small error type: a kind out of a fixed list, and a message.

use vstd::prelude::*;
use vstd::string::StringExecFns;

verus! {

/// What went wrong, in broad terms.
#[derive(Debug, PartialEq, Eq, Clone, Copy, Structural)]
pub enum CustomErrorKind {
    NotFound,
    PermissionDenied,
    InvalidArgument,
    InvalidData,
    UnexpectedEof,
    ResourceBusy,
    TimedOut,
    OutOfMemory,
    Other,
}

impl CustomErrorKind {
    /// The kind's name, as it is written in the source.
    pub open spec fn name_spec(self) -> Seq<char> {
        match self {
            CustomErrorKind::NotFound => "NotFound"@,
            CustomErrorKind::PermissionDenied => "PermissionDenied"@,
            CustomErrorKind::InvalidArgument => "InvalidArgument"@,
            CustomErrorKind::InvalidData => "InvalidData"@,
            CustomErrorKind::UnexpectedEof => "UnexpectedEof"@,
            CustomErrorKind::ResourceBusy => "ResourceBusy"@,
            CustomErrorKind::TimedOut => "TimedOut"@,
            CustomErrorKind::OutOfMemory => "OutOfMemory"@,
            CustomErrorKind::Other => "Other"@,
        }
    }

    /// The kind's name, as it is written in the source.
    pub fn name(&self) -> (text: &'static str)
        ensures
            text@ == self.name_spec(),
    {
        match self {
            CustomErrorKind::NotFound => "NotFound",
            CustomErrorKind::PermissionDenied => "PermissionDenied",
            CustomErrorKind::InvalidArgument => "InvalidArgument",
            CustomErrorKind::InvalidData => "InvalidData",
            CustomErrorKind::UnexpectedEof => "UnexpectedEof",
            CustomErrorKind::ResourceBusy => "ResourceBusy",
            CustomErrorKind::TimedOut => "TimedOut",
            CustomErrorKind::OutOfMemory => "OutOfMemory",
            CustomErrorKind::Other => "Other",
        }
    }
}

/// An error: its kind and a message for the reader.
#[derive(Debug)]
pub struct CustomError {
    kind: CustomErrorKind,
    message: String,
}

impl CustomError {
    /// The error's kind.
    pub closed spec fn kind_spec(&self) -> CustomErrorKind {
        self.kind
    }

    /// The error's message.
    pub closed spec fn message_spec(&self) -> Seq<char> {
        self.message@
    }

    /// The text that `to_string` gives: the kind's name, a colon, a space,
    /// and the message.
    pub open spec fn text_spec(&self) -> Seq<char> {
        self.kind_spec().name_spec() + ": "@ + self.message_spec()
    }

    /// An error of the given kind with the given message.
    pub fn new(kind: CustomErrorKind, message: &str) -> (error: Self)
        ensures
            error.kind_spec() == kind,
            error.message_spec() == message@,
    {
        CustomError { kind, message: String::from_str(message) }
    }

    /// The error's kind.
    pub fn kind(&self) -> (kind: CustomErrorKind)
        ensures
            kind == self.kind_spec(),
    {
        self.kind
    }

    /// The error's message.
    pub fn message(&self) -> (message: &str)
        ensures
            message@ == self.message_spec(),
    {
        self.message.as_str()
    }

    /// The error as one line of text: the kind's name, then `": "`, then the
    /// message.
    pub fn to_string(&self) -> (text: String)
        ensures
            text@ == self.text_spec(),
    {
        let mut text = String::from_str(self.kind.name());
        text.append(": ");
        text.append(self.message.as_str());
        text
    }
}

} // verus!
