//! Failures of the bridge, as the host sees them.

use vstd::prelude::*;

verus! {

/// The kinds of failure that a bridge operation can end in.
#[derive(Clone, Copy, Debug, PartialEq, Eq, Structural)]
pub enum ErrorKind {
    /// A module specifier could not be resolved.
    Resolution,
    /// A module's source could not be read or parsed.
    Load,
    /// Setting up the engine or its loader broke an invariant.
    Construction,
    /// The script raised an exception that nothing caught.
    EngineExecution,
    /// The engine's result does not have the shape of the requested host type.
    Deserialization,
    /// The bridge was driven out of order, or while a call was in flight.
    Protocol,
}

/// An exception as the engine reports it: the class it was classified under,
/// if any, and its message.
#[derive(Clone, Debug, PartialEq, Eq)]
pub struct Exception {
    pub class: Option<String>,
    pub message: String,
}

/// An exception, with its texts as sequences of characters.
pub struct ExceptionView {
    pub class: Option<Seq<char>>,
    pub message: Seq<char>,
}

impl View for Exception {
    type V = ExceptionView;

    open spec fn view(&self) -> ExceptionView {
        ExceptionView {
            class: match self.class {
                Some(class) => Some(class@),
                None => None,
            },
            message: self.message@,
        }
    }
}

/// A failure of `new`, `call` or one of their steps.
#[derive(Clone, Debug, PartialEq, Eq)]
pub enum BridgeError {
    Resolution { message: String },
    Load { message: String },
    Construction,
    EngineExecution { class: String, message: String },
    Deserialization { message: String },
    Protocol,
}

/// A failure, with its texts as sequences of characters.
pub enum BridgeErrorView {
    Resolution { message: Seq<char> },
    Load { message: Seq<char> },
    Construction,
    EngineExecution { class: Seq<char>, message: Seq<char> },
    Deserialization { message: Seq<char> },
    Protocol,
}

impl BridgeErrorView {
    pub open spec fn kind(self) -> ErrorKind {
        match self {
            BridgeErrorView::Resolution { .. } => ErrorKind::Resolution,
            BridgeErrorView::Load { .. } => ErrorKind::Load,
            BridgeErrorView::Construction => ErrorKind::Construction,
            BridgeErrorView::EngineExecution { .. } => ErrorKind::EngineExecution,
            BridgeErrorView::Deserialization { .. } => ErrorKind::Deserialization,
            BridgeErrorView::Protocol => ErrorKind::Protocol,
        }
    }
}

impl View for BridgeError {
    type V = BridgeErrorView;

    open spec fn view(&self) -> BridgeErrorView {
        match self {
            BridgeError::Resolution { message } => BridgeErrorView::Resolution {
                message: message@,
            },
            BridgeError::Load { message } => BridgeErrorView::Load { message: message@ },
            BridgeError::Construction => BridgeErrorView::Construction,
            BridgeError::EngineExecution { class, message } => BridgeErrorView::EngineExecution {
                class: class@,
                message: message@,
            },
            BridgeError::Deserialization { message } => BridgeErrorView::Deserialization {
                message: message@,
            },
            BridgeError::Protocol => BridgeErrorView::Protocol,
        }
    }
}

/// The class name reported for a script exception that the engine left unclassified.
pub open spec fn default_error_class() -> Seq<char> {
    "Error"@
}

/// The class under which an exception is reported to the host.
pub open spec fn reported_class(class: Option<Seq<char>>) -> Seq<char> {
    match class {
        Some(name) => name,
        None => default_error_class(),
    }
}

/// The failure that an uncaught script exception becomes.
pub open spec fn execution_error(exception: ExceptionView) -> BridgeErrorView {
    BridgeErrorView::EngineExecution {
        class: reported_class(exception.class),
        message: exception.message,
    }
}

/// The class name under which a script exception is reported: the engine's
/// own classification where it gave one, `"Error"` otherwise.
pub fn get_error_class_name(classified: Option<&'static str>) -> (name: &'static str)
    ensures
        name@ == reported_class(
            match classified {
                Some(class) => Some(class@),
                None => None,
            },
        ),
{
    match classified {
        Some(class) => class,
        None => "Error",
    }
}

impl BridgeError {
    /// Which kind of failure this is.
    pub fn kind(&self) -> (kind: ErrorKind)
        ensures
            kind == self@.kind(),
    {
        match self {
            BridgeError::Resolution { .. } => ErrorKind::Resolution,
            BridgeError::Load { .. } => ErrorKind::Load,
            BridgeError::Construction => ErrorKind::Construction,
            BridgeError::EngineExecution { .. } => ErrorKind::EngineExecution,
            BridgeError::Deserialization { .. } => ErrorKind::Deserialization,
            BridgeError::Protocol => ErrorKind::Protocol,
        }
    }

    /// Wraps an uncaught script exception, filling in the default class
    /// where the engine gave none.
    pub fn from_exception(exception: Exception) -> (error: BridgeError)
        ensures
            error@ == execution_error(exception@),
    {
        let Exception { class, message } = exception;
        let class = match class {
            Some(name) => name,
            None => String::from_str("Error"),
        };
        BridgeError::EngineExecution { class, message }
    }
}

} // verus!
