//! Why an interface definition is turned down.

use vstd::prelude::*;
use vstd::string::StringExecFns;

verus! {

/// A failure of the generation step. No artifact is produced.
#[derive(Debug, Clone, PartialEq, Eq)]
pub enum GenerationError {
    /// The block is written for a type that no path names.
    UnrecognizedImpl,
    /// The receiver type carries generic arguments.
    GenericReceiver { receiver: String },
    /// A method declares generic parameters.
    GenericMethod { receiver: String, method: String },
    /// A method's parameter list ends in a variadic tail.
    VariadicMethod { receiver: String, method: String },
}

/// What a [`GenerationError`] holds, as a mathematical value.
pub enum GenerationErrorView {
    UnrecognizedImpl,
    GenericReceiver { receiver: Seq<char> },
    GenericMethod { receiver: Seq<char>, method: Seq<char> },
    VariadicMethod { receiver: Seq<char>, method: Seq<char> },
}

impl View for GenerationError {
    type V = GenerationErrorView;

    open spec fn view(&self) -> GenerationErrorView {
        match self {
            GenerationError::UnrecognizedImpl => GenerationErrorView::UnrecognizedImpl,
            GenerationError::GenericReceiver { receiver } => GenerationErrorView::GenericReceiver {
                receiver: receiver@,
            },
            GenerationError::GenericMethod { receiver, method } => {
                GenerationErrorView::GenericMethod { receiver: receiver@, method: method@ }
            },
            GenerationError::VariadicMethod { receiver, method } => {
                GenerationErrorView::VariadicMethod { receiver: receiver@, method: method@ }
            },
        }
    }
}

impl GenerationErrorView {
    /// The failure in words. It names the receiver and, where a method is at
    /// fault, the method.
    pub open spec fn message(self) -> Seq<char> {
        match self {
            GenerationErrorView::UnrecognizedImpl => "don't understand impl block"@,
            GenerationErrorView::GenericReceiver { receiver } => receiver
                + " has generic parameters which brug doesnt support yet"@,
            GenerationErrorView::GenericMethod { receiver, method } => receiver + "::"@ + method
                + "() has generic parameters, which can't be supported"@,
            GenerationErrorView::VariadicMethod { receiver, method } => receiver + "::"@ + method
                + "() is variadic parameters, which can't be supported"@,
        }
    }
}

impl GenerationError {
    /// The failure in words.
    pub fn message(&self) -> (text: String)
        ensures
            text@ == self@.message(),
    {
        match self {
            GenerationError::UnrecognizedImpl => String::from_str("don't understand impl block"),
            GenerationError::GenericReceiver { receiver } => receiver.clone().concat(
                " has generic parameters which brug doesnt support yet",
            ),
            GenerationError::GenericMethod { receiver, method } => receiver.clone().concat(
                "::",
            ).concat(method.as_str()).concat("() has generic parameters, which can't be supported"),
            GenerationError::VariadicMethod { receiver, method } => receiver.clone().concat(
                "::",
            ).concat(method.as_str()).concat("() is variadic parameters, which can't be supported"),
        }
    }
}

} // verus!
