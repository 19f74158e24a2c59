//! An interface definition: an implementation block reduced to what the
//! generator reads of it. Types and generic arguments are carried as text
//! and never looked into.

use vstd::prelude::*;

verus! {

/// One segment of the path that names the receiver type.
#[derive(Debug, Clone, PartialEq, Eq)]
pub struct PathSegment {
    /// The segment's identifier.
    pub ident: String,
    /// The segment's generic arguments, angle brackets included, where it
    /// has any.
    pub arguments: Option<String>,
}

/// What a [`PathSegment`] holds, as a mathematical value.
pub struct PathSegmentView {
    pub ident: Seq<char>,
    pub arguments: Option<Seq<char>>,
}

impl View for PathSegment {
    type V = PathSegmentView;

    open spec fn view(&self) -> PathSegmentView {
        PathSegmentView { ident: self.ident@, arguments: self.arguments.deep_view() }
    }
}

impl DeepView for PathSegment {
    type V = PathSegmentView;

    open spec fn deep_view(&self) -> PathSegmentView {
        self@
    }
}

/// The type that an implementation block is written for.
#[derive(Debug, Clone, PartialEq, Eq)]
pub enum ReceiverType {
    /// A type named by a path, such as `Gamer` or `::game::Gamer`.
    /// `leading_colon` says whether the path begins with `::`.
    Path { leading_colon: bool, segments: Vec<PathSegment> },
    /// Any other kind of type (a reference, a tuple, a slice, ...).
    Other,
}

/// What a [`ReceiverType`] holds, as a mathematical value.
pub enum ReceiverTypeView {
    Path { leading_colon: bool, segments: Seq<PathSegmentView> },
    Other,
}

impl View for ReceiverType {
    type V = ReceiverTypeView;

    open spec fn view(&self) -> ReceiverTypeView {
        match self {
            ReceiverType::Path { leading_colon, segments } => ReceiverTypeView::Path {
                leading_colon: *leading_colon,
                segments: segments.deep_view(),
            },
            ReceiverType::Other => ReceiverTypeView::Other,
        }
    }
}

/// One entry of a method's parameter list.
#[derive(Debug, Clone, PartialEq, Eq)]
pub enum Argument {
    /// The receiver itself: `self`, `&self` or `&mut self`.
    Receiver,
    /// A typed parameter. `name` is the parameter's identifier, or `None`
    /// where it is declared with a pattern that is no plain identifier.
    Typed { name: Option<String>, ty: String },
}

/// What an [`Argument`] holds, as a mathematical value.
pub enum ArgumentView {
    Receiver,
    Typed { name: Option<Seq<char>>, ty: Seq<char> },
}

impl View for Argument {
    type V = ArgumentView;

    open spec fn view(&self) -> ArgumentView {
        match self {
            Argument::Receiver => ArgumentView::Receiver,
            Argument::Typed { name, ty } => ArgumentView::Typed {
                name: name.deep_view(),
                ty: ty@,
            },
        }
    }
}

impl DeepView for Argument {
    type V = ArgumentView;

    open spec fn deep_view(&self) -> ArgumentView {
        self@
    }
}

/// The signature of one method of the block.
#[derive(Debug, Clone, PartialEq, Eq)]
pub struct Signature {
    /// The method's name.
    pub name: String,
    /// Whether the method is declared `async`, so that calling it suspends.
    pub suspends: bool,
    /// How many generic parameters the method declares.
    pub generics: usize,
    /// Whether the parameter list ends in a variadic tail.
    pub variadic: bool,
    /// The parameter list, in declaration order.
    pub inputs: Vec<Argument>,
    /// The declared return type, or `None` where none is declared.
    pub output: Option<String>,
}

/// What a [`Signature`] holds, as a mathematical value.
pub struct SignatureView {
    pub name: Seq<char>,
    pub suspends: bool,
    pub generics: nat,
    pub variadic: bool,
    pub inputs: Seq<ArgumentView>,
    pub output: Option<Seq<char>>,
}

impl View for Signature {
    type V = SignatureView;

    open spec fn view(&self) -> SignatureView {
        SignatureView {
            name: self.name@,
            suspends: self.suspends,
            generics: self.generics as nat,
            variadic: self.variadic,
            inputs: self.inputs.deep_view(),
            output: self.output.deep_view(),
        }
    }
}

/// One item of an implementation block.
#[derive(Debug, Clone, PartialEq, Eq)]
pub enum Member {
    /// A method.
    Method(Signature),
    /// Anything else (an associated constant, a type, a macro call).
    Other,
}

/// What a [`Member`] holds, as a mathematical value.
pub enum MemberView {
    Method(SignatureView),
    Other,
}

impl View for Member {
    type V = MemberView;

    open spec fn view(&self) -> MemberView {
        match self {
            Member::Method(signature) => MemberView::Method(signature@),
            Member::Other => MemberView::Other,
        }
    }
}

impl DeepView for Member {
    type V = MemberView;

    open spec fn deep_view(&self) -> MemberView {
        self@
    }
}

/// An implementation block: the receiver type and the items declared for it.
#[derive(Debug, Clone, PartialEq, Eq)]
pub struct Interface {
    /// The type the block is written for.
    pub receiver: ReceiverType,
    /// The block's items, in declaration order.
    pub members: Vec<Member>,
}

/// What an [`Interface`] holds, as a mathematical value.
pub struct InterfaceView {
    pub receiver: ReceiverTypeView,
    pub members: Seq<MemberView>,
}

impl View for Interface {
    type V = InterfaceView;

    open spec fn view(&self) -> InterfaceView {
        InterfaceView { receiver: self.receiver@, members: self.members.deep_view() }
    }
}

} // verus!
