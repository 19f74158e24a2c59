//! The command representation: one tagged union per receiver, with one case
//! per method that holds the method's arguments and a sender for its result.

use vstd::prelude::*;
use vstd::string::StringExecFns;
use crate::descriptor::{MethodDescriptor, MethodView, ReceiverDescriptor, ReceiverView};
use crate::text::{each_followed, push_each_followed, push_separated, separated};

verus! {

/// One case of a command union.
#[derive(Debug, Clone, PartialEq, Eq)]
pub struct CommandCase {
    /// The case's tag.
    pub tag: String,
    /// The types of the argument fields, in the order of the method's
    /// parameters.
    pub fields: Vec<String>,
    /// The type of the value that the case's sender carries: the method's
    /// return type.
    pub response: String,
}

/// What a [`CommandCase`] holds, as a mathematical value.
pub struct CommandCaseView {
    pub tag: Seq<char>,
    pub fields: Seq<Seq<char>>,
    pub response: Seq<char>,
}

impl View for CommandCase {
    type V = CommandCaseView;

    open spec fn view(&self) -> CommandCaseView {
        CommandCaseView {
            tag: self.tag@,
            fields: self.fields.deep_view(),
            response: self.response@,
        }
    }
}

impl DeepView for CommandCase {
    type V = CommandCaseView;

    open spec fn deep_view(&self) -> CommandCaseView {
        self@
    }
}

/// The command union of a receiver.
#[derive(Debug, Clone, PartialEq, Eq)]
pub struct CommandUnion {
    /// The union's path.
    pub name: String,
    /// The cases, in the declaration order of the methods.
    pub cases: Vec<CommandCase>,
}

/// What a [`CommandUnion`] holds, as a mathematical value.
pub struct CommandUnionView {
    pub name: Seq<char>,
    pub cases: Seq<CommandCaseView>,
}

impl View for CommandUnion {
    type V = CommandUnionView;

    open spec fn view(&self) -> CommandUnionView {
        CommandUnionView { name: self.name@, cases: self.cases.deep_view() }
    }
}

/// The command case of a method: its tag, the types of its parameters, and
/// its return type as the type of the response.
pub open spec fn case_of(method: MethodView) -> CommandCaseView {
    CommandCaseView {
        tag: method.tag,
        fields: Seq::new(method.params.len(), |i: int| method.params[i].ty),
        response: method.output,
    }
}

/// The command union of a receiver: one case per method, in declaration
/// order.
pub open spec fn union_of(receiver: ReceiverView) -> CommandUnionView {
    CommandUnionView {
        name: receiver.command_name(),
        cases: Seq::new(receiver.methods.len(), |i: int| case_of(receiver.methods[i])),
    }
}

impl CommandCaseView {
    /// The case as source text: the tag, then in brackets the field types
    /// and the sender of the response.
    pub open spec fn text(self) -> Seq<char> {
        "    "@ + self.tag + "("@ + each_followed(self.fields, ", "@) + "T::Sender<"@
            + self.response + ">)"@
    }
}

impl CommandUnionView {
    /// The source texts of the cases, in order.
    pub open spec fn case_texts(self) -> Seq<Seq<char>> {
        Seq::new(self.cases.len(), |i: int| self.cases[i].text())
    }

    /// The union as source text: an enum over a transport `T`.
    pub open spec fn text(self) -> Seq<char> {
        "pub enum "@ + self.name + "<T: ::brug::Transport> {\n"@ + separated(
            self.case_texts(),
            ",\n"@,
        ) + "\n}\n"@
    }
}

impl CommandCase {
    /// The case as source text.
    pub fn render(&self) -> (text: String)
        ensures
            text@ == self@.text(),
    {
        let mut text = String::from_str("    ");
        text.append(self.tag.as_str());
        text.append("(");
        push_each_followed(&mut text, &self.fields, ", ");
        text.append("T::Sender<");
        text.append(self.response.as_str());
        text.append(">)");
        text
    }
}

impl CommandUnion {
    /// The union as source text.
    pub fn render(&self) -> (text: String)
        ensures
            text@ == self@.text(),
    {
        let mut pieces: Vec<String> = Vec::new();
        let mut i: usize = 0;
        while i < self.cases.len()
            invariant
                0 <= i <= self.cases.len(),
                pieces.len() == i,
                forall|j: int| 0 <= j < i ==> (#[trigger] pieces[j])@ == self.cases[j]@.text(),
            decreases self.cases.len() - i,
        {
            pieces.push(self.cases[i].render());
            i += 1;
        }
        assert(pieces.deep_view() =~= self@.case_texts());
        let mut text = String::from_str("pub enum ");
        text.append(self.name.as_str());
        text.append("<T: ::brug::Transport> {\n");
        push_separated(&mut text, &pieces, ",\n");
        text.append("\n}\n");
        text
    }
}

/// The command case of a method.
pub fn command_case(method: &MethodDescriptor) -> (case: CommandCase)
    ensures
        case@ == case_of(method@),
{
    let mut fields: Vec<String> = Vec::new();
    let mut i: usize = 0;
    while i < method.params.len()
        invariant
            0 <= i <= method.params.len(),
            fields.len() == i,
            forall|j: int| 0 <= j < i ==> (#[trigger] fields[j])@ == method.params[j].ty@,
        decreases method.params.len() - i,
    {
        fields.push(method.params[i].ty.clone());
        i += 1;
    }
    assert(fields.deep_view() =~= case_of(method@).fields);
    CommandCase { tag: method.tag.clone(), fields, response: method.output.clone() }
}

/// The command union of a receiver: one case per method, in the order in
/// which the methods are declared.
pub fn command_union(receiver: &ReceiverDescriptor) -> (union: CommandUnion)
    ensures
        union@ == union_of(receiver@),
{
    let mut cases: Vec<CommandCase> = Vec::new();
    let mut i: usize = 0;
    while i < receiver.methods.len()
        invariant
            0 <= i <= receiver.methods.len(),
            cases.len() == i,
            forall|j: int| 0 <= j < i ==> (#[trigger] cases[j])@ == case_of(receiver.methods[j]@),
        decreases receiver.methods.len() - i,
    {
        cases.push(command_case(&receiver.methods[i]));
        i += 1;
    }
    assert(cases.deep_view() =~= union_of(receiver@).cases);
    CommandUnion { name: receiver.command_name(), cases }
}

} // verus!
