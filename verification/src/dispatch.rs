//! The dispatcher: the operation that takes a command apart, calls the
//! method it stands for and sends the result through the command's sender.

use vstd::prelude::*;
use vstd::string::StringExecFns;
use crate::alias::response_slot;
use crate::command::union_of;
use crate::descriptor::{MethodDescriptor, MethodView, ReceiverDescriptor, ReceiverView};
use crate::text::{each_followed, push_each_followed, push_separated, separated};

verus! {

/// One arm of a dispatcher: it matches one command case, calls one method
/// with the unpacked arguments, and sends the result once.
#[derive(Debug, Clone, PartialEq, Eq)]
pub struct DispatchArm {
    /// The tag of the command case that the arm matches.
    pub tag: String,
    /// The names under which the arm binds the arguments, in order.
    pub bindings: Vec<String>,
    /// The method that the arm calls.
    pub method: String,
    /// Whether the arm awaits the method before it sends the result.
    pub awaited: bool,
}

/// What a [`DispatchArm`] holds, as a mathematical value.
pub struct DispatchArmView {
    pub tag: Seq<char>,
    pub bindings: Seq<Seq<char>>,
    pub method: Seq<char>,
    pub awaited: bool,
}

impl View for DispatchArm {
    type V = DispatchArmView;

    open spec fn view(&self) -> DispatchArmView {
        DispatchArmView {
            tag: self.tag@,
            bindings: self.bindings.deep_view(),
            method: self.method@,
            awaited: self.awaited,
        }
    }
}

impl DeepView for DispatchArm {
    type V = DispatchArmView;

    open spec fn deep_view(&self) -> DispatchArmView {
        self@
    }
}

/// The dispatcher of a receiver.
#[derive(Debug, Clone, PartialEq, Eq)]
pub struct Dispatcher {
    /// The receiver's path.
    pub receiver: String,
    /// The path of the command union.
    pub command: String,
    /// The arms, in the declaration order of the methods. There is no
    /// other arm.
    pub arms: Vec<DispatchArm>,
}

/// What a [`Dispatcher`] holds, as a mathematical value.
pub struct DispatcherView {
    pub receiver: Seq<char>,
    pub command: Seq<char>,
    pub arms: Seq<DispatchArmView>,
}

impl View for Dispatcher {
    type V = DispatcherView;

    open spec fn view(&self) -> DispatcherView {
        DispatcherView {
            receiver: self.receiver@,
            command: self.command@,
            arms: self.arms.deep_view(),
        }
    }
}

/// The arm for a method: it matches the method's case, binds each argument
/// under its alias, and awaits the method exactly where the method suspends.
pub open spec fn arm_of(method: MethodView) -> DispatchArmView {
    DispatchArmView {
        tag: method.tag,
        bindings: Seq::new(method.params.len(), |i: int| method.params[i].alias),
        method: method.name,
        awaited: method.suspends,
    }
}

/// The dispatcher of a receiver: one arm per method, in declaration order.
pub open spec fn dispatcher_of(receiver: ReceiverView) -> DispatcherView {
    DispatcherView {
        receiver: receiver.path(),
        command: receiver.command_name(),
        arms: Seq::new(receiver.methods.len(), |i: int| arm_of(receiver.methods[i])),
    }
}

/// The dispatcher covers the command union case by case, and has no other
/// arm: it has as many arms as the union has cases; the arm at each position
/// matches the case at that position, binds one name per argument field,
/// calls the method that the case stands for, and awaits it exactly where
/// that method suspends.
pub proof fn lemma_dispatcher_covers_union(receiver: ReceiverView)
    ensures
        dispatcher_of(receiver).command == union_of(receiver).name,
        dispatcher_of(receiver).arms.len() == union_of(receiver).cases.len(),
        forall|i: int|
            0 <= i < receiver.methods.len() ==> {
                let arm = #[trigger] dispatcher_of(receiver).arms[i];
                let case = union_of(receiver).cases[i];
                &&& arm.tag == case.tag
                &&& arm.bindings.len() == case.fields.len()
                &&& arm.method == receiver.methods[i].name
                &&& arm.awaited == receiver.methods[i].suspends
            },
{
}

impl DispatchArmView {
    /// The call of the method on the receiver, awaited where the arm says
    /// so.
    pub open spec fn call_text(self) -> Seq<char> {
        "self."@ + self.method + "("@ + separated(self.bindings, ", "@) + ")"@ + (if self.awaited {
            ".await"@
        } else {
            Seq::empty()
        })
    }

    /// The arm as source text, for the command union `command`: the
    /// pattern, then one statement that sends the result of the call
    /// through the response slot.
    pub open spec fn text(self, command: Seq<char>) -> Seq<char> {
        "            "@ + command + "::"@ + self.tag + "("@ + each_followed(self.bindings, ", "@)
            + response_slot() + ") => {\n                ::brug::Sender::send("@ + response_slot()
            + ", "@ + self.call_text() + ").await;\n            }\n"@
    }
}

impl DispatcherView {
    /// The source texts of the arms, in order.
    pub open spec fn arm_texts(self) -> Seq<Seq<char>> {
        Seq::new(self.arms.len(), |i: int| self.arms[i].text(self.command))
    }

    /// The dispatcher as source text: an implementation of `perform` for
    /// the receiver, over any transport `T`, whose body is one match with
    /// the arms and nothing else.
    pub open spec fn text(self) -> Seq<char> {
        "#[::brug::async_trait]\nimpl<T: ::brug::Transport> ::brug::Performer<"@ + self.command
            + "<T>> for "@ + self.receiver + " {\n    async fn perform(&mut self, command: "@
            + self.command + "<T>) {\n        match command {\n"@ + each_followed(
            self.arm_texts(),
            Seq::empty(),
        ) + "        }\n    }\n}\n"@
    }
}

impl DispatchArm {
    /// The arm as source text, for the command union `command`.
    pub fn render(&self, command: &str) -> (text: String)
        ensures
            text@ == self@.text(command@),
    {
        let mut call = String::from_str("self.");
        call.append(self.method.as_str());
        call.append("(");
        push_separated(&mut call, &self.bindings, ", ");
        call.append(")");
        if self.awaited {
            call.append(".await");
        }
        assert(call@ =~= self@.call_text());
        let mut text = String::from_str("            ");
        text.append(command);
        text.append("::");
        text.append(self.tag.as_str());
        text.append("(");
        push_each_followed(&mut text, &self.bindings, ", ");
        text.append("resp");
        text.append(") => {\n                ::brug::Sender::send(");
        text.append("resp");
        text.append(", ");
        text.append(call.as_str());
        text.append(").await;\n            }\n");
        text
    }
}

impl Dispatcher {
    /// The dispatcher as source text.
    pub fn render(&self) -> (text: String)
        ensures
            text@ == self@.text(),
    {
        let mut pieces: Vec<String> = Vec::new();
        let mut i: usize = 0;
        while i < self.arms.len()
            invariant
                0 <= i <= self.arms.len(),
                pieces.len() == i,
                forall|j: int|
                    0 <= j < i ==> (#[trigger] pieces[j])@ == self.arms[j]@.text(self.command@),
            decreases self.arms.len() - i,
        {
            pieces.push(self.arms[i].render(self.command.as_str()));
            i += 1;
        }
        assert(pieces.deep_view() =~= self@.arm_texts());
        let mut text = String::from_str(
            "#[::brug::async_trait]\nimpl<T: ::brug::Transport> ::brug::Performer<",
        );
        text.append(self.command.as_str());
        text.append("<T>> for ");
        text.append(self.receiver.as_str());
        text.append(" {\n    async fn perform(&mut self, command: ");
        text.append(self.command.as_str());
        text.append("<T>) {\n        match command {\n");
        push_each_followed(&mut text, &pieces, "");
        text.append("        }\n    }\n}\n");
        proof {
            reveal_strlit("");
            assert(""@ =~= Seq::<char>::empty());
        }
        text
    }
}

/// The dispatcher arm for a method.
pub fn dispatch_arm(method: &MethodDescriptor) -> (arm: DispatchArm)
    ensures
        arm@ == arm_of(method@),
{
    let mut bindings: Vec<String> = Vec::new();
    let mut i: usize = 0;
    while i < method.params.len()
        invariant
            0 <= i <= method.params.len(),
            bindings.len() == i,
            forall|j: int| 0 <= j < i ==> (#[trigger] bindings[j])@ == method.params[j].alias@,
        decreases method.params.len() - i,
    {
        bindings.push(method.params[i].alias.clone());
        i += 1;
    }
    assert(bindings.deep_view() =~= arm_of(method@).bindings);
    DispatchArm {
        tag: method.tag.clone(),
        bindings,
        method: method.name.clone(),
        awaited: method.suspends,
    }
}

/// The dispatcher of a receiver: one arm per method and no other.
pub fn dispatcher(receiver: &ReceiverDescriptor) -> (dispatcher: Dispatcher)
    ensures
        dispatcher@ == dispatcher_of(receiver@),
{
    let mut arms: Vec<DispatchArm> = Vec::new();
    let mut i: usize = 0;
    while i < receiver.methods.len()
        invariant
            0 <= i <= receiver.methods.len(),
            arms.len() == i,
            forall|j: int| 0 <= j < i ==> (#[trigger] arms[j])@ == arm_of(receiver.methods[j]@),
        decreases receiver.methods.len() - i,
    {
        arms.push(dispatch_arm(&receiver.methods[i]));
        i += 1;
    }
    assert(arms.deep_view() =~= dispatcher_of(receiver@).arms);
    Dispatcher { receiver: receiver.path(), command: receiver.command_name(), arms }
}

} // verus!
