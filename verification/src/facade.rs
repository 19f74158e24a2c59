//! The facades: the contracts through which callers reach a receiver. Each
//! method of the receiver becomes a call that builds a command, hands it to
//! `handle` and waits for the response.

use vstd::prelude::*;
use vstd::string::StringExecFns;
use crate::alias::{
    distinct,
    guard,
    guard_of,
    lemma_guard_keeps_apart,
    lemma_guard_keeps_clear,
    pair_slots,
    receiver_slot,
    sender_slot,
};
use crate::call::failure_message;
use crate::command::union_of;
use crate::descriptor::{MethodDescriptor, MethodView, ReceiverDescriptor, ReceiverView};
use crate::text::{each_followed, push_each_followed, push_separated, separated};

verus! {

/// One parameter of a facade method.
#[derive(Debug, Clone, PartialEq, Eq)]
pub struct FacadeParameter {
    /// The parameter's name.
    pub name: String,
    /// The parameter's type.
    pub ty: String,
}

/// What a [`FacadeParameter`] holds, as a mathematical value.
pub struct FacadeParameterView {
    pub name: Seq<char>,
    pub ty: Seq<char>,
}

impl View for FacadeParameter {
    type V = FacadeParameterView;

    open spec fn view(&self) -> FacadeParameterView {
        FacadeParameterView { name: self.name@, ty: self.ty@ }
    }
}

impl DeepView for FacadeParameter {
    type V = FacadeParameterView;

    open spec fn deep_view(&self) -> FacadeParameterView {
        self@
    }
}

/// One call wrapper of a facade.
#[derive(Debug, Clone, PartialEq, Eq)]
pub struct FacadeMethod {
    /// The name of the wrapper, which is the name of the method it stands
    /// for.
    pub name: String,
    /// The tag of the command case that the wrapper builds.
    pub tag: String,
    /// The parameters after the receiver, in order.
    pub params: Vec<FacadeParameter>,
    /// The return type.
    pub output: String,
    /// The name under which the wrapper holds the sender of its pair.
    pub sender: String,
    /// The name under which the wrapper holds the receiver of its pair.
    pub receiver: String,
}

/// What a [`FacadeMethod`] holds, as a mathematical value.
pub struct FacadeMethodView {
    pub name: Seq<char>,
    pub tag: Seq<char>,
    pub params: Seq<FacadeParameterView>,
    pub output: Seq<char>,
    pub sender: Seq<char>,
    pub receiver: Seq<char>,
}

impl View for FacadeMethod {
    type V = FacadeMethodView;

    open spec fn view(&self) -> FacadeMethodView {
        FacadeMethodView {
            name: self.name@,
            tag: self.tag@,
            params: self.params.deep_view(),
            output: self.output@,
            sender: self.sender@,
            receiver: self.receiver@,
        }
    }
}

impl DeepView for FacadeMethod {
    type V = FacadeMethodView;

    open spec fn deep_view(&self) -> FacadeMethodView {
        self@
    }
}

/// A facade contract: the call wrappers and the one entry point `handle`
/// that an adapter has to supply.
#[derive(Debug, Clone, PartialEq, Eq)]
pub struct Facade {
    /// The path of the facade.
    pub name: String,
    /// The path of the command union.
    pub command: String,
    /// Whether the facade asks for exclusive access to the adapter
    /// (`&mut self`) or is content with shared access (`&self`).
    pub exclusive: bool,
    /// The call wrappers, in the declaration order of the methods.
    pub methods: Vec<FacadeMethod>,
}

/// What a [`Facade`] holds, as a mathematical value.
pub struct FacadeView {
    pub name: Seq<char>,
    pub command: Seq<char>,
    pub exclusive: bool,
    pub methods: Seq<FacadeMethodView>,
}

impl View for Facade {
    type V = FacadeView;

    open spec fn view(&self) -> FacadeView {
        FacadeView {
            name: self.name@,
            command: self.command@,
            exclusive: self.exclusive,
            methods: self.methods.deep_view(),
        }
    }
}

/// The rule by which whatever offers the shared-access facade, and is safe
/// to share between threads, offers the exclusive-access facade too.
#[derive(Debug, Clone, PartialEq, Eq)]
pub struct Bridge {
    /// The path of the shared-access facade.
    pub shared: String,
    /// The path of the exclusive-access facade.
    pub exclusive: String,
    /// The path of the command union.
    pub command: String,
}

/// What a [`Bridge`] holds, as a mathematical value.
pub struct BridgeView {
    pub shared: Seq<char>,
    pub exclusive: Seq<char>,
    pub command: Seq<char>,
}

impl View for Bridge {
    type V = BridgeView;

    open spec fn view(&self) -> BridgeView {
        BridgeView { shared: self.shared@, exclusive: self.exclusive@, command: self.command@ }
    }
}

/// The names of the parameters of a method, in order.
pub open spec fn parameter_names(method: MethodView) -> Seq<Seq<char>> {
    Seq::new(method.params.len(), |i: int| method.params[i].name)
}

/// What a wrapper for `method` adds to the two names it keeps for its pair:
/// nothing, as long as no parameter has one of them, and else the guard that
/// keeps both clear of every parameter.
pub open spec fn pair_guard(method: MethodView) -> Seq<char> {
    guard(pair_slots(), parameter_names(method))
}

/// The call wrapper for a method: same name, same parameters under their
/// names, same return type, and for its pair two names that no parameter
/// has.
pub open spec fn wrapper_of(method: MethodView) -> FacadeMethodView {
    FacadeMethodView {
        name: method.name,
        tag: method.tag,
        params: Seq::new(
            method.params.len(),
            |i: int| FacadeParameterView { name: method.params[i].name, ty: method.params[i].ty },
        ),
        output: method.output,
        sender: sender_slot() + pair_guard(method),
        receiver: receiver_slot() + pair_guard(method),
    }
}

/// The facade of a receiver, for shared or for exclusive access: one call
/// wrapper per method, in declaration order.
pub open spec fn facade_of(receiver: ReceiverView, exclusive: bool) -> FacadeView {
    FacadeView {
        name: if exclusive {
            receiver.facade_mut_name()
        } else {
            receiver.facade_name()
        },
        command: receiver.command_name(),
        exclusive,
        methods: Seq::new(receiver.methods.len(), |i: int| wrapper_of(receiver.methods[i])),
    }
}

/// The bridge between the two facades of a receiver.
pub open spec fn bridge_of(receiver: ReceiverView) -> BridgeView {
    BridgeView {
        shared: receiver.facade_name(),
        exclusive: receiver.facade_mut_name(),
        command: receiver.command_name(),
    }
}

/// The two facades of a receiver differ in their name and in the access
/// they ask for, and in nothing else.
pub proof fn lemma_facades_agree(receiver: ReceiverView)
    ensures
        facade_of(receiver, true).methods == facade_of(receiver, false).methods,
        facade_of(receiver, true).command == facade_of(receiver, false).command,
        facade_of(receiver, false).methods.len() == receiver.methods.len(),
{
}

/// Each call wrapper fits the command case of its method: it has the
/// method's name and return type, builds the case with the method's tag, and
/// takes one parameter for each argument field, of the field's type and in
/// the field's place. So what a wrapper hands to `handle` is a command of
/// the union, and what comes back has the type the caller is promised.
pub proof fn lemma_wrappers_fit_cases(receiver: ReceiverView, exclusive: bool)
    ensures
        facade_of(receiver, exclusive).command == union_of(receiver).name,
        facade_of(receiver, exclusive).methods.len() == union_of(receiver).cases.len(),
        forall|i: int|
            0 <= i < receiver.methods.len() ==> {
                let wrapper = #[trigger] facade_of(receiver, exclusive).methods[i];
                let case = union_of(receiver).cases[i];
                &&& wrapper.name == receiver.methods[i].name
                &&& wrapper.tag == case.tag
                &&& wrapper.output == case.response
                &&& wrapper.params.len() == case.fields.len()
                &&& forall|j: int|
                    0 <= j < wrapper.params.len() ==> (#[trigger] wrapper.params[j]).ty
                        == case.fields[j]
            },
{
}

/// The two names that a wrapper keeps for its pair differ from each other
/// and from the name of every parameter, whatever the parameters are named.
pub proof fn lemma_pair_names_keep_clear(method: MethodView)
    ensures
        wrapper_of(method).sender != wrapper_of(method).receiver,
        forall|i: int|
            0 <= i < method.params.len() ==> {
                &&& wrapper_of(method).sender != (#[trigger] method.params[i]).name
                &&& wrapper_of(method).receiver != method.params[i].name
            },
{
    reveal_strlit("__brug_s");
    reveal_strlit("__brug_r");
    let names = parameter_names(method);
    assert(sender_slot() != receiver_slot()) by {
        assert(sender_slot()[7] == 's');
        assert(receiver_slot()[7] == 'r');
    }
    lemma_guard_keeps_apart(sender_slot(), receiver_slot(), pair_guard(method));
    assert forall|i: int| 0 <= i < method.params.len() implies {
        &&& wrapper_of(method).sender != (#[trigger] method.params[i]).name
        &&& wrapper_of(method).receiver != method.params[i].name
    } by {
        assert(names[i] == method.params[i].name);
        assert(pair_slots()[0] == sender_slot());
        assert(pair_slots()[1] == receiver_slot());
        lemma_guard_keeps_clear(pair_slots(), names, 0, i);
        lemma_guard_keeps_clear(pair_slots(), names, 1, i);
    }
}

/// In the wrapper of a method in normal form no argument is shadowed: where
/// no two parameters are declared with the same name, no two names that the
/// wrapper binds are the same. A parameter may be named like an alias, like
/// the response slot or like a name that wrappers keep for their pair, and
/// may stand beside pattern parameters.
pub proof fn lemma_wrapper_names_distinct(method: MethodView)
    requires
        method.wf(),
        method.declared_apart(),
    ensures
        distinct(wrapper_of(method).bindings()),
{
    lemma_pair_names_keep_clear(method);
    let wrapper = wrapper_of(method);
    let bound = wrapper.bindings();
    let n = method.params.len() as int;
    assert forall|i: int, j: int| 0 <= i < j < bound.len() implies bound[i] != bound[j] by {
        if j < n {
            assert(bound[i] == method.params[i].name);
            assert(bound[j] == method.params[j].name);
            if method.params[i].declared && method.params[j].declared {
            } else if !method.params[i].declared {
                assert(method.params[i].name != method.params[j].name);
            } else {
                assert(method.params[j].name != method.params[i].name);
            }
        } else if i < n {
            assert(bound[i] == method.params[i].name);
        }
    }
}

/// How a facade's methods take the adapter.
pub open spec fn access_text(exclusive: bool) -> Seq<char> {
    if exclusive {
        "&mut self"@
    } else {
        "&self"@
    }
}

impl FacadeParameterView {
    /// The parameter as it stands in a signature.
    pub open spec fn text(self) -> Seq<char> {
        self.name + ": "@ + self.ty
    }
}

impl FacadeMethodView {
    /// The parameters as they stand in the signature, in order.
    pub open spec fn declarations(self) -> Seq<Seq<char>> {
        Seq::new(self.params.len(), |i: int| self.params[i].text())
    }

    /// The parameters' names, in order.
    pub open spec fn names(self) -> Seq<Seq<char>> {
        Seq::new(self.params.len(), |i: int| self.params[i].name)
    }

    /// The names that the wrapper binds: its parameters, then the sender and
    /// the receiver of the pair it makes.
    pub open spec fn bindings(self) -> Seq<Seq<char>> {
        self.names().push(self.sender).push(self.receiver)
    }

    /// The call wrapper as source text, in a facade for the command union
    /// `command`. Its body makes a fresh transport pair, hands `handle` the
    /// command case with the caller's arguments and the sender, waits on the
    /// receiver, and fails with the method's failure message where no value
    /// was delivered.
    pub open spec fn text(self, command: Seq<char>, exclusive: bool) -> Seq<char> {
        "    async fn "@ + self.name + "("@ + access_text(exclusive) + ", "@ + separated(
            self.declarations(),
            ", "@,
        ) + ") -> "@ + self.output + " {\n        let ("@ + self.sender + ", "@ + self.receiver
            + ") = T::pair();\n        self.handle("@ + command + "::"@ + self.tag + "("@
            + each_followed(self.names(), ", "@) + self.sender
            + ")).await;\n        ::brug::Receiver::receive("@ + self.receiver
            + ").await.expect(\""@ + failure_message(self.name) + "\")\n    }\n"@
    }
}

impl FacadeView {
    /// The source texts of the call wrappers, in order.
    pub open spec fn method_texts(self) -> Seq<Seq<char>> {
        Seq::new(self.methods.len(), |i: int| self.methods[i].text(self.command, self.exclusive))
    }

    /// The facade as source text: a trait over a transport `T` with the
    /// call wrappers as provided methods and `handle` as the one required
    /// method.
    pub open spec fn text(self) -> Seq<char> {
        "#[::brug::async_trait]\npub trait "@ + self.name + "<T: ::brug::Transport> {\n"@
            + each_followed(self.method_texts(), "\n"@) + "    async fn handle("@ + access_text(
            self.exclusive,
        ) + ", command: "@ + self.command + "<T>);\n}\n"@
    }
}

impl BridgeView {
    /// The bridge as source text: `handle` of the exclusive-access facade
    /// passes the command on to `handle` of the shared-access facade.
    pub open spec fn text(self) -> Seq<char> {
        "#[::brug::async_trait]\nimpl<T: ::brug::Transport, F: "@ + self.shared
            + "<T> + Send + Sync> "@ + self.exclusive
            + "<T> for F {\n    async fn handle(&mut self, command: "@ + self.command
            + "<T>) {\n        "@ + self.shared + "::handle(self, command).await;\n    }\n}\n"@
    }
}

fn access_str(exclusive: bool) -> (text: &'static str)
    ensures
        text@ == access_text(exclusive),
{
    if exclusive {
        "&mut self"
    } else {
        "&self"
    }
}

impl FacadeMethod {
    /// The call wrapper as source text.
    pub fn render(&self, command: &str, exclusive: bool) -> (text: String)
        ensures
            text@ == self@.text(command@, exclusive),
    {
        let mut declarations: Vec<String> = Vec::new();
        let mut names: Vec<String> = Vec::new();
        let mut i: usize = 0;
        while i < self.params.len()
            invariant
                0 <= i <= self.params.len(),
                declarations.len() == i,
                names.len() == i,
                forall|j: int|
                    0 <= j < i ==> (#[trigger] declarations[j])@ == self.params[j]@.text(),
                forall|j: int| 0 <= j < i ==> (#[trigger] names[j])@ == self.params[j].name@,
            decreases self.params.len() - i,
        {
            let parameter = &self.params[i];
            declarations.push(
                parameter.name.clone().concat(": ").concat(parameter.ty.as_str()),
            );
            names.push(parameter.name.clone());
            i += 1;
        }
        assert(declarations.deep_view() =~= self@.declarations());
        assert(names.deep_view() =~= self@.names());
        let mut text = String::from_str("    async fn ");
        text.append(self.name.as_str());
        text.append("(");
        text.append(access_str(exclusive));
        text.append(", ");
        push_separated(&mut text, &declarations, ", ");
        text.append(") -> ");
        text.append(self.output.as_str());
        text.append(" {\n        let (");
        text.append(self.sender.as_str());
        text.append(", ");
        text.append(self.receiver.as_str());
        text.append(") = T::pair();\n        self.handle(");
        text.append(command);
        text.append("::");
        text.append(self.tag.as_str());
        text.append("(");
        push_each_followed(&mut text, &names, ", ");
        text.append(self.sender.as_str());
        text.append(")).await;\n        ::brug::Receiver::receive(");
        text.append(self.receiver.as_str());
        text.append(").await.expect(\"");
        text.append("call to ");
        text.append(self.name.as_str());
        text.append(" produced no result");
        text.append("\")\n    }\n");
        assert(text@ =~= self@.text(command@, exclusive));
        text
    }
}

impl Facade {
    /// The facade as source text.
    pub fn render(&self) -> (text: String)
        ensures
            text@ == self@.text(),
    {
        let mut pieces: Vec<String> = Vec::new();
        let mut i: usize = 0;
        while i < self.methods.len()
            invariant
                0 <= i <= self.methods.len(),
                pieces.len() == i,
                forall|j: int|
                    0 <= j < i ==> (#[trigger] pieces[j])@ == self.methods[j]@.text(
                        self.command@,
                        self.exclusive,
                    ),
            decreases self.methods.len() - i,
        {
            pieces.push(self.methods[i].render(self.command.as_str(), self.exclusive));
            i += 1;
        }
        assert(pieces.deep_view() =~= self@.method_texts());
        let mut text = String::from_str("#[::brug::async_trait]\npub trait ");
        text.append(self.name.as_str());
        text.append("<T: ::brug::Transport> {\n");
        push_each_followed(&mut text, &pieces, "\n");
        text.append("    async fn handle(");
        text.append(access_str(self.exclusive));
        text.append(", command: ");
        text.append(self.command.as_str());
        text.append("<T>);\n}\n");
        text
    }
}

impl Bridge {
    /// The bridge as source text.
    pub fn render(&self) -> (text: String)
        ensures
            text@ == self@.text(),
    {
        let mut text = String::from_str("#[::brug::async_trait]\nimpl<T: ::brug::Transport, F: ");
        text.append(self.shared.as_str());
        text.append("<T> + Send + Sync> ");
        text.append(self.exclusive.as_str());
        text.append("<T> for F {\n    async fn handle(&mut self, command: ");
        text.append(self.command.as_str());
        text.append("<T>) {\n        ");
        text.append(self.shared.as_str());
        text.append("::handle(self, command).await;\n    }\n}\n");
        text
    }
}

/// The call wrapper for a method.
pub fn facade_method(method: &MethodDescriptor) -> (wrapper: FacadeMethod)
    ensures
        wrapper@ == wrapper_of(method@),
{
    let mut params: Vec<FacadeParameter> = Vec::new();
    let mut names: Vec<String> = Vec::new();
    let mut i: usize = 0;
    while i < method.params.len()
        invariant
            0 <= i <= method.params.len(),
            params.len() == i,
            names.len() == i,
            forall|j: int|
                0 <= j < i ==> (#[trigger] params[j])@ == (FacadeParameterView {
                    name: method.params[j].name@,
                    ty: method.params[j].ty@,
                }),
            forall|j: int| 0 <= j < i ==> (#[trigger] names[j])@ == method.params[j].name@,
        decreases method.params.len() - i,
    {
        let parameter = &method.params[i];
        params.push(FacadeParameter { name: parameter.name.clone(), ty: parameter.ty.clone() });
        names.push(parameter.name.clone());
        i += 1;
    }
    assert(params.deep_view() =~= wrapper_of(method@).params);
    assert(names.deep_view() =~= parameter_names(method@));
    let mut slots: Vec<String> = Vec::new();
    slots.push(String::from_str("__brug_s"));
    slots.push(String::from_str("__brug_r"));
    assert(slots.deep_view() =~= pair_slots());
    let pad = guard_of(&slots, &names);
    FacadeMethod {
        name: method.name.clone(),
        tag: method.tag.clone(),
        params,
        output: method.output.clone(),
        sender: String::from_str("__brug_s").concat(pad.as_str()),
        receiver: String::from_str("__brug_r").concat(pad.as_str()),
    }
}

/// The facade of a receiver, for exclusive access where `exclusive` is set
/// and for shared access where it is not.
pub fn facade(receiver: &ReceiverDescriptor, exclusive: bool) -> (facade: Facade)
    ensures
        facade@ == facade_of(receiver@, exclusive),
{
    let mut methods: Vec<FacadeMethod> = Vec::new();
    let mut i: usize = 0;
    while i < receiver.methods.len()
        invariant
            0 <= i <= receiver.methods.len(),
            methods.len() == i,
            forall|j: int|
                0 <= j < i ==> (#[trigger] methods[j])@ == wrapper_of(receiver.methods[j]@),
        decreases receiver.methods.len() - i,
    {
        methods.push(facade_method(&receiver.methods[i]));
        i += 1;
    }
    assert(methods.deep_view() =~= facade_of(receiver@, exclusive).methods);
    Facade {
        name: if exclusive {
            receiver.facade_mut_name()
        } else {
            receiver.facade_name()
        },
        command: receiver.command_name(),
        exclusive,
        methods,
    }
}

/// The bridge between the two facades of a receiver.
pub fn bridge(receiver: &ReceiverDescriptor) -> (bridge: Bridge)
    ensures
        bridge@ == bridge_of(receiver@),
{
    Bridge {
        shared: receiver.facade_name(),
        exclusive: receiver.facade_mut_name(),
        command: receiver.command_name(),
    }
}

} // verus!
