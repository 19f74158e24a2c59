//! What the generators know of a receiver: its name and, for each method,
//! a normalised descriptor.

use vstd::prelude::*;
use vstd::string::StringExecFns;
use crate::alias::{alias, lemma_alias_injective, lemma_alias_not_response, response_slot};
use crate::casing::cased;

verus! {

/// One parameter of a method.
#[derive(Debug, Clone, PartialEq, Eq)]
pub struct Parameter {
    /// The declared type.
    pub ty: String,
    /// The name the parameter has in the method's declaration, or a name
    /// made up for it where it is declared with a pattern.
    pub name: String,
    /// Whether `name` is the name the parameter is declared with.
    pub declared: bool,
    /// The internal name under which a dispatcher binds the argument.
    pub alias: String,
}

/// What a [`Parameter`] holds, as a mathematical value.
pub struct ParameterView {
    pub ty: Seq<char>,
    pub name: Seq<char>,
    pub declared: bool,
    pub alias: Seq<char>,
}

impl View for Parameter {
    type V = ParameterView;

    open spec fn view(&self) -> ParameterView {
        ParameterView { ty: self.ty@, name: self.name@, declared: self.declared, alias: self.alias@ }
    }
}

impl DeepView for Parameter {
    type V = ParameterView;

    open spec fn deep_view(&self) -> ParameterView {
        self@
    }
}

/// One method of the receiver, as the generators see it.
#[derive(Debug, Clone, PartialEq, Eq)]
pub struct MethodDescriptor {
    /// The method's name.
    pub name: String,
    /// The tag of the method's command case.
    pub tag: String,
    /// The parameters other than the receiver, in declaration order.
    pub params: Vec<Parameter>,
    /// The return type; `()` where the method declares none.
    pub output: String,
    /// Whether calling the method suspends, so that a dispatcher has to
    /// await it.
    pub suspends: bool,
}

/// What a [`MethodDescriptor`] holds, as a mathematical value.
pub struct MethodView {
    pub name: Seq<char>,
    pub tag: Seq<char>,
    pub params: Seq<ParameterView>,
    pub output: Seq<char>,
    pub suspends: bool,
}

impl View for MethodDescriptor {
    type V = MethodView;

    open spec fn view(&self) -> MethodView {
        MethodView {
            name: self.name@,
            tag: self.tag@,
            params: self.params.deep_view(),
            output: self.output@,
            suspends: self.suspends,
        }
    }
}

impl DeepView for MethodDescriptor {
    type V = MethodView;

    open spec fn deep_view(&self) -> MethodView {
        self@
    }
}

impl MethodView {
    /// The names a dispatcher binds when it unpacks the method's command
    /// case: the aliases of the arguments, then the response slot.
    pub open spec fn bindings(self) -> Seq<Seq<char>> {
        Seq::new(self.params.len(), |i: int| self.params[i].alias).push(response_slot())
    }

    /// No two parameters are declared with the same name.
    pub open spec fn declared_apart(self) -> bool {
        forall|i: int, j: int|
            #![trigger self.params[i], self.params[j]]
            0 <= i < j < self.params.len() && self.params[i].declared && self.params[j].declared
                ==> self.params[i].name != self.params[j].name
    }

    /// The descriptor is in normal form: the tag is derived from the name,
    /// the argument at position `i` has the alias of position `i`, and a
    /// name that is made up for a parameter is the name of no other
    /// parameter.
    pub open spec fn wf(self) -> bool {
        &&& self.tag == cased(self.name)
        &&& forall|i: int|
            0 <= i < self.params.len() ==> (#[trigger] self.params[i]).alias == alias(i as nat)
        &&& forall|i: int, j: int|
            #![trigger self.params[i], self.params[j]]
            0 <= i < self.params.len() && 0 <= j < self.params.len() && i != j
                && !self.params[i].declared ==> self.params[i].name != self.params[j].name
    }
}

/// In a descriptor in normal form no two names that a dispatcher binds are
/// the same: the aliases differ from each other and from the response slot,
/// whatever names the parameters were declared with.
pub proof fn lemma_bindings_distinct(m: MethodView, i: int, j: int)
    requires
        m.wf(),
        0 <= i < j < m.bindings().len(),
    ensures
        m.bindings()[i] != m.bindings()[j],
{
    let n = m.params.len() as int;
    assert(m.bindings()[i] == m.params[i].alias);
    if j < n {
        assert(m.bindings()[j] == m.params[j].alias);
        if alias(i as nat) == alias(j as nat) {
            lemma_alias_injective(i as nat, j as nat);
        }
    } else {
        lemma_alias_not_response(i as nat);
    }
}

/// A receiver and its methods.
#[derive(Debug, Clone, PartialEq, Eq)]
pub struct ReceiverDescriptor {
    /// The part of the receiver's path that stands before its simple name;
    /// empty where the path is the simple name alone.
    pub qualifier: String,
    /// The receiver's simple name.
    pub name: String,
    /// The methods, in declaration order.
    pub methods: Vec<MethodDescriptor>,
}

/// What a [`ReceiverDescriptor`] holds, as a mathematical value.
pub struct ReceiverView {
    pub qualifier: Seq<char>,
    pub name: Seq<char>,
    pub methods: Seq<MethodView>,
}

impl View for ReceiverDescriptor {
    type V = ReceiverView;

    open spec fn view(&self) -> ReceiverView {
        ReceiverView {
            qualifier: self.qualifier@,
            name: self.name@,
            methods: self.methods.deep_view(),
        }
    }
}

impl ReceiverView {
    /// The receiver's qualified path.
    pub open spec fn path(self) -> Seq<char> {
        self.qualifier + self.name
    }

    /// The path of the command union.
    pub open spec fn command_name(self) -> Seq<char> {
        self.qualifier + self.name + "Command"@
    }

    /// The path of the shared-access facade.
    pub open spec fn facade_name(self) -> Seq<char> {
        self.qualifier + self.name + "Facade"@
    }

    /// The path of the exclusive-access facade.
    pub open spec fn facade_mut_name(self) -> Seq<char> {
        self.qualifier + self.name + "FacadeMut"@
    }

    /// Every method is in normal form.
    pub open spec fn wf(self) -> bool {
        forall|i: int| 0 <= i < self.methods.len() ==> (#[trigger] self.methods[i]).wf()
    }
}

impl ReceiverDescriptor {
    /// The receiver's qualified path.
    pub fn path(&self) -> (text: String)
        ensures
            text@ == self@.path(),
    {
        self.qualifier.clone().concat(self.name.as_str())
    }

    /// The path of the command union: the receiver's path with `Command`
    /// added to its simple name.
    pub fn command_name(&self) -> (text: String)
        ensures
            text@ == self@.command_name(),
    {
        self.path().concat("Command")
    }

    /// The path of the shared-access facade: the receiver's path with
    /// `Facade` added to its simple name.
    pub fn facade_name(&self) -> (text: String)
        ensures
            text@ == self@.facade_name(),
    {
        self.path().concat("Facade")
    }

    /// The path of the exclusive-access facade: the receiver's path with
    /// `FacadeMut` added to its simple name.
    pub fn facade_mut_name(&self) -> (text: String)
        ensures
            text@ == self@.facade_mut_name(),
    {
        self.path().concat("FacadeMut")
    }
}

} // verus!
