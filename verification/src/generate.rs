//! The generation step as a whole: from an interface definition to the
//! command union, the dispatcher, the two facades and the bridge between
//! them.

use vstd::prelude::*;
use vstd::string::StringExecFns;
use crate::alias::{distinct, response_slot};
use crate::casing::cased;
use crate::command::{command_union, union_of, CommandUnion, CommandUnionView};
use crate::descriptor::{lemma_bindings_distinct, ReceiverDescriptor, ReceiverView};
use crate::dispatch::{dispatcher, dispatcher_of, Dispatcher, DispatcherView};
use crate::error::{GenerationError, GenerationErrorView};
use crate::extract::{extract, extracted, lemma_extracted_wf};
use crate::facade::{
    lemma_wrapper_names_distinct,
    bridge,
    bridge_of,
    facade,
    facade_of,
    Bridge,
    BridgeView,
    Facade,
    FacadeView,
};
use crate::interface::{Interface, InterfaceView};

verus! {

/// What is generated for one receiver.
#[derive(Debug, Clone, PartialEq, Eq)]
pub struct Artifacts {
    /// The command union.
    pub union: CommandUnion,
    /// The dispatcher.
    pub dispatcher: Dispatcher,
    /// The shared-access facade.
    pub shared: Facade,
    /// The exclusive-access facade.
    pub exclusive: Facade,
    /// The bridge from the shared-access to the exclusive-access facade.
    pub bridge: Bridge,
}

/// What an [`Artifacts`] holds, as a mathematical value.
pub struct ArtifactsView {
    pub union: CommandUnionView,
    pub dispatcher: DispatcherView,
    pub shared: FacadeView,
    pub exclusive: FacadeView,
    pub bridge: BridgeView,
}

impl View for Artifacts {
    type V = ArtifactsView;

    open spec fn view(&self) -> ArtifactsView {
        ArtifactsView {
            union: self.union@,
            dispatcher: self.dispatcher@,
            shared: self.shared@,
            exclusive: self.exclusive@,
            bridge: self.bridge@,
        }
    }
}

/// The artifacts of a receiver.
pub open spec fn artifacts_of(receiver: ReceiverView) -> ArtifactsView {
    ArtifactsView {
        union: union_of(receiver),
        dispatcher: dispatcher_of(receiver),
        shared: facade_of(receiver, false),
        exclusive: facade_of(receiver, true),
        bridge: bridge_of(receiver),
    }
}

impl ArtifactsView {
    /// The artifacts as source text, after the text `source` of the
    /// definition they were made from: the definition itself, the command
    /// union, the dispatcher, the shared-access facade, the exclusive-access
    /// facade and the bridge, an empty line between each two.
    pub open spec fn text(self, source: Seq<char>) -> Seq<char> {
        source + "\n\n"@ + self.union.text() + "\n"@ + self.dispatcher.text() + "\n"@
            + self.shared.text() + "\n"@ + self.exclusive.text() + "\n"@ + self.bridge.text()
    }
}

/// What the generation step makes of the definition `definition` with the
/// source text `source`: the text of the artifacts, or the reason why the
/// definition is turned down.
pub open spec fn performed(source: Seq<char>, definition: InterfaceView) -> Result<
    Seq<char>,
    GenerationErrorView,
> {
    match extracted(definition) {
        Ok(receiver) => Ok(artifacts_of(receiver).text(source)),
        Err(error) => Err(error),
    }
}

/// `result` is what the generation step yields for `source` and
/// `definition`.
pub open spec fn yields(
    source: Seq<char>,
    definition: InterfaceView,
    result: Result<String, GenerationError>,
) -> bool {
    match result {
        Ok(text) => performed(source, definition) == Ok::<Seq<char>, GenerationErrorView>(text@),
        Err(error) => performed(source, definition) == Err::<Seq<char>, GenerationErrorView>(
            error@,
        ),
    }
}

impl Artifacts {
    /// The artifacts as source text, after the text of the definition they
    /// were made from.
    pub fn render(&self, source: &str) -> (text: String)
        ensures
            text@ == self@.text(source@),
    {
        let mut text = String::from_str(source);
        text.append("\n\n");
        text.append(self.union.render().as_str());
        text.append("\n");
        text.append(self.dispatcher.render().as_str());
        text.append("\n");
        text.append(self.shared.render().as_str());
        text.append("\n");
        text.append(self.exclusive.render().as_str());
        text.append("\n");
        text.append(self.bridge.render().as_str());
        text
    }
}

/// Generates the artifacts of a receiver.
pub fn generate(receiver: &ReceiverDescriptor) -> (artifacts: Artifacts)
    ensures
        artifacts@ == artifacts_of(receiver@),
{
    Artifacts {
        union: command_union(receiver),
        dispatcher: dispatcher(receiver),
        shared: facade(receiver, false),
        exclusive: facade(receiver, true),
        bridge: bridge(receiver),
    }
}

/// The generation step: reads the interface definition `definition`, whose
/// source text is `source`, and gives the source text of the definition
/// followed by its command union, dispatcher, facades and bridge. A
/// definition that extraction turns down yields the reason and no text.
pub fn performer(source: &str, definition: &Interface) -> (result: Result<
    String,
    GenerationError,
>)
    ensures
        yields(source@, definition@, result),
{
    match extract(definition) {
        Ok(receiver) => Ok(generate(&receiver).render(source)),
        Err(error) => Err(error),
    }
}

/// For every definition that is accepted, the command union has exactly one
/// case per extracted method descriptor, in the same order, and the tag of
/// each case is the capitalised-word form of the method's name.
pub proof fn lemma_one_case_per_method(definition: InterfaceView)
    ensures
        extracted(definition) matches Ok(receiver) ==> {
            &&& union_of(receiver).cases.len() == receiver.methods.len()
            &&& forall|i: int|
                0 <= i < receiver.methods.len() ==> (#[trigger] union_of(receiver).cases[i]).tag
                    == cased(receiver.methods[i].name)
        },
{
    lemma_extracted_wf(definition);
}

/// In what is generated for an accepted definition no argument is shadowed.
/// The names that a dispatcher arm binds, the aliases and the response slot,
/// are pairwise distinct, whatever the parameters are declared with. The
/// names that the wrapper of a method binds in either facade, the parameters
/// and the two halves of the pair, are pairwise distinct as long as no two
/// parameters of the method are declared with the same name.
pub proof fn lemma_bound_names_distinct(definition: InterfaceView, i: int)
    requires
        extracted(definition) is Ok,
        0 <= i < extracted(definition)->Ok_0.methods.len(),
    ensures
        ({
            let receiver = extracted(definition)->Ok_0;
            let method = receiver.methods[i];
            &&& distinct(dispatcher_of(receiver).arms[i].bindings.push(response_slot()))
            &&& method.declared_apart() ==> distinct(
                facade_of(receiver, false).methods[i].bindings(),
            ) && distinct(facade_of(receiver, true).methods[i].bindings())
        }),
{
    lemma_extracted_wf(definition);
    let receiver = extracted(definition)->Ok_0;
    let method = receiver.methods[i];
    assert(method.wf());
    let bound = dispatcher_of(receiver).arms[i].bindings.push(response_slot());
    assert(bound =~= method.bindings());
    assert forall|a: int, b: int| 0 <= a < b < bound.len() implies bound[a] != bound[b] by {
        lemma_bindings_distinct(method, a, b);
    }
    if method.declared_apart() {
        lemma_wrapper_names_distinct(method);
    }
}

/// Descriptors that hold the same give artifacts that hold the same: the
/// same names, the same cases, arms and wrappers in the same order, and so
/// the same text.
pub proof fn lemma_artifacts_repeatable(
    first: ReceiverDescriptor,
    second: ReceiverDescriptor,
    first_made: Artifacts,
    second_made: Artifacts,
    source: Seq<char>,
)
    requires
        first@ == second@,
        first_made@ == artifacts_of(first@),
        second_made@ == artifacts_of(second@),
    ensures
        first_made@ == second_made@,
        first_made@.text(source) == second_made@.text(source),
{
}

/// Generation is repeatable: two runs on the same definition and the same
/// source text end alike, with the same text or with the same rejection.
pub proof fn lemma_generation_repeatable(
    source: Seq<char>,
    definition: InterfaceView,
    first: Result<String, GenerationError>,
    second: Result<String, GenerationError>,
)
    requires
        yields(source, definition, first),
        yields(source, definition, second),
    ensures
        match (first, second) {
            (Ok(a), Ok(b)) => a@ == b@,
            (Err(a), Err(b)) => a@ == b@,
            _ => false,
        },
{
}

} // verus!
