//! The signature extractor: from an interface definition to the receiver's
//! descriptor, or to the reason why the definition is turned down.

use vstd::prelude::*;
use vstd::string::StringExecFns;
use crate::alias::{
    alias,
    alias_name,
    guard,
    guard_of,
    lemma_alias_injective,
    lemma_decimal_len,
    lemma_guard_keeps_apart,
    lemma_guard_keeps_clear,
};
use crate::casing::{cased, change_casing};
use crate::descriptor::{
    MethodDescriptor,
    MethodView,
    Parameter,
    ParameterView,
    ReceiverDescriptor,
    ReceiverView,
};
use crate::error::{GenerationError, GenerationErrorView};
use crate::interface::{
    Argument,
    ArgumentView,
    Interface,
    InterfaceView,
    Member,
    MemberView,
    PathSegment,
    PathSegmentView,
    ReceiverType,
    ReceiverTypeView,
    Signature,
    SignatureView,
};

verus! {

/// A path segment as text: the identifier, then the generic arguments where
/// there are any.
pub open spec fn segment_text(segment: PathSegmentView) -> Seq<char> {
    match segment.arguments {
        Some(arguments) => segment.ident + arguments,
        None => segment.ident,
    }
}

/// The given segments as text, each followed by a path separator.
pub open spec fn prefix_text(segments: Seq<PathSegmentView>) -> Seq<char>
    decreases segments.len(),
{
    if segments.len() == 0 {
        Seq::empty()
    } else {
        prefix_text(segments.drop_last()) + segment_text(segments.last()) + "::"@
    }
}

/// What stands before the last segment of a path: the leading separator
/// where the path has one, then the segments before the last.
pub open spec fn qualifier_text(leading_colon: bool, segments: Seq<PathSegmentView>) -> Seq<char> {
    (if leading_colon {
        "::"@
    } else {
        Seq::empty()
    }) + prefix_text(segments.drop_last())
}

/// A whole path as text.
pub open spec fn path_text(leading_colon: bool, segments: Seq<PathSegmentView>) -> Seq<char> {
    qualifier_text(leading_colon, segments) + segment_text(segments.last())
}

/// The number of typed arguments among `inputs`.
pub open spec fn typed_count(inputs: Seq<ArgumentView>) -> nat
    decreases inputs.len(),
{
    if inputs.len() == 0 {
        0
    } else {
        typed_count(inputs.drop_last()) + (if inputs.last() is Typed {
            1nat
        } else {
            0nat
        })
    }
}

/// The names with which typed arguments are declared, in order.
pub open spec fn declared_names(inputs: Seq<ArgumentView>) -> Seq<Seq<char>>
    decreases inputs.len(),
{
    if inputs.len() == 0 {
        Seq::empty()
    } else {
        let before = declared_names(inputs.drop_last());
        match inputs.last() {
            ArgumentView::Typed { name: Some(name), .. } => before.push(name),
            _ => before,
        }
    }
}

/// The aliases of the arguments that are declared with a pattern, in order.
pub open spec fn pattern_aliases(inputs: Seq<ArgumentView>) -> Seq<Seq<char>>
    decreases inputs.len(),
{
    if inputs.len() == 0 {
        Seq::empty()
    } else {
        let before = pattern_aliases(inputs.drop_last());
        match inputs.last() {
            ArgumentView::Typed { name: None, .. } => before.push(
                alias(typed_count(inputs.drop_last())),
            ),
            _ => before,
        }
    }
}

/// The parameters of a method whose made-up names end in `pad`: its typed
/// arguments in order, the receiver left out. Each gets the alias of its
/// position among them. It keeps its declared name where it has one, and is
/// else named by its alias with `pad` added.
pub open spec fn parameters_with(inputs: Seq<ArgumentView>, pad: Seq<char>) -> Seq<ParameterView>
    decreases inputs.len(),
{
    if inputs.len() == 0 {
        Seq::empty()
    } else {
        let before = parameters_with(inputs.drop_last(), pad);
        match inputs.last() {
            ArgumentView::Receiver => before,
            ArgumentView::Typed { name, ty } => before.push(
                ParameterView {
                    ty,
                    name: match name {
                        Some(name) => name,
                        None => alias(before.len()) + pad,
                    },
                    declared: name is Some,
                    alias: alias(before.len()),
                },
            ),
        }
    }
}

/// The parameters of a method. A parameter that is declared with a pattern
/// is named by its alias, as long as no parameter of the method is declared
/// with the alias of a pattern parameter. Where one is, each such alias gets
/// the guard added that keeps it clear of every declared name.
pub open spec fn parameters(inputs: Seq<ArgumentView>) -> Seq<ParameterView> {
    parameters_with(inputs, guard(pattern_aliases(inputs), declared_names(inputs)))
}

/// The descriptor of a method with the given signature.
pub open spec fn described(signature: SignatureView) -> MethodView {
    MethodView {
        name: signature.name,
        tag: cased(signature.name),
        params: parameters(signature.inputs),
        output: match signature.output {
            Some(ty) => ty,
            None => "()"@,
        },
        suspends: signature.suspends,
    }
}

/// Why a member of the receiver `receiver` cannot be turned into a command
/// case, if anything stands against it: generic parameters first, then a
/// variadic tail.
pub open spec fn member_rejection(receiver: Seq<char>, member: MemberView) -> Option<
    GenerationErrorView,
> {
    match member {
        MemberView::Method(signature) => {
            if signature.generics > 0 {
                Some(GenerationErrorView::GenericMethod { receiver, method: signature.name })
            } else if signature.variadic {
                Some(GenerationErrorView::VariadicMethod { receiver, method: signature.name })
            } else {
                None
            }
        },
        MemberView::Other => None,
    }
}

/// The rejection of the first member, in declaration order, that has one.
pub open spec fn first_rejection(receiver: Seq<char>, members: Seq<MemberView>) -> Option<
    GenerationErrorView,
>
    decreases members.len(),
{
    if members.len() == 0 {
        None
    } else {
        match first_rejection(receiver, members.drop_last()) {
            Some(error) => Some(error),
            None => member_rejection(receiver, members.last()),
        }
    }
}

/// The descriptors of the methods among `members`, in declaration order.
pub open spec fn methods_of(members: Seq<MemberView>) -> Seq<MethodView>
    decreases members.len(),
{
    if members.len() == 0 {
        Seq::empty()
    } else {
        let before = methods_of(members.drop_last());
        match members.last() {
            MemberView::Method(signature) => before.push(described(signature)),
            MemberView::Other => before,
        }
    }
}

/// What extraction makes of an interface definition.
///
/// The definition is turned down where its receiver type is not named by a
/// path with at least one segment, where the last segment of that path has
/// generic arguments, and where a method declares generic parameters or a
/// variadic tail; of several faulty methods the first is reported. Any other
/// definition yields the receiver's descriptor.
pub open spec fn extracted(definition: InterfaceView) -> Result<ReceiverView, GenerationErrorView> {
    match definition.receiver {
        ReceiverTypeView::Other => Err(GenerationErrorView::UnrecognizedImpl),
        ReceiverTypeView::Path { leading_colon, segments } => {
            if segments.len() == 0 {
                Err(GenerationErrorView::UnrecognizedImpl)
            } else if segments.last().arguments is Some {
                Err(
                    GenerationErrorView::GenericReceiver {
                        receiver: path_text(leading_colon, segments),
                    },
                )
            } else {
                match first_rejection(path_text(leading_colon, segments), definition.members) {
                    Some(error) => Err(error),
                    None => Ok(
                        ReceiverView {
                            qualifier: qualifier_text(leading_colon, segments),
                            name: segments.last().ident,
                            methods: methods_of(definition.members),
                        },
                    ),
                }
            }
        },
    }
}

/// What `parameters_with` makes of each typed argument: the parameter at
/// position `k` has the alias of position `k`; a declared name is one of the
/// declared names; a made-up name is the alias with `pad` added, and that
/// alias is one of the aliases of the pattern arguments.
pub proof fn lemma_parameters_with(inputs: Seq<ArgumentView>, pad: Seq<char>)
    ensures
        parameters_with(inputs, pad).len() == typed_count(inputs),
        typed_count(inputs) <= inputs.len(),
        forall|k: int|
            0 <= k < parameters_with(inputs, pad).len() ==> {
                let parameter = #[trigger] parameters_with(inputs, pad)[k];
                &&& parameter.alias == alias(k as nat)
                &&& parameter.declared ==> declared_names(inputs).contains(parameter.name)
                &&& !parameter.declared ==> parameter.name == alias(k as nat) + pad
                    && pattern_aliases(inputs).contains(alias(k as nat))
            },
    decreases inputs.len(),
{
    if inputs.len() > 0 {
        let shorter = inputs.drop_last();
        lemma_parameters_with(shorter, pad);
        let before = parameters_with(shorter, pad);
        let all = parameters_with(inputs, pad);
        assert forall|k: int| 0 <= k < all.len() implies {
            let parameter = #[trigger] all[k];
            &&& parameter.alias == alias(k as nat)
            &&& parameter.declared ==> declared_names(inputs).contains(parameter.name)
            &&& !parameter.declared ==> parameter.name == alias(k as nat) + pad
                && pattern_aliases(inputs).contains(alias(k as nat))
        } by {
            let parameter = all[k];
            if k < before.len() {
                assert(parameter == before[k]);
                if parameter.declared {
                    let d = choose|d: int|
                        0 <= d < declared_names(shorter).len() && declared_names(shorter)[d]
                            == parameter.name;
                    assert(declared_names(inputs)[d] == parameter.name);
                } else {
                    let f = choose|f: int|
                        0 <= f < pattern_aliases(shorter).len() && pattern_aliases(shorter)[f]
                            == alias(k as nat);
                    assert(pattern_aliases(inputs)[f] == alias(k as nat));
                }
            } else {
                if parameter.declared {
                    assert(declared_names(inputs).last() == parameter.name);
                } else {
                    assert(pattern_aliases(inputs).last() == alias(k as nat));
                }
            }
        }
    }
}

/// A name that is made up for a parameter is the name of no other parameter
/// of the method, whatever the other parameters are declared with.
pub proof fn lemma_made_up_names_keep_clear(inputs: Seq<ArgumentView>, i: int, j: int)
    requires
        0 <= i < parameters(inputs).len(),
        0 <= j < parameters(inputs).len(),
        i != j,
        !parameters(inputs)[i].declared,
    ensures
        parameters(inputs)[i].name != parameters(inputs)[j].name,
{
    let made_up = pattern_aliases(inputs);
    let taken = declared_names(inputs);
    let pad = guard(made_up, taken);
    lemma_parameters_with(inputs, pad);
    let here = parameters(inputs)[i];
    let there = parameters(inputs)[j];
    if there.declared {
        let f = choose|f: int| 0 <= f < made_up.len() && made_up[f] == alias(i as nat);
        let d = choose|d: int| 0 <= d < taken.len() && taken[d] == there.name;
        lemma_decimal_len(i as nat);
        lemma_guard_keeps_clear(made_up, taken, f, d);
    } else {
        if alias(i as nat) == alias(j as nat) {
            lemma_alias_injective(i as nat, j as nat);
        }
        lemma_guard_keeps_apart(alias(i as nat), alias(j as nat), pad);
    }
}

/// Every method descriptor that extraction makes is in normal form.
pub proof fn lemma_described_wf(signature: SignatureView)
    ensures
        described(signature).wf(),
{
    let inputs = signature.inputs;
    lemma_parameters_with(inputs, guard(pattern_aliases(inputs), declared_names(inputs)));
    let method = described(signature);
    assert forall|i: int, j: int|
        #![trigger method.params[i], method.params[j]]
        0 <= i < method.params.len() && 0 <= j < method.params.len() && i != j
            && !method.params[i].declared implies method.params[i].name
        != method.params[j].name by {
        lemma_made_up_names_keep_clear(inputs, i, j);
    }
}

/// There are no more descriptors than members, and each is in normal form.
pub proof fn lemma_methods_of_wf(members: Seq<MemberView>)
    ensures
        methods_of(members).len() <= members.len(),
        forall|i: int|
            0 <= i < methods_of(members).len() ==> (#[trigger] methods_of(members)[i]).wf(),
    decreases members.len(),
{
    if members.len() > 0 {
        lemma_methods_of_wf(members.drop_last());
        match members.last() {
            MemberView::Method(signature) => {
                lemma_described_wf(signature);
            },
            MemberView::Other => {},
        }
    }
}

/// Whatever extraction accepts comes out in normal form.
pub proof fn lemma_extracted_wf(definition: InterfaceView)
    ensures
        extracted(definition) matches Ok(receiver) ==> receiver.wf(),
{
    lemma_methods_of_wf(definition.members);
}

/// No member stands against extraction exactly where no method among the
/// members declares generic parameters or a variadic tail.
pub proof fn lemma_first_rejection(receiver: Seq<char>, members: Seq<MemberView>)
    ensures
        first_rejection(receiver, members) is None <==> (forall|i: int|
            0 <= i < members.len() ==> (#[trigger] members[i] matches MemberView::Method(signature)
                ==> signature.generics == 0 && !signature.variadic)),
    decreases members.len(),
{
    if members.len() > 0 {
        let shorter = members.drop_last();
        lemma_first_rejection(receiver, shorter);
        if first_rejection(receiver, members) is None {
            assert forall|i: int| 0 <= i < members.len() implies (#[trigger] members[i] matches MemberView::Method(
                signature,
            ) ==> signature.generics == 0 && !signature.variadic) by {
                if i < shorter.len() {
                    assert(members[i] == shorter[i]);
                }
            }
        } else if first_rejection(receiver, shorter) is None {
            assert(members[members.len() - 1] == members.last());
        } else {
            let i = choose|i: int|
                0 <= i < shorter.len() && !(#[trigger] shorter[i] matches MemberView::Method(
                    signature,
                ) ==> signature.generics == 0 && !signature.variadic);
            assert(members[i] == shorter[i]);
        }
    }
}

/// Extraction yields a descriptor for every definition whose receiver is
/// named by a path with at least one segment and no generic arguments on the
/// last, and whose methods declare neither generic parameters nor a variadic
/// tail; and for no other.
pub proof fn lemma_extracted_ok(definition: InterfaceView)
    ensures
        extracted(definition) is Ok <==> {
            &&& definition.receiver matches ReceiverTypeView::Path { segments, .. }
            &&& segments.len() > 0
            &&& segments.last().arguments is None
            &&& forall|i: int|
                0 <= i < definition.members.len() ==> (
                #[trigger] definition.members[i] matches MemberView::Method(signature)
                    ==> signature.generics == 0 && !signature.variadic)
        },
{
    if let ReceiverTypeView::Path { leading_colon, segments } = definition.receiver {
        lemma_first_rejection(path_text(leading_colon, segments), definition.members);
    }
}

fn segment_string(segment: &PathSegment) -> (text: String)
    ensures
        text@ == segment_text(segment@),
{
    match &segment.arguments {
        Some(arguments) => segment.ident.clone().concat(arguments.as_str()),
        None => segment.ident.clone(),
    }
}

fn qualifier_string(leading_colon: bool, segments: &Vec<PathSegment>) -> (text: String)
    requires
        segments.len() >= 1,
    ensures
        text@ == qualifier_text(leading_colon, segments.deep_view()),
{
    let mut text = if leading_colon {
        String::from_str("::")
    } else {
        String::new()
    };
    let ghost lead = text@;
    let ghost all = segments.deep_view();
    let last = segments.len() - 1;
    let mut i: usize = 0;
    while i < last
        invariant
            last == segments.len() - 1,
            all == segments.deep_view(),
            0 <= i <= last,
            text@ == lead + prefix_text(all.take(i as int)),
        decreases last - i,
    {
        let piece = segment_string(&segments[i]);
        text.append(piece.as_str());
        text.append("::");
        proof {
            let next = all.take(i + 1);
            assert(next.drop_last() =~= all.take(i as int));
            assert(next.last() == segments[i as int]@);
            assert(text@ =~= lead + prefix_text(next));
        }
        i += 1;
    }
    proof {
        assert(all.take(last as int) =~= all.drop_last());
    }
    text
}

fn parameters_of(inputs: &Vec<Argument>) -> (params: Vec<Parameter>)
    ensures
        params.deep_view() == parameters(inputs.deep_view()),
{
    let ghost all = inputs.deep_view();
    let mut taken: Vec<String> = Vec::new();
    let mut made_up: Vec<String> = Vec::new();
    let mut position: usize = 0;
    let mut i: usize = 0;
    assert(taken.deep_view() =~= declared_names(all.take(0)));
    assert(made_up.deep_view() =~= pattern_aliases(all.take(0)));
    while i < inputs.len()
        invariant
            all == inputs.deep_view(),
            0 <= i <= inputs.len(),
            position == typed_count(all.take(i as int)),
            position <= i,
            taken.deep_view() == declared_names(all.take(i as int)),
            made_up.deep_view() == pattern_aliases(all.take(i as int)),
        decreases inputs.len() - i,
    {
        let ghost taken_before = taken.deep_view();
        let ghost made_up_before = made_up.deep_view();
        proof {
            let next = all.take(i + 1);
            assert(next.drop_last() =~= all.take(i as int));
            assert(next.last() == inputs[i as int]@);
        }
        match &inputs[i] {
            Argument::Receiver => {},
            Argument::Typed { name, ty } => {
                match name {
                    Some(name) => {
                        taken.push(name.clone());
                        assert(taken.deep_view() =~= taken_before.push(name@));
                    },
                    None => {
                        let made = alias_name(position);
                        made_up.push(made);
                        assert(made_up.deep_view() =~= made_up_before.push(made@));
                    },
                }
                position += 1;
            },
        }
        i += 1;
    }
    proof {
        assert(all.take(inputs.len() as int) =~= all);
    }
    let pad = guard_of(&made_up, &taken);
    let mut params: Vec<Parameter> = Vec::new();
    let mut i: usize = 0;
    assert(params.deep_view() =~= parameters_with(all.take(0), pad@));
    while i < inputs.len()
        invariant
            all == inputs.deep_view(),
            0 <= i <= inputs.len(),
            params.deep_view() == parameters_with(all.take(i as int), pad@),
        decreases inputs.len() - i,
    {
        let ghost before = params.deep_view();
        proof {
            let next = all.take(i + 1);
            assert(next.drop_last() =~= all.take(i as int));
            assert(next.last() == inputs[i as int]@);
        }
        match &inputs[i] {
            Argument::Receiver => {},
            Argument::Typed { name, ty } => {
                let position = params.len();
                let parameter = Parameter {
                    ty: ty.clone(),
                    name: match name {
                        Some(name) => name.clone(),
                        None => alias_name(position).concat(pad.as_str()),
                    },
                    declared: name.is_some(),
                    alias: alias_name(position),
                };
                params.push(parameter);
                assert(params.deep_view() =~= before.push(parameter@));
            },
        }
        i += 1;
    }
    proof {
        assert(all.take(inputs.len() as int) =~= all);
    }
    params
}

/// The descriptor of the method with the given signature.
pub fn describe(signature: &Signature) -> (method: MethodDescriptor)
    ensures
        method@ == described(signature@),
{
    MethodDescriptor {
        name: signature.name.clone(),
        tag: change_casing(signature.name.as_str()),
        params: parameters_of(&signature.inputs),
        output: match &signature.output {
            Some(ty) => ty.clone(),
            None => String::from_str("()"),
        },
        suspends: signature.suspends,
    }
}

/// Reads an interface definition: the receiver's descriptor, or the reason
/// why the definition is turned down.
#[verifier::loop_isolation(false)]
pub fn extract(definition: &Interface) -> (result: Result<ReceiverDescriptor, GenerationError>)
    ensures
        match result {
            Ok(receiver) => extracted(definition@) == Ok::<ReceiverView, GenerationErrorView>(
                receiver@,
            ),
            Err(error) => extracted(definition@) == Err::<ReceiverView, GenerationErrorView>(
                error@,
            ),
        },
        result matches Ok(receiver) ==> receiver@.wf(),
{
    proof {
        lemma_extracted_wf(definition@);
    }
    match &definition.receiver {
        ReceiverType::Other => Err(GenerationError::UnrecognizedImpl),
        ReceiverType::Path { leading_colon, segments } => {
            if segments.len() == 0 {
                return Err(GenerationError::UnrecognizedImpl);
            }
            let last = &segments[segments.len() - 1];
            assert(segments.deep_view().last() == last@);
            let qualifier = qualifier_string(*leading_colon, segments);
            let receiver = qualifier.clone().concat(segment_string(last).as_str());
            if last.arguments.is_some() {
                return Err(GenerationError::GenericReceiver { receiver });
            }
            let ghost all = definition.members.deep_view();
            let mut methods: Vec<MethodDescriptor> = Vec::new();
            let mut i: usize = 0;
            assert(methods.deep_view() =~= methods_of(all.take(0)));
            while i < definition.members.len()
                invariant
                    all == definition.members.deep_view(),
                    0 <= i <= definition.members.len(),
                    first_rejection(receiver@, all.take(i as int)) is None,
                    methods.deep_view() == methods_of(all.take(i as int)),
                decreases definition.members.len() - i,
            {
                let ghost before = methods.deep_view();
                proof {
                    let next = all.take(i + 1);
                    assert(next.drop_last() =~= all.take(i as int));
                    assert(next.last() == definition.members[i as int]@);
                    assert(all.take(definition.members.len() as int) =~= all);
                }
                match &definition.members[i] {
                    Member::Method(signature) => {
                        if signature.generics > 0 {
                            proof {
                                lemma_first_rejection_stays(receiver@, all, i + 1);
                            }
                            return Err(
                                GenerationError::GenericMethod {
                                    receiver,
                                    method: signature.name.clone(),
                                },
                            );
                        }
                        if signature.variadic {
                            proof {
                                lemma_first_rejection_stays(receiver@, all, i + 1);
                            }
                            return Err(
                                GenerationError::VariadicMethod {
                                    receiver,
                                    method: signature.name.clone(),
                                },
                            );
                        }
                        let method = describe(signature);
                        methods.push(method);
                        assert(methods.deep_view() =~= before.push(method@));
                    },
                    Member::Other => {},
                }
                i += 1;
            }
            proof {
                assert(all.take(definition.members.len() as int) =~= all);
            }
            Ok(ReceiverDescriptor { qualifier, name: last.ident.clone(), methods })
        },
    }
}

/// A rejection found among the first `k` members is the rejection of the
/// whole list.
proof fn lemma_first_rejection_stays(receiver: Seq<char>, members: Seq<MemberView>, k: int)
    requires
        0 <= k <= members.len(),
        first_rejection(receiver, members.take(k)) is Some,
    ensures
        first_rejection(receiver, members) == first_rejection(receiver, members.take(k)),
    decreases members.len() - k,
{
    if k == members.len() {
        assert(members.take(k) =~= members);
    } else {
        let next = members.take(k + 1);
        assert(next.drop_last() =~= members.take(k));
        lemma_first_rejection_stays(receiver, members, k + 1);
    }
}

} // verus!
