use brug::descriptor::{MethodDescriptor, Parameter, ReceiverDescriptor};
use brug::error::GenerationError;
use brug::extract::{describe, extract};
use brug::interface::{Argument, Interface, Member, PathSegment, ReceiverType, Signature};

fn segment(ident: &str) -> PathSegment {
    PathSegment { ident: ident.to_string(), arguments: None }
}

fn named(name: &str, ty: &str) -> Argument {
    Argument::Typed { name: Some(name.to_string()), ty: ty.to_string() }
}

fn pattern(ty: &str) -> Argument {
    Argument::Typed { name: None, ty: ty.to_string() }
}

fn method(name: &str, inputs: Vec<Argument>, output: Option<&str>) -> Signature {
    Signature {
        name: name.to_string(),
        suspends: false,
        generics: 0,
        variadic: false,
        inputs,
        output: output.map(|ty| ty.to_string()),
    }
}

fn simple(name: &str, members: Vec<Member>) -> Interface {
    Interface {
        receiver: ReceiverType::Path { leading_colon: false, segments: vec![segment(name)] },
        members,
    }
}

fn parameter(ty: &str, name: &str, alias: &str) -> Parameter {
    Parameter {
        ty: ty.to_string(),
        name: name.to_string(),
        declared: true,
        alias: alias.to_string(),
    }
}

fn made_up(ty: &str, name: &str, alias: &str) -> Parameter {
    Parameter {
        ty: ty.to_string(),
        name: name.to_string(),
        declared: false,
        alias: alias.to_string(),
    }
}

fn gamer() -> Interface {
    let mut good = method("good", vec![Argument::Receiver, named("nice", "u32")], Some("bool"));
    good.suspends = true;
    let media = method(
        "good_job_media",
        vec![Argument::Receiver, named("_wow", "Box<dyn Any + Send>")],
        Some("String"),
    );
    simple("Gamer", vec![Member::Method(good), Member::Method(media)])
}

#[test]
fn gamer_is_extracted() {
    let expected = ReceiverDescriptor {
        qualifier: String::new(),
        name: "Gamer".to_string(),
        methods: vec![
            MethodDescriptor {
                name: "good".to_string(),
                tag: "Good".to_string(),
                params: vec![parameter("u32", "nice", "arg_0")],
                output: "bool".to_string(),
                suspends: true,
            },
            MethodDescriptor {
                name: "good_job_media".to_string(),
                tag: "GoodJobMedia".to_string(),
                params: vec![parameter("Box<dyn Any + Send>", "_wow", "arg_0")],
                output: "String".to_string(),
                suspends: false,
            },
        ],
    };
    assert_eq!(extract(&gamer()), Ok(expected));
}

#[test]
fn derived_names_of_gamer() {
    let receiver = extract(&gamer()).unwrap();
    assert_eq!(receiver.path(), "Gamer");
    assert_eq!(receiver.command_name(), "GamerCommand");
    assert_eq!(receiver.facade_name(), "GamerFacade");
    assert_eq!(receiver.facade_mut_name(), "GamerFacadeMut");
}

#[test]
fn block_without_methods_has_no_descriptors() {
    let receiver = extract(&simple("Idle", Vec::new())).unwrap();
    assert_eq!(receiver.name, "Idle");
    assert!(receiver.methods.is_empty());
}

#[test]
fn other_members_are_passed_over() {
    let definition = simple(
        "Gamer",
        vec![
            Member::Other,
            Member::Method(method("first", vec![Argument::Receiver], None)),
            Member::Other,
            Member::Other,
            Member::Method(method("second", vec![Argument::Receiver], None)),
        ],
    );
    let receiver = extract(&definition).unwrap();
    let names: Vec<&str> = receiver.methods.iter().map(|m| m.name.as_str()).collect();
    assert_eq!(names, vec!["first", "second"]);
}

#[test]
fn declaration_order_is_kept() {
    let definition = simple(
        "Gamer",
        vec![
            Member::Method(method("zeta", Vec::new(), None)),
            Member::Method(method("alpha", Vec::new(), None)),
            Member::Method(method("mid_point", Vec::new(), None)),
        ],
    );
    let receiver = extract(&definition).unwrap();
    let tags: Vec<&str> = receiver.methods.iter().map(|m| m.tag.as_str()).collect();
    assert_eq!(tags, vec!["Zeta", "Alpha", "MidPoint"]);
}

#[test]
fn missing_return_type_is_unit() {
    let described = describe(&method("poke", vec![Argument::Receiver], None));
    assert_eq!(described.output, "()");
    assert!(described.params.is_empty());
    assert!(!described.suspends);
}

#[test]
fn aliases_count_typed_arguments_only() {
    let described = describe(&method(
        "mix",
        vec![named("a", "u8"), Argument::Receiver, named("b", "u16"), named("c", "u32")],
        Some("u64"),
    ));
    assert_eq!(
        described.params,
        vec![
            parameter("u8", "a", "arg_0"),
            parameter("u16", "b", "arg_1"),
            parameter("u32", "c", "arg_2"),
        ]
    );
}

#[test]
fn pattern_parameter_is_named_by_its_alias() {
    let described = describe(&method(
        "split",
        vec![Argument::Receiver, named("first", "u8"), pattern("(u8, u8)"), named("last", "u8")],
        None,
    ));
    assert_eq!(
        described.params,
        vec![
            parameter("u8", "first", "arg_0"),
            made_up("(u8, u8)", "arg_1", "arg_1"),
            parameter("u8", "last", "arg_2"),
        ]
    );
}

#[test]
fn eleven_parameters_get_eleven_aliases() {
    let inputs: Vec<Argument> = (0..11).map(|_| pattern("u8")).collect();
    let described = describe(&method("many", inputs, None));
    let aliases: Vec<&str> = described.params.iter().map(|p| p.alias.as_str()).collect();
    assert_eq!(
        aliases,
        vec![
            "arg_0", "arg_1", "arg_2", "arg_3", "arg_4", "arg_5", "arg_6", "arg_7", "arg_8",
            "arg_9", "arg_10",
        ]
    );
}

#[test]
fn qualified_path_keeps_its_qualifier() {
    let definition = Interface {
        receiver: ReceiverType::Path {
            leading_colon: false,
            segments: vec![segment("game"), segment("players"), segment("Gamer")],
        },
        members: Vec::new(),
    };
    let receiver = extract(&definition).unwrap();
    assert_eq!(receiver.qualifier, "game::players::");
    assert_eq!(receiver.name, "Gamer");
    assert_eq!(receiver.path(), "game::players::Gamer");
    assert_eq!(receiver.command_name(), "game::players::GamerCommand");
    assert_eq!(receiver.facade_name(), "game::players::GamerFacade");
    assert_eq!(receiver.facade_mut_name(), "game::players::GamerFacadeMut");
}

#[test]
fn leading_separator_is_kept() {
    let definition = Interface {
        receiver: ReceiverType::Path {
            leading_colon: true,
            segments: vec![segment("game"), segment("Gamer")],
        },
        members: Vec::new(),
    };
    let receiver = extract(&definition).unwrap();
    assert_eq!(receiver.qualifier, "::game::");
    assert_eq!(receiver.path(), "::game::Gamer");
}

#[test]
fn arguments_of_an_inner_segment_are_kept() {
    let definition = Interface {
        receiver: ReceiverType::Path {
            leading_colon: false,
            segments: vec![
                PathSegment { ident: "Outer".to_string(), arguments: Some("<u8>".to_string()) },
                segment("Gamer"),
            ],
        },
        members: Vec::new(),
    };
    let receiver = extract(&definition).unwrap();
    assert_eq!(receiver.path(), "Outer<u8>::Gamer");
}

#[test]
fn receiver_that_is_no_path_is_turned_down() {
    let definition = Interface { receiver: ReceiverType::Other, members: Vec::new() };
    assert_eq!(extract(&definition), Err(GenerationError::UnrecognizedImpl));
}

#[test]
fn path_without_segments_is_turned_down() {
    let definition = Interface {
        receiver: ReceiverType::Path { leading_colon: false, segments: Vec::new() },
        members: Vec::new(),
    };
    assert_eq!(extract(&definition), Err(GenerationError::UnrecognizedImpl));
}

#[test]
fn generic_receiver_is_turned_down() {
    let definition = Interface {
        receiver: ReceiverType::Path {
            leading_colon: false,
            segments: vec![
                segment("game"),
                PathSegment { ident: "Gamer".to_string(), arguments: Some("<T>".to_string()) },
            ],
        },
        members: Vec::new(),
    };
    assert_eq!(
        extract(&definition),
        Err(GenerationError::GenericReceiver { receiver: "game::Gamer<T>".to_string() })
    );
}

#[test]
fn generic_receiver_comes_before_faulty_methods() {
    let mut faulty = method("faulty", Vec::new(), None);
    faulty.generics = 1;
    let definition = Interface {
        receiver: ReceiverType::Path {
            leading_colon: false,
            segments: vec![PathSegment {
                ident: "Gamer".to_string(),
                arguments: Some("<T>".to_string()),
            }],
        },
        members: vec![Member::Method(faulty)],
    };
    assert_eq!(
        extract(&definition),
        Err(GenerationError::GenericReceiver { receiver: "Gamer<T>".to_string() })
    );
}

#[test]
fn generic_method_is_turned_down() {
    let mut faulty = method("convert", vec![Argument::Receiver], None);
    faulty.generics = 2;
    let definition = simple("Gamer", vec![Member::Method(faulty)]);
    assert_eq!(
        extract(&definition),
        Err(GenerationError::GenericMethod {
            receiver: "Gamer".to_string(),
            method: "convert".to_string(),
        })
    );
}

#[test]
fn variadic_method_is_turned_down() {
    let mut faulty = method("print", vec![Argument::Receiver], None);
    faulty.variadic = true;
    let definition = simple("Gamer", vec![Member::Method(faulty)]);
    assert_eq!(
        extract(&definition),
        Err(GenerationError::VariadicMethod {
            receiver: "Gamer".to_string(),
            method: "print".to_string(),
        })
    );
}

#[test]
fn generic_parameters_are_reported_before_a_variadic_tail() {
    let mut faulty = method("both", Vec::new(), None);
    faulty.generics = 1;
    faulty.variadic = true;
    let definition = simple("Gamer", vec![Member::Method(faulty)]);
    assert_eq!(
        extract(&definition),
        Err(GenerationError::GenericMethod {
            receiver: "Gamer".to_string(),
            method: "both".to_string(),
        })
    );
}

#[test]
fn first_faulty_method_is_reported() {
    let mut variadic = method("early", Vec::new(), None);
    variadic.variadic = true;
    let mut generic = method("late", Vec::new(), None);
    generic.generics = 1;
    let definition = simple(
        "Gamer",
        vec![
            Member::Method(method("fine", Vec::new(), None)),
            Member::Other,
            Member::Method(variadic),
            Member::Method(generic),
        ],
    );
    assert_eq!(
        extract(&definition),
        Err(GenerationError::VariadicMethod {
            receiver: "Gamer".to_string(),
            method: "early".to_string(),
        })
    );
}

#[test]
fn name_of_underscores_alone_has_the_empty_tag() {
    for name in ["_", "__", ""] {
        let definition = simple(
            "Gamer",
            vec![Member::Method(method(name, vec![Argument::Receiver], None))],
        );
        let receiver = extract(&definition).unwrap();
        assert_eq!(receiver.methods.len(), 1);
        assert_eq!(receiver.methods[0].name, name);
        assert_eq!(receiver.methods[0].tag, "");
    }
}

#[test]
fn name_with_empty_segments_is_accepted() {
    let definition = simple(
        "Gamer",
        vec![Member::Method(method("_wow__now_", vec![Argument::Receiver], None))],
    );
    assert_eq!(extract(&definition).unwrap().methods[0].tag, "WowNow");
}

fn params_of(inputs: Vec<Argument>) -> Vec<Parameter> {
    describe(&method("m", inputs, None)).params
}

#[test]
fn made_up_name_keeps_clear_of_a_declared_name() {
    assert_eq!(
        params_of(vec![Argument::Receiver, named("arg_1", "u32"), pattern("(u32, u32)")]),
        vec![parameter("u32", "arg_1", "arg_0"), made_up("(u32, u32)", "arg_1_____", "arg_1")]
    );
    assert_eq!(
        params_of(vec![pattern("(u32, u32)"), Argument::Receiver, named("arg_0", "u32")]),
        vec![made_up("(u32, u32)", "arg_0_____", "arg_0"), parameter("u32", "arg_0", "arg_1")]
    );
}

#[test]
fn guard_is_as_long_as_the_longest_declared_name() {
    assert_eq!(
        params_of(vec![
            named("arg_2", "u8"),
            named("a_rather_long_name", "u8"),
            pattern("(u8, u8)"),
            pattern("[u8; 2]"),
        ]),
        vec![
            parameter("u8", "arg_2", "arg_0"),
            parameter("u8", "a_rather_long_name", "arg_1"),
            made_up("(u8, u8)", "arg_2__________________", "arg_2"),
            made_up("[u8; 2]", "arg_3__________________", "arg_3"),
        ]
    );
}

#[test]
fn declared_alias_of_no_pattern_changes_nothing() {
    assert_eq!(
        params_of(vec![Argument::Receiver, named("arg_0", "u32"), pattern("(u32, u32)")]),
        vec![parameter("u32", "arg_0", "arg_0"), made_up("(u32, u32)", "arg_1", "arg_1")]
    );
    assert_eq!(
        params_of(vec![named("arg_5", "u32"), pattern("(u32, u32)")]),
        vec![parameter("u32", "arg_5", "arg_0"), made_up("(u32, u32)", "arg_1", "arg_1")]
    );
}

#[test]
fn made_up_names_differ_from_every_other_name() {
    let params = params_of(vec![
        named("arg_3", "u8"),
        pattern("(u8, u8)"),
        named("arg_1", "u8"),
        pattern("(u8, u8)"),
        named("arg_3_____", "u8"),
        pattern("(u8, u8)"),
    ]);
    for i in 0..params.len() {
        for j in 0..params.len() {
            if i != j && !params[i].declared {
                assert_ne!(params[i].name, params[j].name);
            }
        }
    }
    assert_eq!(params[1].alias, "arg_1");
    assert_eq!(params[5].alias, "arg_5");
}

#[test]
fn declared_names_are_kept_whatever_they_are() {
    assert_eq!(
        params_of(vec![
            Argument::Receiver,
            named("resp", "u32"),
            named("__brug_s", "u32"),
            named("x", "u8"),
            named("x", "u8"),
        ]),
        vec![
            parameter("u32", "resp", "arg_0"),
            parameter("u32", "__brug_s", "arg_1"),
            parameter("u8", "x", "arg_2"),
            parameter("u8", "x", "arg_3"),
        ]
    );
}

#[test]
fn method_with_any_names_is_accepted() {
    let definition = simple(
        "Gamer",
        vec![
            Member::Method(method("__", vec![named("__brug_r", "u8"), pattern("u8")], None)),
            Member::Method(method("m", vec![named("arg_1", "u8"), pattern("u8")], None)),
        ],
    );
    assert_eq!(extract(&definition).unwrap().methods.len(), 2);
}

#[test]
fn messages_name_receiver_and_method() {

    assert_eq!(GenerationError::UnrecognizedImpl.message(), "don't understand impl block");
    assert_eq!(
        GenerationError::GenericReceiver { receiver: "Gamer<T>".to_string() }.message(),
        "Gamer<T> has generic parameters which brug doesnt support yet"
    );
    assert_eq!(
        GenerationError::GenericMethod {
            receiver: "Gamer".to_string(),
            method: "convert".to_string(),
        }
        .message(),
        "Gamer::convert() has generic parameters, which can't be supported"
    );
    assert_eq!(
        GenerationError::VariadicMethod {
            receiver: "Gamer".to_string(),
            method: "print".to_string(),
        }
        .message(),
        "Gamer::print() is variadic parameters, which can't be supported"
    );
}
