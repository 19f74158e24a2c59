use brug::error::GenerationError;
use brug::interface::{Argument, Interface, Member, PathSegment, ReceiverType, Signature};
use brug::performer;
use quote::ToTokens;

fn text_of(tokens: &impl ToTokens) -> String {
    tokens.to_token_stream().to_string()
}

fn segment_of(segment: &syn::PathSegment) -> PathSegment {
    PathSegment {
        ident: segment.ident.to_string(),
        arguments: match &segment.arguments {
            syn::PathArguments::None => None,
            arguments => Some(text_of(arguments)),
        },
    }
}

fn argument_of(argument: &syn::FnArg) -> Argument {
    match argument {
        syn::FnArg::Receiver(_) => Argument::Receiver,
        syn::FnArg::Typed(typed) => Argument::Typed {
            name: match &*typed.pat {
                syn::Pat::Ident(id) => Some(id.ident.to_string()),
                _ => None,
            },
            ty: text_of(&typed.ty),
        },
    }
}

fn signature_of(signature: &syn::Signature) -> Signature {
    Signature {
        name: signature.ident.to_string(),
        suspends: signature.asyncness.is_some(),
        generics: signature.generics.params.len(),
        variadic: signature.variadic.is_some(),
        inputs: signature.inputs.iter().map(argument_of).collect(),
        output: match &signature.output {
            syn::ReturnType::Default => None,
            syn::ReturnType::Type(_, ty) => Some(text_of(ty)),
        },
    }
}

fn interface_of(block: &syn::ItemImpl) -> Interface {
    Interface {
        receiver: match &*block.self_ty {
            syn::Type::Path(p) => ReceiverType::Path {
                leading_colon: p.path.leading_colon.is_some(),
                segments: p.path.segments.iter().map(segment_of).collect(),
            },
            _ => ReceiverType::Other,
        },
        members: block
            .items
            .iter()
            .map(|item| match item {
                syn::ImplItem::Fn(function) => Member::Method(signature_of(&function.sig)),
                _ => Member::Other,
            })
            .collect(),
    }
}

fn run(source: &str) -> Result<String, GenerationError> {
    let block: syn::ItemImpl = syn::parse_str(source).unwrap();
    performer(&text_of(&block), &interface_of(&block))
}

fn item(text: &str) -> String {
    text_of(&syn::parse_str::<syn::Item>(text).unwrap())
}

fn signature(text: &str) -> String {
    text_of(&syn::parse_str::<syn::Signature>(text).unwrap())
}

const GAMER: &str = "impl Gamer {
    async fn good(&mut self, nice: u32) -> bool {
        nice == 4
    }

    fn good_job_media(&mut self, _wow: Box<dyn Any + Send>) -> String {
        String::new()
    }
}";

#[test]
fn generated_text_is_a_rust_file() {
    let text = run(GAMER).unwrap();
    let file = syn::parse_file(&text).unwrap();
    assert_eq!(file.items.len(), 6);
    assert!(matches!(file.items[0], syn::Item::Impl(_)));
    assert!(matches!(file.items[1], syn::Item::Enum(_)));
    assert!(matches!(file.items[2], syn::Item::Impl(_)));
    assert!(matches!(file.items[3], syn::Item::Trait(_)));
    assert!(matches!(file.items[4], syn::Item::Trait(_)));
    assert!(matches!(file.items[5], syn::Item::Impl(_)));
}

#[test]
fn generated_text_begins_with_the_block_itself() {
    let block: syn::ItemImpl = syn::parse_str(GAMER).unwrap();
    let text = run(GAMER).unwrap();
    let file = syn::parse_file(&text).unwrap();
    assert_eq!(text_of(&file.items[0]), text_of(&block));
}

#[test]
fn generated_union_has_one_variant_per_method() {
    let text = run(GAMER).unwrap();
    let file = syn::parse_file(&text).unwrap();
    let syn::Item::Enum(union) = &file.items[1] else {
        panic!("no enum");
    };
    assert_eq!(union.ident.to_string(), "GamerCommand");
    let variants: Vec<String> = union.variants.iter().map(|v| v.ident.to_string()).collect();
    assert_eq!(variants, vec!["Good", "GoodJobMedia"]);
    let fields: Vec<usize> = union.variants.iter().map(|v| v.fields.len()).collect();
    assert_eq!(fields, vec![2, 2]);
}

#[test]
fn generated_union_item() {
    let text = run(GAMER).unwrap();
    let file = syn::parse_file(&text).unwrap();
    assert_eq!(
        text_of(&file.items[1]),
        item(
            "pub enum GamerCommand<T: ::brug::Transport> {
                Good(u32, T::Sender<bool>),
                GoodJobMedia(Box<dyn Any + Send>, T::Sender<String>)
            }"
        )
    );
}

#[test]
fn generated_dispatcher_item() {
    let text = run(GAMER).unwrap();
    let file = syn::parse_file(&text).unwrap();
    assert_eq!(
        text_of(&file.items[2]),
        item(
            "#[::brug::async_trait]
            impl<T: ::brug::Transport> ::brug::Performer<GamerCommand<T>> for Gamer {
                async fn perform(&mut self, command: GamerCommand<T>) {
                    match command {
                        GamerCommand::Good(arg_0, resp) => {
                            ::brug::Sender::send(resp, self.good(arg_0).await).await;
                        }
                        GamerCommand::GoodJobMedia(arg_0, resp) => {
                            ::brug::Sender::send(resp, self.good_job_media(arg_0)).await;
                        }
                    }
                }
            }"
        )
    );
}

#[test]
fn generated_dispatcher_has_one_arm_per_variant_and_no_other() {
    let text = run(GAMER).unwrap();
    let file = syn::parse_file(&text).unwrap();
    let syn::Item::Impl(dispatcher) = &file.items[2] else {
        panic!("no impl");
    };
    let syn::ImplItem::Fn(perform) = &dispatcher.items[0] else {
        panic!("no method");
    };
    let syn::Stmt::Expr(syn::Expr::Match(matching), _) = &perform.block.stmts[0] else {
        panic!("no match");
    };
    assert_eq!(perform.block.stmts.len(), 1);
    assert_eq!(matching.arms.len(), 2);
    for arm in &matching.arms {
        assert!(!matches!(arm.pat, syn::Pat::Wild(_)));
        assert!(arm.guard.is_none());
        assert_eq!(text_of(&arm.body).matches(":: brug :: Sender :: send").count(), 1);
    }
}

#[test]
fn generated_facade_item() {
    let text = run(GAMER).unwrap();
    let file = syn::parse_file(&text).unwrap();
    assert_eq!(
        text_of(&file.items[3]),
        item(
            "#[::brug::async_trait]
            pub trait GamerFacade<T: ::brug::Transport> {
                async fn good(&self, nice: u32) -> bool {
                    let (__brug_s, __brug_r) = T::pair();
                    self.handle(GamerCommand::Good(nice, __brug_s)).await;
                    ::brug::Receiver::receive(__brug_r).await.expect(\"call to good produced no result\")
                }

                async fn good_job_media(&self, _wow: Box<dyn Any + Send>) -> String {
                    let (__brug_s, __brug_r) = T::pair();
                    self.handle(GamerCommand::GoodJobMedia(_wow, __brug_s)).await;
                    ::brug::Receiver::receive(__brug_r).await.expect(\"call to good_job_media produced no result\")
                }

                async fn handle(&self, command: GamerCommand<T>);
            }"
        )
    );
}

#[test]
fn generated_facades_have_wrappers_and_one_required_method() {
    let text = run(GAMER).unwrap();
    let file = syn::parse_file(&text).unwrap();
    for (position, name, access) in [(3, "GamerFacade", "& self"), (4, "GamerFacadeMut", "& mut self")]
    {
        let syn::Item::Trait(facade) = &file.items[position] else {
            panic!("no trait");
        };
        assert_eq!(facade.ident.to_string(), name);
        let mut provided = Vec::new();
        let mut required = Vec::new();
        for item in &facade.items {
            let syn::TraitItem::Fn(function) = item else {
                panic!("no method");
            };
            assert!(function.sig.asyncness.is_some());
            assert_eq!(text_of(&function.sig.inputs[0]), access);
            if function.default.is_some() {
                provided.push(function.sig.ident.to_string());
            } else {
                required.push(function.sig.ident.to_string());
            }
        }
        assert_eq!(provided, vec!["good", "good_job_media"]);
        assert_eq!(required, vec!["handle"]);
    }
}

#[test]
fn generated_bridge_item() {
    let text = run(GAMER).unwrap();
    let file = syn::parse_file(&text).unwrap();
    assert_eq!(
        text_of(&file.items[5]),
        item(
            "#[::brug::async_trait]
            impl<T: ::brug::Transport, F: GamerFacade<T> + Send + Sync> GamerFacadeMut<T> for F {
                async fn handle(&mut self, command: GamerCommand<T>) {
                    GamerFacade::handle(self, command).await;
                }
            }"
        )
    );
}

#[test]
fn pattern_parameters_and_missing_return_type() {
    let text = run("impl Board { fn place(&mut self, (x, y): (u8, u8), mark: char) {} }").unwrap();
    let file = syn::parse_file(&text).unwrap();
    assert_eq!(
        text_of(&file.items[1]),
        item("pub enum BoardCommand<T: ::brug::Transport> { Place((u8, u8), char, T::Sender<()>) }")
    );
    let syn::Item::Trait(facade) = &file.items[3] else {
        panic!("no trait");
    };
    let syn::TraitItem::Fn(place) = &facade.items[0] else {
        panic!("no method");
    };
    assert_eq!(
        text_of(&place.sig),
        signature("async fn place(&self, arg_0: (u8, u8), mark: char) -> ()")
    );
}

#[test]
fn other_items_of_the_block_are_passed_over() {
    let text = run("impl Gamer { const LEVELS: u8 = 3; fn level(&self) -> u8 { 1 } }").unwrap();
    let file = syn::parse_file(&text).unwrap();
    let syn::Item::Enum(union) = &file.items[1] else {
        panic!("no enum");
    };
    assert_eq!(union.variants.len(), 1);
    assert_eq!(union.variants[0].ident.to_string(), "Level");
}

#[test]
fn generic_receiver_from_source() {
    assert_eq!(
        run("impl<T> Gamer<T> { fn level(&self) -> u8 { 1 } }").unwrap_err().message(),
        "Gamer< T > has generic parameters which brug doesnt support yet"
    );
}

#[test]
fn generic_method_from_source() {
    assert_eq!(
        run("impl Gamer { fn fine(&self) {} fn put<T>(&mut self, item: T) {} }"),
        Err(GenerationError::GenericMethod {
            receiver: "Gamer".to_string(),
            method: "put".to_string(),
        })
    );
}

#[test]
fn lifetime_parameter_counts_as_generic() {
    assert_eq!(
        run("impl Gamer { fn name<'a>(&'a self) -> &'a str { \"\" } }").unwrap_err().message(),
        "Gamer::name() has generic parameters, which can't be supported"
    );
}

fn bound_names(wrapper: &syn::TraitItemFn) -> Vec<String> {
    let mut names: Vec<String> = wrapper
        .sig
        .inputs
        .iter()
        .skip(1)
        .map(|input| match input {
            syn::FnArg::Typed(typed) => text_of(&typed.pat),
            syn::FnArg::Receiver(_) => panic!("second receiver"),
        })
        .collect();
    let block = wrapper.default.as_ref().unwrap();
    let syn::Stmt::Local(pair) = &block.stmts[0] else {
        panic!("no pair");
    };
    let syn::Pat::Tuple(halves) = &pair.pat else {
        panic!("no pair");
    };
    for half in &halves.elems {
        names.push(text_of(half));
    }
    names
}

fn wrappers_of(text: &str) -> Vec<syn::TraitItemFn> {
    let file = syn::parse_file(text).unwrap();
    let mut wrappers = Vec::new();
    for position in [3, 4] {
        let syn::Item::Trait(facade) = &file.items[position] else {
            panic!("no trait");
        };
        for item in &facade.items {
            if let syn::TraitItem::Fn(function) = item {
                if function.default.is_some() {
                    wrappers.push(function.clone());
                }
            }
        }
    }
    wrappers
}

fn assert_distinct(names: &[String]) {
    for i in 0..names.len() {
        for j in (i + 1)..names.len() {
            assert_ne!(names[i], names[j]);
        }
    }
}

#[test]
fn colliding_names_from_source_get_code_with_distinct_names() {
    let text = run("impl Gamer { fn m(&mut self, arg_1: u32, (a, b): (u32, u32)) {} }").unwrap();
    for wrapper in wrappers_of(&text) {
        let names = bound_names(&wrapper);
        assert_eq!(names, vec!["arg_1", "arg_1_____", "__brug_s", "__brug_r"]);
        assert_distinct(&names);
    }
}

#[test]
fn parameter_named_like_the_pair_from_source() {
    let text = run("impl Gamer { fn m(&mut self, __brug_r: u32, __brug_s: u8) {} }").unwrap();
    for wrapper in wrappers_of(&text) {
        let names = bound_names(&wrapper);
        assert_eq!(
            names,
            vec!["__brug_r", "__brug_s", "__brug_s________", "__brug_r________"]
        );
        assert_distinct(&names);
    }
}

#[test]
fn parameters_named_like_every_internal_name_from_source() {
    let text = run(
        "impl Gamer { fn m(&mut self, resp: u8, arg_0: u8, arg_2: u8, (a, b): (u8, u8), \
         __brug_s: u8, __brug_r: u8, [c, d]: [u8; 2], command: u8) {} }",
    )
    .unwrap();
    let file = syn::parse_file(&text).unwrap();
    for wrapper in wrappers_of(&text) {
        assert_distinct(&bound_names(&wrapper));
    }
    let syn::Item::Impl(dispatcher) = &file.items[2] else {
        panic!("no impl");
    };
    let arm = text_of(dispatcher);
    assert!(arm.contains(
        "GamerCommand :: M (arg_0 , arg_1 , arg_2 , arg_3 , arg_4 , arg_5 , arg_6 , arg_7 , resp)"
    ));
}

#[test]
fn name_of_underscores_alone_from_source() {
    let text = run("impl Gamer { fn __(&self) {} fn fine(&self) {} }").unwrap();
    assert!(text.contains("GamerCommand::(resp) => {"));
    assert!(text.contains("GamerCommand::Fine(resp) => {"));
    assert!(text.contains("async fn __(&self, ) -> () {"));
}

#[test]
fn wrapper_binds_distinct_names_in_generated_text() {
    let text =
        run("impl Gamer { fn m(&mut self, resp: u8, arg_0: u8, (a, b): (u8, u8), command: u8) {} }")
            .unwrap();
    for wrapper in wrappers_of(&text) {
        let names = bound_names(&wrapper);
        assert_eq!(names, vec!["resp", "arg_0", "arg_2", "command", "__brug_s", "__brug_r"]);
        assert_distinct(&names);
    }
}

#[test]
fn receiver_that_no_path_names_from_source() {
    assert_eq!(run("impl [u8] { fn first(&self) {} }"), Err(GenerationError::UnrecognizedImpl));
    assert_eq!(run("impl (u8, u8) { }"), Err(GenerationError::UnrecognizedImpl));
}

#[test]
fn qualified_receiver_from_source() {
    let text = run("impl game::Gamer { fn level(&self) -> u8 { 1 } }").unwrap();
    assert!(text.contains("::brug::Performer<game::GamerCommand<T>> for game::Gamer {"));
}
