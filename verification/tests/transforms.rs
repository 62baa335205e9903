use m68k_rt::handler::Attr;
use m68k_rt::handler::BodyStmt;
use m68k_rt::handler::HandlerFn;
use m68k_rt::handler::ReturnShape;
use m68k_rt::handler::Signature;
use m68k_rt::handler::StaticDecl;
use m68k_rt::handler::Visibility;
use m68k_rt::transform::HandlerKind;
use m68k_rt::transform::TransformError;
use m68k_rt::transform::entry;
use m68k_rt::transform::interrupt;
use m68k_rt::transform::pre_init;
use m68k_rt::transform::trap;

fn plain_sig(ident: &str, output: ReturnShape) -> Signature {
    Signature {
        ident: String::from(ident),
        is_const: false,
        is_unsafe: false,
        has_abi: false,
        inputs: 0,
        generics: 0,
        has_where_clause: false,
        is_variadic: false,
        output,
    }
}

fn plain_fn(ident: &str, output: ReturnShape, body: Vec<BodyStmt>) -> HandlerFn {
    HandlerFn { vis: Visibility::Inherited, sig: plain_sig(ident, output), attrs: Vec::new(), body }
}

fn state(ident: &str, ty: &str, init: &str) -> BodyStmt {
    BodyStmt::StaticMut(StaticDecl {
        ident: String::from(ident),
        ty: String::from(ty),
        init: String::from(init),
    })
}

fn no_args() -> Vec<String> {
    Vec::new()
}

#[test]
fn entry_emits_renamed_function_and_trampoline() {
    let f = plain_fn(
        "main",
        ReturnShape::Never,
        vec![state("COUNT", "u32", "0"), BodyStmt::Other(String::from("loop { }"))],
    );
    let g = entry(&f, &no_args()).unwrap();
    assert_eq!(g.handler.ident, "__m68k_rt_main");
    assert_eq!(g.trampoline.ident, "__m68k_rt_main_trampoline");
    assert_eq!(g.trampoline.export_name, "main");
    assert_eq!(g.trampoline.target, "__m68k_rt_main");
    assert_eq!(g.trampoline.resources.len(), 1);
    assert_eq!(g.trampoline.resources[0].ident, "COUNT");
    assert_eq!(g.trampoline.resources[0].init, "0");
    assert_eq!(g.handler.params.len(), 1);
    assert_eq!(g.handler.params[0].ident, "COUNT");
    assert_eq!(g.handler.params[0].ty, "u32");
    assert!(g.handler.params[0].static_lifetime);
    assert_eq!(g.handler.body.len(), 1);
    assert!(matches!(&g.handler.body[0], BodyStmt::Other(s) if s == "loop { }"));
}

#[test]
fn entry_requires_never_return() {
    let f = plain_fn("main", ReturnShape::Omitted, Vec::new());
    let r = entry(&f, &no_args());
    match r {
        Err(e @ TransformError::InvalidSignature(HandlerKind::Entry)) => {
            assert_eq!(
                e.message(),
                "`#[entry]` function must have signature `[unsafe] fn() -> !`"
            );
        }
        _ => panic!("a unit-returning entry point must be rejected"),
    }
}

#[test]
fn entry_rejects_public_generic_or_variadic_shapes() {
    let mut public = plain_fn("main", ReturnShape::Never, Vec::new());
    public.vis = Visibility::Public;
    assert!(matches!(
        entry(&public, &no_args()),
        Err(TransformError::InvalidSignature(HandlerKind::Entry))
    ));
    let mut generic = plain_fn("main", ReturnShape::Never, Vec::new());
    generic.sig.generics = 1;
    assert!(matches!(
        entry(&generic, &no_args()),
        Err(TransformError::InvalidSignature(HandlerKind::Entry))
    ));
    let mut variadic = plain_fn("main", ReturnShape::Never, Vec::new());
    variadic.sig.is_variadic = true;
    assert!(matches!(
        entry(&variadic, &no_args()),
        Err(TransformError::InvalidSignature(HandlerKind::Entry))
    ));
}

#[test]
fn entry_rejects_attribute_arguments() {
    let f = plain_fn("main", ReturnShape::Never, Vec::new());
    let args = vec![String::from("anything")];
    let r = entry(&f, &args);
    match r {
        Err(e @ TransformError::UnexpectedArguments) => {
            assert_eq!(e.message(), "This attribute accepts no arguments");
        }
        _ => panic!("attribute arguments must be rejected"),
    }
}

#[test]
fn duplicate_state_names_are_rejected() {
    let f = plain_fn(
        "main",
        ReturnShape::Never,
        vec![state("X", "u32", "0"), state("X", "u16", "1")],
    );
    let r = entry(&f, &no_args());
    match r {
        Err(e @ TransformError::DuplicateStateName(_)) => {
            assert_eq!(e.message(), "the name `X` is defined multiple times");
        }
        _ => panic!("a repeated persistent-state name must be rejected"),
    }
}

#[test]
fn different_handlers_may_reuse_a_state_name() {
    let f1 = plain_fn("main", ReturnShape::Never, vec![state("COUNT", "u32", "0")]);
    let f2 = plain_fn("other_main", ReturnShape::Never, vec![state("COUNT", "u32", "9")]);
    assert!(entry(&f1, &no_args()).is_ok());
    assert!(entry(&f2, &no_args()).is_ok());
}

#[test]
fn immutable_statics_stay_in_the_body_without_ending_the_scan() {
    let body = vec![
        BodyStmt::StaticImmutable(StaticDecl {
            ident: String::from("TABLE"),
            ty: String::from("[u8; 4]"),
            init: String::from("[0; 4]"),
        }),
        state("COUNT", "u32", "0"),
        BodyStmt::Other(String::from("loop { }")),
        state("LATE", "u32", "0"),
    ];
    let f = plain_fn("main", ReturnShape::Never, body);
    let g = entry(&f, &no_args()).unwrap();
    assert_eq!(g.trampoline.resources.len(), 1);
    assert_eq!(g.trampoline.resources[0].ident, "COUNT");
    assert_eq!(g.handler.body.len(), 3);
    assert!(matches!(&g.handler.body[0], BodyStmt::StaticImmutable(d) if d.ident == "TABLE"));
    assert!(matches!(&g.handler.body[1], BodyStmt::Other(_)));
    assert!(matches!(&g.handler.body[2], BodyStmt::StaticMut(d) if d.ident == "LATE"));
}

#[test]
fn entry_rejects_attributes_outside_the_allow_list() {
    let mut f = plain_fn("main", ReturnShape::Never, Vec::new());
    f.attrs.push(Attr { outer: true, name: String::from("inline") });
    let r = entry(&f, &no_args());
    match r {
        Err(e @ TransformError::AttributeNotAllowed(HandlerKind::Entry)) => {
            assert_eq!(
                e.message(),
                "this attribute is not allowed on a m68k-rt entry point"
            );
        }
        _ => panic!("a decoration off the allow-list must be rejected"),
    }
}

#[test]
fn entry_splits_cfg_attributes_for_the_trampoline() {
    let mut f = plain_fn("main", ReturnShape::Never, Vec::new());
    f.attrs.push(Attr { outer: true, name: String::from("allow") });
    f.attrs.push(Attr { outer: true, name: String::from("cfg") });
    f.attrs.push(Attr { outer: true, name: String::from("doc") });
    let g = entry(&f, &no_args()).unwrap();
    assert_eq!(g.trampoline.cfg_attrs.len(), 1);
    assert_eq!(g.trampoline.cfg_attrs[0].name, "cfg");
    assert_eq!(g.trampoline.other_attrs.len(), 2);
    assert_eq!(g.trampoline.other_attrs[0].name, "allow");
    assert_eq!(g.trampoline.other_attrs[1].name, "doc");
}

#[test]
fn trap_accepts_vectors_one_through_fourteen() {
    for n in 1..=14 {
        let f = plain_fn("breakpoint", ReturnShape::Omitted, Vec::new());
        let g = trap(&f, Some(n)).unwrap();
        assert_eq!(g.trampoline.export_name, format!("_TRAP{}", n));
        assert_eq!(g.handler.ident, "__m68k_rt_breakpoint");
        assert!(g.trampoline.resources.is_empty());
        assert!(g.handler.params.is_empty());
    }
}

#[test]
fn trap_rejects_vectors_outside_the_range() {
    for n in [0i64, 15, 16, 100, -1, -100] {
        let f = plain_fn("breakpoint", ReturnShape::Omitted, Vec::new());
        let r = trap(&f, Some(n));
        match r {
            Err(e @ TransformError::InvalidTrapNumber) => {
                assert_eq!(e.message(), "Invalid trap number. (Should be 0 to 15)");
            }
            _ => panic!("vector {} must be rejected", n),
        }
    }
}

#[test]
fn trap_requires_its_vector_number() {
    let f = plain_fn("breakpoint", ReturnShape::Omitted, Vec::new());
    let r = trap(&f, None);
    match r {
        Err(e @ TransformError::MissingTrapNumber) => {
            assert_eq!(
                e.message(),
                "Trap attribute needs trap number `n` from 0 to 15: `#[trap(num = n)]`"
            );
        }
        _ => panic!("a trap declaration without a number must be rejected"),
    }
}

#[test]
fn trap_requires_unwritten_return_type() {
    let f = plain_fn("breakpoint", ReturnShape::Unit, Vec::new());
    let r = trap(&f, Some(3));
    match r {
        Err(e @ TransformError::InvalidSignature(HandlerKind::Trap)) => {
            assert_eq!(e.message(), "`#[trap]` function must have () return type");
        }
        _ => panic!("a written return type must be rejected for trap handlers"),
    }
}

#[test]
fn interrupt_emits_trampoline_under_the_handler_name() {
    let known = vec![String::from("VerticalBlank"), String::from("Uart")];
    let f = plain_fn("VerticalBlank", ReturnShape::Omitted, vec![state("TICKS", "u32", "0")]);
    let g = interrupt(&f, &no_args(), &known).unwrap();
    assert_eq!(g.trampoline.export_name, "VerticalBlank");
    assert_eq!(g.handler.ident, "__m68k_rt_VerticalBlank");
    assert_eq!(g.trampoline.resources.len(), 1);
    assert_eq!(g.handler.params.len(), 1);
    assert!(!g.handler.params[0].static_lifetime);
    assert!(matches!(&g.handler.body[0], BodyStmt::BindingRef(s) if s == "VerticalBlank"));
}

#[test]
fn interrupt_for_unknown_source_is_rejected() {
    let known = vec![String::from("VerticalBlank")];
    let f = plain_fn("Spurious", ReturnShape::Omitted, Vec::new());
    let r = interrupt(&f, &no_args(), &known);
    match r {
        Err(e @ TransformError::UnknownInterrupt(_)) => {
            assert_eq!(e.message(), "no interrupt source is named `Spurious`");
        }
        _ => panic!("an interrupt handler for an unknown source must be rejected"),
    }
}

#[test]
fn interrupt_accepts_unit_and_never_returns() {
    let known = vec![String::from("Uart")];
    for output in [ReturnShape::Omitted, ReturnShape::Unit, ReturnShape::Never] {
        let f = plain_fn("Uart", output, Vec::new());
        assert!(interrupt(&f, &no_args(), &known).is_ok());
    }
    let f = plain_fn("Uart", ReturnShape::Other, Vec::new());
    assert!(matches!(
        interrupt(&f, &no_args(), &known),
        Err(TransformError::InvalidSignature(HandlerKind::Interrupt))
    ));
}

#[test]
fn interrupt_rejects_duplicate_state_names() {
    let known = vec![String::from("Uart")];
    let f = plain_fn(
        "Uart",
        ReturnShape::Omitted,
        vec![state("N", "u32", "0"), state("N", "u32", "0")],
    );
    assert!(matches!(
        interrupt(&f, &no_args(), &known),
        Err(TransformError::DuplicateStateName(n)) if n == "N"
    ));
}

#[test]
fn interrupt_rejects_attributes_outside_the_allow_list() {
    let known = vec![String::from("Uart")];
    let mut f = plain_fn("Uart", ReturnShape::Omitted, Vec::new());
    f.attrs.push(Attr { outer: true, name: String::from("no_mangle") });
    let r = interrupt(&f, &no_args(), &known);
    match r {
        Err(e @ TransformError::AttributeNotAllowed(HandlerKind::Interrupt)) => {
            assert_eq!(
                e.message(),
                "this attribute is not allowed on an interrupt handler controlled by m68k-rt"
            );
        }
        _ => panic!("a decoration off the allow-list must be rejected"),
    }
}

#[test]
fn inner_style_attributes_are_off_the_allow_list() {
    let mut f = plain_fn("main", ReturnShape::Never, Vec::new());
    f.attrs.push(Attr { outer: false, name: String::from("doc") });
    assert!(matches!(
        entry(&f, &no_args()),
        Err(TransformError::AttributeNotAllowed(HandlerKind::Entry))
    ));
}

#[test]
fn pre_init_exports_the_function_unchanged() {
    let mut f = plain_fn("before_main", ReturnShape::Omitted, Vec::new());
    f.sig.is_unsafe = true;
    f.body.push(BodyStmt::Other(String::from("configure_wait_states()")));
    let g = pre_init(&f, &no_args()).unwrap();
    assert_eq!(g.export_name, "__pre_init");
    assert_eq!(g.ident, "before_main");
    assert_eq!(g.body.len(), 1);
}

#[test]
fn pre_init_must_be_declared_unsafe() {
    let f = plain_fn("before_main", ReturnShape::Omitted, Vec::new());
    let r = pre_init(&f, &no_args());
    match r {
        Err(e @ TransformError::InvalidSignature(HandlerKind::PreInit)) => {
            assert_eq!(e.message(), "`#[pre_init]` function must have signature `unsafe fn()`");
        }
        _ => panic!("a safe pre-init hook must be rejected"),
    }
}
