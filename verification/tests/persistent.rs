use m68k_rt::handler::BodyStmt;
use m68k_rt::handler::HandlerFn;
use m68k_rt::handler::ReturnShape;
use m68k_rt::handler::Signature;
use m68k_rt::handler::StaticDecl;
use m68k_rt::handler::Visibility;
use m68k_rt::state::Singleton;
use m68k_rt::state::StateCell;
use m68k_rt::state::prepare_all;
use m68k_rt::state::run_invocations;
use m68k_rt::transform::entry;

#[test]
fn prepare_initializes_exactly_once() {
    let mut cell: StateCell<u32> = StateCell::new();
    cell.prepare(41);
    assert_eq!(*cell.read(), 41);
    cell.write(7);
    cell.prepare(41);
    assert_eq!(*cell.read(), 7);
}

#[test]
fn invocations_observe_the_previous_write() {
    let mut cell: StateCell<u32> = StateCell::new();
    let writes = vec![1, 2, 3];
    let observed = run_invocations(&mut cell, 42, &writes);
    assert_eq!(observed, vec![42, 1, 2]);
    assert_eq!(*cell.read(), 3);
}

#[test]
fn prepare_all_initializes_each_item_once_in_order() {
    let mut cells: Vec<StateCell<u32>> = vec![StateCell::new(), StateCell::new()];
    cells[1].prepare(99);
    cells[1].write(123);
    let inits = vec![5, 6];
    prepare_all(&mut cells, &inits);
    assert_eq!(*cells[0].read(), 5);
    assert_eq!(*cells[1].read(), 123);
}

#[test]
fn singleton_hands_its_storage_out_once() {
    let mut slot = Singleton::new();
    assert_eq!(slot.claim(7u32), Some(7));
    assert_eq!(slot.claim(8u32), None);
    assert_eq!(slot.claim(9u32), None);
}

#[test]
fn run_invocations_with_no_writes_observes_nothing() {
    let mut cell: StateCell<u32> = StateCell::new();
    let observed = run_invocations(&mut cell, 3, &Vec::new());
    assert!(observed.is_empty());
}

#[test]
fn entry_counter_scenario() {
    let f = HandlerFn {
        vis: Visibility::Inherited,
        sig: Signature {
            ident: String::from("main"),
            is_const: false,
            is_unsafe: false,
            has_abi: false,
            inputs: 0,
            generics: 0,
            has_where_clause: false,
            is_variadic: false,
            output: ReturnShape::Never,
        },
        attrs: Vec::new(),
        body: vec![
            BodyStmt::StaticMut(StaticDecl {
                ident: String::from("COUNT"),
                ty: String::from("u32"),
                init: String::from("0"),
            }),
            BodyStmt::Other(String::from("*COUNT += 1; loop { }")),
        ],
    };
    let g = entry(&f, &Vec::new()).unwrap();
    assert_eq!(g.trampoline.resources.len(), 1);

    // Simulate the trampoline's one-shot preparation being reached three
    // times: the counter is initialized exactly once.
    let mut counter: StateCell<u32> = StateCell::new();
    counter.prepare(0);
    counter.prepare(0);
    counter.prepare(0);
    assert_eq!(*counter.read(), 0);

    // The single entry invocation increments the counter once.
    let seen = *counter.read();
    counter.write(seen + 1);
    assert_eq!(*counter.read(), 1);
}
