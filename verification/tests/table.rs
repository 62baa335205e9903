use m68k_rt::exception::AccessInformation;
use m68k_rt::exception::Exception;
use m68k_rt::exception::ExceptionFrame;
use m68k_rt::exception::LowerExceptionFrame;
use m68k_rt::vector_table::HandlerRegistry;
use m68k_rt::vector_table::MemoryInitPolicy;
use m68k_rt::vector_table::StartupStep;
use m68k_rt::vector_table::Vector;
use m68k_rt::vector_table::build_vector_table;
use m68k_rt::vector_table::default_handler_symbol;
use m68k_rt::vector_table::reset_vector_symbol;
use m68k_rt::vector_table::startup_sequence;

#[test]
fn default_table_has_fourteen_slots_in_fixed_order() {
    let reg = HandlerRegistry::new();
    let table = build_vector_table(&reg);
    assert_eq!(table.len(), 14);
    let expected = [
        Some(Exception::BusError),
        Some(Exception::AddressError),
        Some(Exception::IllegalInstruction),
        Some(Exception::ZeroDivide),
        Some(Exception::CHKInstruction),
        Some(Exception::TRAPVInstruction),
        Some(Exception::PrivilegeViolation),
        Some(Exception::Trace),
        Some(Exception::Line1010Emulator),
        Some(Exception::Line1111Emulator),
        None,
        None,
        Some(Exception::FormatError),
        None,
    ];
    for (slot, want) in table.iter().zip(expected.iter()) {
        match (slot, want) {
            (Vector::Reserved, None) => {}
            (Vector::Handler(symbol), Some(_)) => {
                assert_eq!(symbol, "DefaultHandler_");
            }
            _ => panic!("slot kind does not match the hardware layout"),
        }
    }
}

#[test]
fn reserved_slots_stay_reserved_under_overrides() {
    let mut reg = HandlerRegistry::new();
    reg.register(Exception::BusError, String::from("my_bus_error"));
    reg.register(Exception::FormatError, String::from("my_format_error"));
    let table = build_vector_table(&reg);
    assert_eq!(table.len(), 14);
    assert!(matches!(table[10], Vector::Reserved));
    assert!(matches!(table[11], Vector::Reserved));
    assert!(matches!(table[13], Vector::Reserved));
    match &table[0] {
        Vector::Handler(symbol) => assert_eq!(symbol, "my_bus_error"),
        Vector::Reserved => panic!("bus error slot must hold a handler"),
    }
    match &table[12] {
        Vector::Handler(symbol) => assert_eq!(symbol, "my_format_error"),
        Vector::Reserved => panic!("format error slot must hold a handler"),
    }
    match &table[1] {
        Vector::Handler(symbol) => assert_eq!(symbol, "DefaultHandler_"),
        Vector::Reserved => panic!("address error slot must hold a handler"),
    }
}

#[test]
fn register_replaces_earlier_override() {
    let mut reg = HandlerRegistry::new();
    reg.register(Exception::Trace, String::from("first"));
    reg.register(Exception::Trace, String::from("second"));
    assert_eq!(reg.resolve(Exception::Trace), "second");
    assert_eq!(reg.resolve(Exception::ZeroDivide), "DefaultHandler_");
}

#[test]
fn fixed_symbols() {
    assert_eq!(default_handler_symbol(), "DefaultHandler_");
    assert_eq!(reset_vector_symbol(), "Reset");
}

#[test]
fn startup_runs_pre_init_before_memory_init_before_entry() {
    let steps = startup_sequence(MemoryInitPolicy::ZeroRam);
    assert_eq!(
        steps,
        vec![
            StartupStep::PreInitHook,
            StartupStep::MemoryInit(MemoryInitPolicy::ZeroRam),
            StartupStep::EntryCall
        ]
    );
    let steps = startup_sequence(MemoryInitPolicy::InitStaticSections);
    assert_eq!(steps.len(), 3);
    assert_eq!(
        steps[1],
        StartupStep::MemoryInit(MemoryInitPolicy::InitStaticSections)
    );
}

#[test]
fn exception_numbers_follow_hardware() {
    assert_eq!(Exception::BusError.number(), 2);
    assert_eq!(Exception::AddressError.number(), 3);
    assert_eq!(Exception::Line1111Emulator.number(), 11);
    assert_eq!(Exception::FormatError.number(), 14);
}

#[test]
fn access_information_decodes_bits() {
    let ai = AccessInformation::from_bits(0b1_0101);
    assert_eq!(ai.fc(), 0b101);
    assert!(ai.is_instruction());
    assert!(ai.is_read());
    let write_data = AccessInformation::from_bits(0b0_1010);
    assert_eq!(write_data.fc(), 0b010);
    assert!(!write_data.is_instruction());
    assert!(!write_data.is_read());
}

#[test]
fn exception_frames_keep_their_fields() {
    let ai = AccessInformation::from_bits(0b1_0001);
    let frame = ExceptionFrame::new(ai, 0x00FF_0010, 0x4E71, 0x2700, 0x0000_1234);
    assert_eq!(frame.aa(), 0x00FF_0010);
    assert_eq!(frame.ir(), 0x4E71);
    assert_eq!(frame.sr(), 0x2700);
    assert_eq!(frame.pc(), 0x0000_1234);
    assert_eq!(frame.ai().fc(), 1);
    let lower = LowerExceptionFrame::new(0x2000, 0x0000_4000);
    assert_eq!(lower.sr(), 0x2000);
    assert_eq!(lower.pc(), 0x0000_4000);
}
