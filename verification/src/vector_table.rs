//! The hardware exception vector table and the reset startup sequence.
//!
//! The table's shape is dictated by hardware: a distinguished reset slot,
//! then fourteen ordered slots for vector numbers 2 to 15, three of which
//! are reserved and must never hold a callable address.  A slot that no
//! handler was installed for falls back to the default handler, which
//! parks the processor in an infinite loop — there is no generic recovery
//! path for an unexpected core exception.

use vstd::prelude::*;

use crate::exception::Exception;

verus! {

/// Number of handler-or-reserved slots after the reset slot.
pub const EXCEPTION_SLOTS: usize = 14;

/// One vector-table slot: the exported symbol whose address the hardware
/// will fetch, or a reserved slot that is never populated.
#[derive(Debug)]
pub enum Vector {
    Handler(String),
    Reserved,
}

/// The symbol of the default handler every slot falls back to.
pub fn default_handler_symbol() -> (s: &'static str)
    ensures
        s@ == "DefaultHandler_"@,
{
    "DefaultHandler_"
}

/// The symbol of the reset entry point held in the distinguished reset
/// slot, outside the fourteen exception slots.
pub fn reset_vector_symbol() -> (s: &'static str)
    ensures
        s@ == "Reset"@,
{
    "Reset"
}

/// Whether table position `i` (0-based, for vector number `i + 2`) is one
/// of the three reserved slots: vectors 12, 13 and 15.
pub open spec fn slot_is_reserved(i: int) -> bool {
    i == 10 || i == 11 || i == 13
}

/// The exception source dispatched through table position `i`, for the
/// eleven positions that are not reserved.
pub open spec fn slot_exception(i: int) -> Exception {
    if i == 0 {
        Exception::BusError
    } else if i == 1 {
        Exception::AddressError
    } else if i == 2 {
        Exception::IllegalInstruction
    } else if i == 3 {
        Exception::ZeroDivide
    } else if i == 4 {
        Exception::CHKInstruction
    } else if i == 5 {
        Exception::TRAPVInstruction
    } else if i == 6 {
        Exception::PrivilegeViolation
    } else if i == 7 {
        Exception::Trace
    } else if i == 8 {
        Exception::Line1010Emulator
    } else if i == 9 {
        Exception::Line1111Emulator
    } else {
        Exception::FormatError
    }
}

/// First match for `ex` among registered (exception, symbol) pairs.
pub open spec fn spec_lookup(entries: Seq<(Exception, String)>, ex: Exception) -> Option<
    Seq<char>,
>
    decreases entries.len(),
{
    if entries.len() == 0 {
        None
    } else if entries[0].0 == ex {
        Some(entries[0].1@)
    } else {
        spec_lookup(entries.drop_first(), ex)
    }
}

/// The registry that takes the place of link-time weak-symbol
/// resolution: a mapping from exception source to handler symbol, in
/// which every entry not explicitly overridden resolves to the default
/// halt handler.
pub struct HandlerRegistry {
    entries: Vec<(Exception, String)>,
}

impl HandlerRegistry {
    /// The registered overrides, newest first.
    pub closed spec fn spec_entries(self) -> Seq<(Exception, String)> {
        self.entries@
    }

    /// The symbol `ex` resolves to: its registered override, or the
    /// default handler.
    pub open spec fn spec_resolve(self, ex: Exception) -> Seq<char> {
        match spec_lookup(self.spec_entries(), ex) {
            Some(s) => s,
            None => "DefaultHandler_"@,
        }
    }

    /// A registry with no overrides: everything resolves to the default
    /// handler.
    pub fn new() -> (r: HandlerRegistry)
        ensures
            r.spec_entries() == Seq::<(Exception, String)>::empty(),
            forall|ex: Exception| r.spec_resolve(ex) == "DefaultHandler_"@,
    {
        HandlerRegistry { entries: Vec::new() }
    }

    /// Install `symbol` as the handler for `ex`, replacing any earlier
    /// override; every other exception still resolves as before.
    pub fn register(&mut self, ex: Exception, symbol: String)
        ensures
            final(self).spec_resolve(ex) == symbol@,
            forall|other: Exception|
                other != ex ==> final(self).spec_resolve(other) == old(self).spec_resolve(other),
    {
        self.entries.insert(0, (ex, symbol));
        proof {
            assert(self.entries@.drop_first() =~= old(self).entries@);
        }
    }

    /// Look up the handler symbol for `ex`.
    pub fn resolve(&self, ex: Exception) -> (symbol: String)
        ensures
            symbol@ == self.spec_resolve(ex),
    {
        let n = self.entries.len();
        proof {
            assert(self.entries@.subrange(0, n as int) =~= self.entries@);
        }
        let mut i: usize = 0;
        while i < n
            invariant
                n == self.entries@.len(),
                i <= n,
                spec_lookup(self.entries@, ex) == spec_lookup(
                    self.entries@.subrange(i as int, n as int),
                    ex,
                ),
            decreases n - i,
        {
            let entry = &self.entries[i];
            proof {
                assert(self.entries@.subrange(i as int, n as int).drop_first() =~= self
                    .entries@.subrange(i as int + 1, n as int));
            }
            if entry.0 == ex {
                return entry.1.clone();
            }
            i = i + 1;
        }
        String::from_str(default_handler_symbol())
    }
}

/// Build the fourteen-entry vector table from the registry: the fixed
/// hardware order of exception sources, with the three reserved slots
/// left unpopulated and every handler slot holding the symbol its
/// exception resolves to.
pub fn build_vector_table(reg: &HandlerRegistry) -> (table: Vec<Vector>)
    ensures
        table@.len() == EXCEPTION_SLOTS,
        forall|i: int|
            0 <= i < EXCEPTION_SLOTS ==> match #[trigger] table@[i] {
                Vector::Reserved => slot_is_reserved(i),
                Vector::Handler(s) => !slot_is_reserved(i) && s@ == reg.spec_resolve(
                    slot_exception(i),
                ),
            },
{
    let mut table: Vec<Vector> = Vec::new();
    table.push(Vector::Handler(reg.resolve(Exception::BusError)));
    table.push(Vector::Handler(reg.resolve(Exception::AddressError)));
    table.push(Vector::Handler(reg.resolve(Exception::IllegalInstruction)));
    table.push(Vector::Handler(reg.resolve(Exception::ZeroDivide)));
    table.push(Vector::Handler(reg.resolve(Exception::CHKInstruction)));
    table.push(Vector::Handler(reg.resolve(Exception::TRAPVInstruction)));
    table.push(Vector::Handler(reg.resolve(Exception::PrivilegeViolation)));
    table.push(Vector::Handler(reg.resolve(Exception::Trace)));
    table.push(Vector::Handler(reg.resolve(Exception::Line1010Emulator)));
    table.push(Vector::Handler(reg.resolve(Exception::Line1111Emulator)));
    table.push(Vector::Reserved);
    table.push(Vector::Reserved);
    table.push(Vector::Handler(reg.resolve(Exception::FormatError)));
    table.push(Vector::Reserved);
    table
}

/// How reset makes static memory trustworthy; chosen at build time.
#[derive(Clone, Copy, PartialEq, Eq, Structural, Debug)]
pub enum MemoryInitPolicy {
    /// Fill all of RAM with zeroes.
    ZeroRam,
    /// Initialize only the linker-delimited static sections.
    InitStaticSections,
}

/// One step of the fixed reset flow.
#[derive(Clone, Copy, PartialEq, Eq, Structural, Debug)]
pub enum StartupStep {
    /// Run the user pre-init hook, before any memory is touched.
    PreInitHook,
    /// Make static state trustworthy under the build's chosen policy.
    MemoryInit(MemoryInitPolicy),
    /// Transfer control to the entry trampoline; this call never returns,
    /// and an illegal-instruction trap backstops a fall-through.
    EntryCall,
}

/// The startup sequence hardware reset triggers, in its fixed order: the
/// pre-init hook strictly before memory initialization — pre-init must
/// run before static state is trustworthy — and the entry call last.
pub fn startup_sequence(policy: MemoryInitPolicy) -> (steps: Vec<StartupStep>)
    ensures
        steps@ =~= seq![
            StartupStep::PreInitHook,
            StartupStep::MemoryInit(policy),
            StartupStep::EntryCall,
        ],
{
    let mut steps: Vec<StartupStep> = Vec::new();
    steps.push(StartupStep::PreInitHook);
    steps.push(StartupStep::MemoryInit(policy));
    steps.push(StartupStep::EntryCall);
    steps
}

} // verus!
