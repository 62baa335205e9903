//! The definition-time handler transform.
//!
//! Each declaration category — program entry, interrupt handler, trap
//! handler, pre-init hook — validates the function against its exact
//! signature contract, hoists the leading persistent-state declarations,
//! renames the function, and emits the exported trampoline that performs
//! the one-time initialization and forwards to the renamed function.
//! Every failure is a definition-time error carrying the violated
//! constraint; nothing is reported at run time.

use vstd::prelude::*;
use vstd::string::StringExecFns;

use crate::handler::Attr;
use crate::handler::AttrV;
use crate::handler::BodyStmt;
use crate::handler::BodyStmtV;
use crate::handler::HandlerFn;
use crate::handler::HandlerFnV;
use crate::handler::ReturnShape;
use crate::handler::StaticDecl;
use crate::handler::StaticDeclV;
use crate::handler::Visibility;
use crate::handler::attrs_allowed;
use crate::handler::cfgs_of;
use crate::handler::check_attr_whitelist;
use crate::handler::extract_cfgs;
use crate::handler::extract_static_muts;
use crate::handler::distinct_names;
use crate::handler::hoisted_statics;
use crate::handler::lemma_scan_ok;
use crate::handler::lemma_scan_payload;
use crate::handler::others_of;
use crate::handler::residual_body;
use crate::handler::scan_body;

verus! {

/// The declaration category a function was handed to.
#[derive(Clone, Copy, PartialEq, Eq, Structural, Debug)]
pub enum HandlerKind {
    Entry,
    Interrupt,
    PreInit,
    Trap,
}

/// A definition-time failure of the transform.
#[derive(Debug)]
pub enum TransformError {
    /// The signature does not meet the category's contract.
    InvalidSignature(HandlerKind),
    /// Arguments were passed to a declaration that accepts none.
    UnexpectedArguments,
    /// Two persistent-state declarations share the carried name.
    DuplicateStateName(String),
    /// The function carries a decoration outside the allow-list.
    AttributeNotAllowed(HandlerKind),
    /// The trap declaration came without its vector number.
    MissingTrapNumber,
    /// The trap vector number is outside the accepted range.
    InvalidTrapNumber,
    /// An interrupt handler was declared for the carried name, which
    /// matches no interrupt source of the device.
    UnknownInterrupt(String),
}

/// The mathematical value of a [`TransformError`].
pub enum TransformErrorV {
    InvalidSignature(HandlerKind),
    UnexpectedArguments,
    DuplicateStateName(Seq<char>),
    AttributeNotAllowed(HandlerKind),
    MissingTrapNumber,
    InvalidTrapNumber,
    UnknownInterrupt(Seq<char>),
}

impl View for TransformError {
    type V = TransformErrorV;

    open spec fn view(&self) -> TransformErrorV {
        match self {
            TransformError::InvalidSignature(k) => TransformErrorV::InvalidSignature(*k),
            TransformError::UnexpectedArguments => TransformErrorV::UnexpectedArguments,
            TransformError::DuplicateStateName(n) => TransformErrorV::DuplicateStateName(n@),
            TransformError::AttributeNotAllowed(k) => TransformErrorV::AttributeNotAllowed(*k),
            TransformError::MissingTrapNumber => TransformErrorV::MissingTrapNumber,
            TransformError::InvalidTrapNumber => TransformErrorV::InvalidTrapNumber,
            TransformError::UnknownInterrupt(n) => TransformErrorV::UnknownInterrupt(n@),
        }
    }
}

/// The build-failure text reported for error `e`.
pub open spec fn message_of(e: TransformErrorV) -> Seq<char> {
    match e {
        TransformErrorV::InvalidSignature(HandlerKind::Entry) =>
            "`#[entry]` function must have signature `[unsafe] fn() -> !`"@,
        TransformErrorV::InvalidSignature(HandlerKind::Interrupt) =>
            "`#[interrupt]` handlers must have signature `[unsafe] fn() [-> !]`"@,
        TransformErrorV::InvalidSignature(HandlerKind::PreInit) =>
            "`#[pre_init]` function must have signature `unsafe fn()`"@,
        TransformErrorV::InvalidSignature(HandlerKind::Trap) =>
            "`#[trap]` function must have () return type"@,
        TransformErrorV::UnexpectedArguments => "This attribute accepts no arguments"@,
        TransformErrorV::DuplicateStateName(n) => "the name `"@ + n
            + "` is defined multiple times"@,
        TransformErrorV::AttributeNotAllowed(HandlerKind::Entry) =>
            "this attribute is not allowed on a m68k-rt entry point"@,
        TransformErrorV::AttributeNotAllowed(HandlerKind::Interrupt) =>
            "this attribute is not allowed on an interrupt handler controlled by m68k-rt"@,
        TransformErrorV::AttributeNotAllowed(HandlerKind::PreInit) =>
            "this attribute is not allowed on a pre-init controlled by m68k-rt"@,
        TransformErrorV::AttributeNotAllowed(HandlerKind::Trap) =>
            "this attribute is not allowed on a TRAP instruction handler controlled by m68k-rt"@,
        TransformErrorV::MissingTrapNumber =>
            "Trap attribute needs trap number `n` from 0 to 15: `#[trap(num = n)]`"@,
        TransformErrorV::InvalidTrapNumber => "Invalid trap number. (Should be 0 to 15)"@,
        TransformErrorV::UnknownInterrupt(n) => "no interrupt source is named `"@ + n + "`"@,
    }
}

impl TransformError {
    /// The human-readable description of the violated constraint.
    pub fn message(&self) -> (m: String)
        ensures
            m@ == message_of(self@),
    {
        match self {
            TransformError::InvalidSignature(HandlerKind::Entry) => String::from_str(
                "`#[entry]` function must have signature `[unsafe] fn() -> !`",
            ),
            TransformError::InvalidSignature(HandlerKind::Interrupt) => String::from_str(
                "`#[interrupt]` handlers must have signature `[unsafe] fn() [-> !]`",
            ),
            TransformError::InvalidSignature(HandlerKind::PreInit) => String::from_str(
                "`#[pre_init]` function must have signature `unsafe fn()`",
            ),
            TransformError::InvalidSignature(HandlerKind::Trap) => String::from_str(
                "`#[trap]` function must have () return type",
            ),
            TransformError::UnexpectedArguments => String::from_str(
                "This attribute accepts no arguments",
            ),
            TransformError::DuplicateStateName(n) => String::from_str("the name `").concat(
                n.as_str(),
            ).concat("` is defined multiple times"),
            TransformError::AttributeNotAllowed(HandlerKind::Entry) => String::from_str(
                "this attribute is not allowed on a m68k-rt entry point",
            ),
            TransformError::AttributeNotAllowed(HandlerKind::Interrupt) => String::from_str(
                "this attribute is not allowed on an interrupt handler controlled by m68k-rt",
            ),
            TransformError::AttributeNotAllowed(HandlerKind::PreInit) => String::from_str(
                "this attribute is not allowed on a pre-init controlled by m68k-rt",
            ),
            TransformError::AttributeNotAllowed(HandlerKind::Trap) => String::from_str(
                "this attribute is not allowed on a TRAP instruction handler controlled by m68k-rt",
            ),
            TransformError::MissingTrapNumber => String::from_str(
                "Trap attribute needs trap number `n` from 0 to 15: `#[trap(num = n)]`",
            ),
            TransformError::InvalidTrapNumber => String::from_str(
                "Invalid trap number. (Should be 0 to 15)",
            ),
            TransformError::UnknownInterrupt(n) => String::from_str(
                "no interrupt source is named `",
            ).concat(n.as_str()).concat("`"),
        }
    }
}

/// A persistent-state parameter appended to the rewritten handler.
#[derive(Debug)]
pub struct Param {
    pub ident: String,
    pub ty: String,
    /// Entry-point state may live forever, since the entry point is
    /// called exactly once; handler state is borrowed per invocation.
    pub static_lifetime: bool,
}

/// The mathematical value of a [`Param`].
pub struct ParamV {
    pub ident: Seq<char>,
    pub ty: Seq<char>,
    pub static_lifetime: bool,
}

impl View for Param {
    type V = ParamV;

    open spec fn view(&self) -> ParamV {
        ParamV { ident: self.ident@, ty: self.ty@, static_lifetime: self.static_lifetime }
    }
}

/// The user function after the rewrite: renamed, with one exclusive
/// reference parameter per hoisted declaration, and the declarations
/// removed from the body.
#[derive(Debug)]
pub struct RewrittenFn {
    pub ident: String,
    pub params: Vec<Param>,
    pub body: Vec<BodyStmt>,
}

/// The mathematical value of a [`RewrittenFn`].
pub struct RewrittenFnV {
    pub ident: Seq<char>,
    pub params: Seq<ParamV>,
    pub body: Seq<BodyStmtV>,
}

impl View for RewrittenFn {
    type V = RewrittenFnV;

    open spec fn view(&self) -> RewrittenFnV {
        RewrittenFnV {
            ident: self.ident@,
            params: self.params@.map_values(|p: Param| p@),
            body: self.body@.map_values(|s: BodyStmt| s@),
        }
    }
}

/// The exported trampoline: it owns the persistent-state resources,
/// performs their one-time initialization, and forwards to the renamed
/// function under the identity-preserving exported name.
#[derive(Debug)]
pub struct TrampolineFn {
    pub ident: String,
    pub export_name: String,
    pub resources: Vec<StaticDecl>,
    pub target: String,
    pub cfg_attrs: Vec<Attr>,
    pub other_attrs: Vec<Attr>,
}

/// The mathematical value of a [`TrampolineFn`].
pub struct TrampolineFnV {
    pub ident: Seq<char>,
    pub export_name: Seq<char>,
    pub resources: Seq<StaticDeclV>,
    pub target: Seq<char>,
    pub cfg_attrs: Seq<AttrV>,
    pub other_attrs: Seq<AttrV>,
}

impl View for TrampolineFn {
    type V = TrampolineFnV;

    open spec fn view(&self) -> TrampolineFnV {
        TrampolineFnV {
            ident: self.ident@,
            export_name: self.export_name@,
            resources: self.resources@.map_values(|d: StaticDecl| d@),
            target: self.target@,
            cfg_attrs: self.cfg_attrs@.map_values(|a: Attr| a@),
            other_attrs: self.other_attrs@.map_values(|a: Attr| a@),
        }
    }
}

/// What a successful entry, interrupt or trap transform emits.
#[derive(Debug)]
pub struct GeneratedHandler {
    pub trampoline: TrampolineFn,
    pub handler: RewrittenFn,
}

/// The mathematical value of a [`GeneratedHandler`].
pub struct GeneratedHandlerV {
    pub trampoline: TrampolineFnV,
    pub handler: RewrittenFnV,
}

impl View for GeneratedHandler {
    type V = GeneratedHandlerV;

    open spec fn view(&self) -> GeneratedHandlerV {
        GeneratedHandlerV { trampoline: self.trampoline@, handler: self.handler@ }
    }
}

/// What a successful pre-init transform emits: the function itself,
/// unchanged, made public and exported under the fixed privileged
/// symbol.
#[derive(Debug)]
pub struct PreInitFn {
    pub export_name: String,
    pub ident: String,
    pub attrs: Vec<Attr>,
    pub body: Vec<BodyStmt>,
}

/// The mathematical value of a [`PreInitFn`].
pub struct PreInitFnV {
    pub export_name: Seq<char>,
    pub ident: Seq<char>,
    pub attrs: Seq<AttrV>,
    pub body: Seq<BodyStmtV>,
}

impl View for PreInitFn {
    type V = PreInitFnV;

    open spec fn view(&self) -> PreInitFnV {
        PreInitFnV {
            export_name: self.export_name@,
            ident: self.ident@,
            attrs: self.attrs@.map_values(|a: Attr| a@),
            body: self.body@.map_values(|s: BodyStmt| s@),
        }
    }
}

/// The views of a sequence of opaque argument tokens.
pub open spec fn texts(args: Seq<String>) -> Seq<Seq<char>> {
    args.map_values(|s: String| s@)
}

/// The internal name a validated function is renamed to.
pub open spec fn rename(ident: Seq<char>) -> Seq<char> {
    "__m68k_rt_"@ + ident
}

/// The name of the trampoline emitted for a renamed function.
pub open spec fn trampoline_ident(renamed: Seq<char>) -> Seq<char> {
    renamed + "_trampoline"@
}

/// The signature contract of the entry category: an unexported, plain
/// function taking nothing and never returning.
pub open spec fn entry_sig_ok(f: HandlerFnV) -> bool {
    &&& !f.sig.is_const
    &&& f.vis == Visibility::Inherited
    &&& !f.sig.has_abi
    &&& f.sig.inputs == 0
    &&& f.sig.generics == 0
    &&& !f.sig.has_where_clause
    &&& !f.sig.is_variadic
    &&& f.sig.output == ReturnShape::Never
}

/// The signature contract of the interrupt category: takes nothing,
/// returns nothing or never returns.
pub open spec fn interrupt_sig_ok(f: HandlerFnV) -> bool {
    &&& !f.sig.is_const
    &&& f.vis == Visibility::Inherited
    &&& !f.sig.has_abi
    &&& f.sig.inputs == 0
    &&& f.sig.generics == 0
    &&& !f.sig.has_where_clause
    &&& !f.sig.is_variadic
    &&& (f.sig.output == ReturnShape::Omitted || f.sig.output == ReturnShape::Unit || f.sig.output
        == ReturnShape::Never)
}

/// The signature contract of the pre-init category: explicitly marked
/// unsafe, takes nothing, returns nothing.
pub open spec fn pre_init_sig_ok(f: HandlerFnV) -> bool {
    &&& !f.sig.is_const
    &&& f.vis == Visibility::Inherited
    &&& f.sig.is_unsafe
    &&& !f.sig.has_abi
    &&& f.sig.inputs == 0
    &&& f.sig.generics == 0
    &&& !f.sig.has_where_clause
    &&& !f.sig.is_variadic
    &&& (f.sig.output == ReturnShape::Omitted || f.sig.output == ReturnShape::Unit)
}

/// The signature contract of the trap category: a plain function whose
/// return type is left unwritten.
pub open spec fn trap_sig_ok(f: HandlerFnV) -> bool {
    &&& !f.sig.is_const
    &&& f.vis == Visibility::Inherited
    &&& !f.sig.has_abi
    &&& f.sig.generics == 0
    &&& !f.sig.has_where_clause
    &&& f.sig.output == ReturnShape::Omitted
}

/// The parameter a hoisted declaration turns into.
pub open spec fn param_of(d: StaticDeclV, static_lifetime: bool) -> ParamV {
    ParamV { ident: d.ident, ty: d.ty, static_lifetime }
}

/// The renamed function and its trampoline, assembled from the scan's
/// results.
pub open spec fn generated(
    f: HandlerFnV,
    statics: Seq<StaticDeclV>,
    body: Seq<BodyStmtV>,
    export_name: Seq<char>,
    static_lifetime: bool,
) -> GeneratedHandlerV {
    GeneratedHandlerV {
        trampoline: TrampolineFnV {
            ident: trampoline_ident(rename(f.sig.ident)),
            export_name,
            resources: statics,
            target: rename(f.sig.ident),
            cfg_attrs: cfgs_of(f.attrs),
            other_attrs: others_of(f.attrs),
        },
        handler: RewrittenFnV {
            ident: rename(f.sig.ident),
            params: statics.map_values(|d: StaticDeclV| param_of(d, static_lifetime)),
            body,
        },
    }
}

/// The entry transform: validate the signature, refuse arguments, hoist
/// the persistent state, check the decorations, and emit the trampoline
/// exported as the fixed bootstrap symbol.  Entry-point state is handed
/// on with an unbounded lifetime, since the entry point is called once
/// and never again.
pub open spec fn entry_spec(f: HandlerFnV, args: Seq<Seq<char>>) -> Result<
    GeneratedHandlerV,
    TransformErrorV,
> {
    if !entry_sig_ok(f) {
        Err(TransformErrorV::InvalidSignature(HandlerKind::Entry))
    } else if args.len() != 0 {
        Err(TransformErrorV::UnexpectedArguments)
    } else {
        match scan_body(f.body) {
            Err(name) => Err(TransformErrorV::DuplicateStateName(name)),
            Ok(parts) => if !attrs_allowed(f.attrs) {
                Err(TransformErrorV::AttributeNotAllowed(HandlerKind::Entry))
            } else {
                Ok(generated(f, parts.0, parts.1, "main"@, true))
            },
        }
    }
}

/// The interrupt transform: as the entry transform, but exported under
/// the handler's own name, with per-invocation state, the rewritten body
/// prefixed with a reference to the interrupt identifier, and a handler
/// for a name outside the device's interrupt sources rejected at
/// definition time rather than silently bound.
pub open spec fn interrupt_spec(
    f: HandlerFnV,
    args: Seq<Seq<char>>,
    known: Seq<Seq<char>>,
) -> Result<GeneratedHandlerV, TransformErrorV> {
    if args.len() != 0 {
        Err(TransformErrorV::UnexpectedArguments)
    } else if !interrupt_sig_ok(f) {
        Err(TransformErrorV::InvalidSignature(HandlerKind::Interrupt))
    } else {
        match scan_body(f.body) {
            Err(name) => Err(TransformErrorV::DuplicateStateName(name)),
            Ok(parts) => if !attrs_allowed(f.attrs) {
                Err(TransformErrorV::AttributeNotAllowed(HandlerKind::Interrupt))
            } else if !known.contains(f.sig.ident) {
                Err(TransformErrorV::UnknownInterrupt(f.sig.ident))
            } else {
                Ok(
                    generated(
                        f,
                        parts.0,
                        seq![BodyStmtV::BindingRef(f.sig.ident)] + parts.1,
                        f.sig.ident,
                        false,
                    ),
                )
            },
        }
    }
}

/// The accepted trap vectors: 1 to 14 inclusive.  Vectors 0 and 15 are
/// rejected, as is anything beyond the sixteen hardware trap vectors.
pub open spec fn trap_vector_ok(n: i64) -> bool {
    1 <= n <= 14
}

/// The exported symbol of the trap trampoline for vector `n`.
pub open spec fn trap_export(n: i64) -> Seq<char> {
    if n == 1 {
        "_TRAP1"@
    } else if n == 2 {
        "_TRAP2"@
    } else if n == 3 {
        "_TRAP3"@
    } else if n == 4 {
        "_TRAP4"@
    } else if n == 5 {
        "_TRAP5"@
    } else if n == 6 {
        "_TRAP6"@
    } else if n == 7 {
        "_TRAP7"@
    } else if n == 8 {
        "_TRAP8"@
    } else if n == 9 {
        "_TRAP9"@
    } else if n == 10 {
        "_TRAP10"@
    } else if n == 11 {
        "_TRAP11"@
    } else if n == 12 {
        "_TRAP12"@
    } else if n == 13 {
        "_TRAP13"@
    } else {
        "_TRAP14"@
    }
}

/// The trap transform: require a vector number in range, validate the
/// signature, rename the function and emit the trampoline exported under
/// the vector-specific symbol.  No persistent-state hoisting is
/// performed for this category.
pub open spec fn trap_spec(f: HandlerFnV, num: Option<i64>) -> Result<
    GeneratedHandlerV,
    TransformErrorV,
> {
    match num {
        None => Err(TransformErrorV::MissingTrapNumber),
        Some(n) => if !trap_vector_ok(n) {
            Err(TransformErrorV::InvalidTrapNumber)
        } else if !trap_sig_ok(f) {
            Err(TransformErrorV::InvalidSignature(HandlerKind::Trap))
        } else {
            Ok(generated(f, Seq::empty(), f.body, trap_export(n), false))
        },
    }
}

/// The pre-init transform: validate the privileged signature, refuse
/// arguments, check the decorations, and export the function unchanged
/// under the fixed pre-init symbol.
pub open spec fn pre_init_spec(f: HandlerFnV, args: Seq<Seq<char>>) -> Result<
    PreInitFnV,
    TransformErrorV,
> {
    if !pre_init_sig_ok(f) {
        Err(TransformErrorV::InvalidSignature(HandlerKind::PreInit))
    } else if args.len() != 0 {
        Err(TransformErrorV::UnexpectedArguments)
    } else if !attrs_allowed(f.attrs) {
        Err(TransformErrorV::AttributeNotAllowed(HandlerKind::PreInit))
    } else {
        Ok(
            PreInitFnV {
                export_name: "__pre_init"@,
                ident: f.sig.ident,
                attrs: f.attrs,
                body: f.body,
            },
        )
    }
}

/// The view of a transform result.
pub open spec fn result_view(r: Result<GeneratedHandler, TransformError>) -> Result<
    GeneratedHandlerV,
    TransformErrorV,
> {
    match r {
        Ok(g) => Ok(g@),
        Err(e) => Err(e@),
    }
}

/// The view of a pre-init transform result.
pub open spec fn pre_init_result_view(r: Result<PreInitFn, TransformError>) -> Result<
    PreInitFnV,
    TransformErrorV,
> {
    match r {
        Ok(g) => Ok(g@),
        Err(e) => Err(e@),
    }
}

/// A fresh copy of a statement sequence.
fn duplicate_stmts(stmts: &Vec<BodyStmt>) -> (r: Vec<BodyStmt>)
    ensures
        r@.map_values(|s: BodyStmt| s@) == stmts@.map_values(|s: BodyStmt| s@),
{
    let mut r: Vec<BodyStmt> = Vec::new();
    let n = stmts.len();
    let mut i: usize = 0;
    while i < n
        invariant
            n == stmts.len(),
            i <= n,
            r@.map_values(|s: BodyStmt| s@) =~= stmts@.map_values(|s: BodyStmt| s@).subrange(
                0,
                i as int,
            ),
        decreases n - i,
    {
        let ghost pre = r@.map_values(|s: BodyStmt| s@);
        r.push(stmts[i].duplicate());
        proof {
            assert(stmts@.map_values(|s: BodyStmt| s@)[i as int] == stmts@[i as int]@);
            assert(r@.map_values(|s: BodyStmt| s@) =~= pre.push(stmts@[i as int]@));
        }
        i = i + 1;
    }
    proof {
        assert(stmts@.map_values(|s: BodyStmt| s@).subrange(0, n as int) =~= stmts@.map_values(
            |s: BodyStmt| s@,
        ));
    }
    r
}

/// A fresh copy of an attribute sequence.
fn duplicate_attrs(attrs: &Vec<Attr>) -> (r: Vec<Attr>)
    ensures
        r@.map_values(|a: Attr| a@) == attrs@.map_values(|a: Attr| a@),
{
    let mut r: Vec<Attr> = Vec::new();
    let n = attrs.len();
    let mut i: usize = 0;
    while i < n
        invariant
            n == attrs.len(),
            i <= n,
            r@.map_values(|a: Attr| a@) =~= attrs@.map_values(|a: Attr| a@).subrange(0, i as int),
        decreases n - i,
    {
        let ghost pre = r@.map_values(|a: Attr| a@);
        r.push(attrs[i].duplicate());
        proof {
            assert(attrs@.map_values(|a: Attr| a@)[i as int] == attrs@[i as int]@);
            assert(r@.map_values(|a: Attr| a@) =~= pre.push(attrs@[i as int]@));
        }
        i = i + 1;
    }
    proof {
        assert(attrs@.map_values(|a: Attr| a@).subrange(0, n as int) =~= attrs@.map_values(
            |a: Attr| a@,
        ));
    }
    r
}

/// The parameter list the hoisted declarations turn into, in order.
fn params_from(statics: &Vec<StaticDecl>, static_lifetime: bool) -> (params: Vec<Param>)
    ensures
        params@.map_values(|p: Param| p@) == statics@.map_values(|d: StaticDecl| d@).map_values(
            |d: StaticDeclV| param_of(d, static_lifetime),
        ),
{
    let ghost goal: Seq<ParamV> = statics@.map_values(|d: StaticDecl| d@).map_values(
        |d: StaticDeclV| param_of(d, static_lifetime),
    );
    let mut params: Vec<Param> = Vec::new();
    let n = statics.len();
    let mut i: usize = 0;
    while i < n
        invariant
            n == statics.len(),
            i <= n,
            goal == statics@.map_values(|d: StaticDecl| d@).map_values(
                |d: StaticDeclV| param_of(d, static_lifetime),
            ),
            goal.len() == n,
            params@.map_values(|p: Param| p@) =~= goal.subrange(0, i as int),
        decreases n - i,
    {
        let ghost pre = params@.map_values(|p: Param| p@);
        let d = &statics[i];
        params.push(
            Param { ident: d.ident.clone(), ty: d.ty.clone(), static_lifetime },
        );
        proof {
            assert(statics@.map_values(|x: StaticDecl| x@)[i as int] == statics@[i as int]@);
            assert(goal[i as int] == param_of(statics@[i as int]@, static_lifetime));
            assert(params@.map_values(|p: Param| p@) =~= pre.push(
                param_of(statics@[i as int]@, static_lifetime),
            ));
        }
        i = i + 1;
    }
    proof {
        assert(goal.subrange(0, n as int) =~= goal);
    }
    params
}

/// The renamed internal identifier for `ident`.
fn rename_ident(ident: &String) -> (r: String)
    ensures
        r@ == rename(ident@),
{
    String::from_str("__m68k_rt_").concat(ident.as_str())
}

/// The trampoline identifier for a renamed function.
fn trampoline_ident_of(renamed: &String) -> (r: String)
    ensures
        r@ == trampoline_ident(renamed@),
{
    renamed.clone().concat("_trampoline")
}

/// Attribute to declare the entry point of the program.
///
/// Validates that the function has the shape `[unsafe] fn() -> !` with no
/// arguments to the attribute, hoists its leading mutable statics into
/// trampoline-owned persistent state, and emits the trampoline under the
/// fixed bootstrap symbol the startup sequence jumps to.
pub fn entry(f: &HandlerFn, args: &Vec<String>) -> (r: Result<GeneratedHandler, TransformError>)
    ensures
        result_view(r) == entry_spec(f@, texts(args@)),
{
    let sig = &f.sig;
    let valid_signature = !sig.is_const && matches!(f.vis, Visibility::Inherited) && !sig.has_abi
        && sig.inputs == 0 && sig.generics == 0 && !sig.has_where_clause && !sig.is_variadic
        && matches!(sig.output, ReturnShape::Never);
    if !valid_signature {
        return Err(TransformError::InvalidSignature(HandlerKind::Entry));
    }
    if args.len() != 0 {
        return Err(TransformError::UnexpectedArguments);
    }
    let (statics, stmts) = match extract_static_muts(&f.body) {
        Err(name) => return Err(TransformError::DuplicateStateName(name)),
        Ok(x) => x,
    };
    if !check_attr_whitelist(&f.attrs) {
        return Err(TransformError::AttributeNotAllowed(HandlerKind::Entry));
    }
    let (cfgs, attrs) = extract_cfgs(&f.attrs);
    let renamed = rename_ident(&f.sig.ident);
    let tramp = trampoline_ident_of(&renamed);
    let params = params_from(&statics, true);
    let g = GeneratedHandler {
        trampoline: TrampolineFn {
            ident: tramp,
            export_name: String::from_str("main"),
            resources: statics,
            target: renamed.clone(),
            cfg_attrs: cfgs,
            other_attrs: attrs,
        },
        handler: RewrittenFn { ident: renamed, params, body: stmts },
    };
    Ok(g)
}

/// Does `names` hold an entry whose text is `target`'s?
fn contains_name(names: &Vec<String>, target: &String) -> (r: bool)
    ensures
        r == texts(names@).contains(target@),
{
    let n = names.len();
    let mut i: usize = 0;
    while i < n
        invariant
            n == names.len(),
            i <= n,
            forall|k: int| 0 <= k < i ==> texts(names@)[k] != target@,
        decreases n - i,
    {
        let hit = names[i].eq(target);
        proof {
            assert(texts(names@)[i as int] == names@[i as int]@);
        }
        if hit {
            return true;
        }
        i = i + 1;
    }
    proof {
        assert(forall|k: int| 0 <= k < texts(names@).len() ==> texts(names@)[k] != target@);
    }
    false
}

/// Attribute to declare an interrupt handler.
///
/// Validates the shape `[unsafe] fn() [-> !]` with no attribute
/// arguments, hoists leading mutable statics into per-invocation
/// persistent state, prefixes the rewritten body with a reference to the
/// interrupt identifier, and emits the trampoline exported under the
/// handler's own name.  A handler named after no interrupt source of the
/// device is rejected at definition time.
pub fn interrupt(f: &HandlerFn, args: &Vec<String>, known_interrupts: &Vec<String>) -> (r: Result<
    GeneratedHandler,
    TransformError,
>)
    ensures
        result_view(r) == interrupt_spec(f@, texts(args@), texts(known_interrupts@)),
{
    if args.len() != 0 {
        return Err(TransformError::UnexpectedArguments);
    }
    let sig = &f.sig;
    let valid_signature = !sig.is_const && matches!(f.vis, Visibility::Inherited) && !sig.has_abi
        && sig.inputs == 0 && sig.generics == 0 && !sig.has_where_clause && !sig.is_variadic
        && (matches!(sig.output, ReturnShape::Omitted) || matches!(sig.output, ReturnShape::Unit)
        || matches!(sig.output, ReturnShape::Never));
    if !valid_signature {
        return Err(TransformError::InvalidSignature(HandlerKind::Interrupt));
    }
    let (statics, stmts) = match extract_static_muts(&f.body) {
        Err(name) => return Err(TransformError::DuplicateStateName(name)),
        Ok(x) => x,
    };
    if !check_attr_whitelist(&f.attrs) {
        return Err(TransformError::AttributeNotAllowed(HandlerKind::Interrupt));
    }
    if !contains_name(known_interrupts, &f.sig.ident) {
        return Err(TransformError::UnknownInterrupt(f.sig.ident.clone()));
    }
    let (cfgs, attrs) = extract_cfgs(&f.attrs);
    let renamed = rename_ident(&f.sig.ident);
    let tramp = trampoline_ident_of(&renamed);
    let params = params_from(&statics, false);
    let ghost stmts_view = stmts@.map_values(|s: BodyStmt| s@);
    let mut body: Vec<BodyStmt> = Vec::new();
    body.push(BodyStmt::BindingRef(f.sig.ident.clone()));
    let mut tail = stmts;
    body.append(&mut tail);
    proof {
        assert(body@.map_values(|s: BodyStmt| s@) =~= seq![BodyStmtV::BindingRef(f@.sig.ident)]
            + stmts_view);
    }
    let g = GeneratedHandler {
        trampoline: TrampolineFn {
            ident: tramp,
            export_name: f.sig.ident.clone(),
            resources: statics,
            target: renamed.clone(),
            cfg_attrs: cfgs,
            other_attrs: attrs,
        },
        handler: RewrittenFn { ident: renamed, params, body },
    };
    Ok(g)
}

/// The exported symbol for the trap trampoline of vector `n`.
pub fn trap_export_name(n: i64) -> (r: String)
    requires
        trap_vector_ok(n),
    ensures
        r@ == trap_export(n),
{
    if n == 1 {
        String::from_str("_TRAP1")
    } else if n == 2 {
        String::from_str("_TRAP2")
    } else if n == 3 {
        String::from_str("_TRAP3")
    } else if n == 4 {
        String::from_str("_TRAP4")
    } else if n == 5 {
        String::from_str("_TRAP5")
    } else if n == 6 {
        String::from_str("_TRAP6")
    } else if n == 7 {
        String::from_str("_TRAP7")
    } else if n == 8 {
        String::from_str("_TRAP8")
    } else if n == 9 {
        String::from_str("_TRAP9")
    } else if n == 10 {
        String::from_str("_TRAP10")
    } else if n == 11 {
        String::from_str("_TRAP11")
    } else if n == 12 {
        String::from_str("_TRAP12")
    } else if n == 13 {
        String::from_str("_TRAP13")
    } else {
        String::from_str("_TRAP14")
    }
}

/// Attribute to bind a function to one of the hardware trap-instruction
/// vectors.
///
/// The vector number is required; the accepted range is 1 to 14
/// inclusive, so vectors 0 and 15 are rejected.  The function must write
/// no return type.  The validated function is renamed and its trampoline
/// exported under the vector-specific symbol; no persistent-state
/// hoisting is performed.
pub fn trap(f: &HandlerFn, num: Option<i64>) -> (r: Result<GeneratedHandler, TransformError>)
    ensures
        result_view(r) == trap_spec(f@, num),
{
    let n = match num {
        None => return Err(TransformError::MissingTrapNumber),
        Some(n) => n,
    };
    if !(1 <= n && n <= 14) {
        return Err(TransformError::InvalidTrapNumber);
    }
    let sig = &f.sig;
    let valid_signature = !sig.is_const && matches!(f.vis, Visibility::Inherited) && !sig.has_abi
        && sig.generics == 0 && !sig.has_where_clause && matches!(sig.output, ReturnShape::Omitted);
    if !valid_signature {
        return Err(TransformError::InvalidSignature(HandlerKind::Trap));
    }
    let (cfgs, attrs) = extract_cfgs(&f.attrs);
    let renamed = rename_ident(&f.sig.ident);
    let tramp = trampoline_ident_of(&renamed);
    let body = duplicate_stmts(&f.body);
    let g = GeneratedHandler {
        trampoline: TrampolineFn {
            ident: tramp,
            export_name: trap_export_name(n),
            resources: Vec::new(),
            target: renamed.clone(),
            cfg_attrs: cfgs,
            other_attrs: attrs,
        },
        handler: RewrittenFn { ident: renamed, params: Vec::new(), body },
    };
    proof {
        assert(g@.trampoline.resources =~= Seq::<StaticDeclV>::empty());
        assert(g@.handler.params =~= Seq::<ParamV>::empty());
        assert(Seq::<StaticDeclV>::empty().map_values(
            |d: StaticDeclV| param_of(d, false),
        ) =~= Seq::<ParamV>::empty());
    }
    Ok(g)
}

/// Attribute to mark the function called at the very start of the reset
/// handler, before memory initialization.
///
/// The function must be explicitly unsafe, take nothing and return
/// nothing, and the attribute takes no arguments.  The function is kept
/// unchanged and exported under the fixed privileged symbol.  At most
/// one pre-init hook may exist in a program; since the hooks contend
/// only at link time, that is the caller's obligation, not checked
/// here.
pub fn pre_init(f: &HandlerFn, args: &Vec<String>) -> (r: Result<PreInitFn, TransformError>)
    ensures
        pre_init_result_view(r) == pre_init_spec(f@, texts(args@)),
{
    let sig = &f.sig;
    let valid_signature = !sig.is_const && matches!(f.vis, Visibility::Inherited) && sig.is_unsafe
        && !sig.has_abi && sig.inputs == 0 && sig.generics == 0 && !sig.has_where_clause
        && !sig.is_variadic && (matches!(sig.output, ReturnShape::Omitted) || matches!(
            sig.output,
            ReturnShape::Unit,
        ));
    if !valid_signature {
        return Err(TransformError::InvalidSignature(HandlerKind::PreInit));
    }
    if args.len() != 0 {
        return Err(TransformError::UnexpectedArguments);
    }
    if !check_attr_whitelist(&f.attrs) {
        return Err(TransformError::AttributeNotAllowed(HandlerKind::PreInit));
    }
    let g = PreInitFn {
        export_name: String::from_str("__pre_init"),
        ident: f.sig.ident.clone(),
        attrs: duplicate_attrs(&f.attrs),
        body: duplicate_stmts(&f.body),
    };
    Ok(g)
}

/// Trap vector validation accepts exactly the vectors 1 to 14: with the
/// number present and the function well shaped the transform succeeds on
/// every vector in that range, and on 0, 15, anything larger and
/// anything negative it fails with the range error before the function
/// is even looked at.  A missing number is its own error.
pub proof fn lemma_trap_vector_range(f: HandlerFnV, n: i64)
    ensures
        trap_spec(f, Some(n)) is Ok <==> (trap_vector_ok(n) && trap_sig_ok(f)),
        !trap_vector_ok(n) ==> trap_spec(f, Some(n)) == Err::<GeneratedHandlerV, TransformErrorV>(
            TransformErrorV::InvalidTrapNumber,
        ),
        trap_spec(f, None) == Err::<GeneratedHandlerV, TransformErrorV>(
            TransformErrorV::MissingTrapNumber,
        ),
{
}

/// Duplicate persistent-state names within one handler are rejected at
/// definition time: whenever two hoisted declarations of an entry
/// function share a name, the transform reports the duplicate-name
/// error.
pub proof fn lemma_duplicate_names_rejected(f: HandlerFnV, args: Seq<Seq<char>>)
    requires
        entry_sig_ok(f),
        args.len() == 0,
        !distinct_names(hoisted_statics(f.body)),
    ensures
        entry_spec(f, args) matches Err(TransformErrorV::DuplicateStateName(_)),
{
    lemma_scan_ok(f.body, Seq::empty(), Seq::empty());
    assert(Seq::<StaticDeclV>::empty() + hoisted_statics(f.body) =~= hoisted_statics(f.body));
}

/// A successful entry transform hands every hoisted declaration on
/// exactly once and in declaration order: the trampoline's resources are
/// precisely the leading mutable statics of the body, the rewritten
/// function's parameters mirror them one for one in the same order, and
/// its body is precisely what remains once they are removed.
pub proof fn lemma_entry_resources(f: HandlerFnV, args: Seq<Seq<char>>)
    requires
        entry_spec(f, args) is Ok,
    ensures
        entry_spec(f, args)->Ok_0.trampoline.resources == hoisted_statics(f.body),
        entry_spec(f, args)->Ok_0.handler.params == hoisted_statics(f.body).map_values(
            |d: StaticDeclV| param_of(d, true),
        ),
        entry_spec(f, args)->Ok_0.handler.body == residual_body(f.body),
{
    lemma_scan_payload(f.body, Seq::empty(), Seq::empty());
    assert(Seq::<StaticDeclV>::empty() + hoisted_statics(f.body) =~= hoisted_statics(f.body));
    assert(Seq::<BodyStmtV>::empty() + residual_body(f.body) =~= residual_body(f.body));
}

/// Persistent-state names are local to their handler: two different
/// entry functions may declare state under the very same names, and each
/// transform still succeeds, because each scan only compares names
/// within its own body.
pub proof fn lemma_state_names_are_local(f1: HandlerFnV, f2: HandlerFnV, args: Seq<Seq<char>>)
    requires
        entry_sig_ok(f1),
        entry_sig_ok(f2),
        args.len() == 0,
        attrs_allowed(f1.attrs),
        attrs_allowed(f2.attrs),
        distinct_names(hoisted_statics(f1.body)),
        distinct_names(hoisted_statics(f2.body)),
    ensures
        entry_spec(f1, args) is Ok,
        entry_spec(f2, args) is Ok,
{
    lemma_scan_ok(f1.body, Seq::empty(), Seq::empty());
    assert(Seq::<StaticDeclV>::empty() + hoisted_statics(f1.body) =~= hoisted_statics(f1.body));
    lemma_scan_ok(f2.body, Seq::empty(), Seq::empty());
    assert(Seq::<StaticDeclV>::empty() + hoisted_statics(f2.body) =~= hoisted_statics(f2.body));
}

} // verus!
