//! The structured description of a user-written handler function, and the
//! scan that lifts its leading persistent-state declarations.
//!
//! The definition-time transform does not read source text; it consumes
//! this description — visibility, signature shape, decorations, and the
//! body as a sequence of statements — and the scan below decides which
//! declarations become persistent state and which statements stay in the
//! body.

use vstd::prelude::*;
use vstd::string::StringExecFns;

verus! {

/// How the function writes its return type.
#[derive(Clone, Copy, PartialEq, Eq, Structural, Debug)]
pub enum ReturnShape {
    /// No return type is written at all.
    Omitted,
    /// An explicit unit return type.
    Unit,
    /// The never type: the function cannot return.
    Never,
    /// Any other return type.
    Other,
}

/// The visibility written on the function.
#[derive(Clone, Copy, PartialEq, Eq, Structural, Debug)]
pub enum Visibility {
    /// No visibility keyword: private to its module.
    Inherited,
    /// Any explicit visibility.
    Public,
}

/// A decoration on the handler function: its style (outer or inner) and
/// the name its path spells.
#[derive(Debug)]
pub struct Attr {
    pub outer: bool,
    pub name: String,
}

/// The mathematical value of an [`Attr`].
pub struct AttrV {
    pub outer: bool,
    pub name: Seq<char>,
}

impl View for Attr {
    type V = AttrV;

    open spec fn view(&self) -> AttrV {
        AttrV { outer: self.outer, name: self.name@ }
    }
}

impl Attr {
    /// A fresh value equal to this one.
    pub fn duplicate(&self) -> (r: Attr)
        ensures
            r@ == self@,
    {
        Attr { outer: self.outer, name: self.name.clone() }
    }
}

/// A persistent-state declaration: a mutable static at the top of a
/// handler body, with its name, its type and its initializer, both
/// carried as opaque text.
#[derive(Debug)]
pub struct StaticDecl {
    pub ident: String,
    pub ty: String,
    pub init: String,
}

/// The mathematical value of a [`StaticDecl`].
pub struct StaticDeclV {
    pub ident: Seq<char>,
    pub ty: Seq<char>,
    pub init: Seq<char>,
}

impl View for StaticDecl {
    type V = StaticDeclV;

    open spec fn view(&self) -> StaticDeclV {
        StaticDeclV { ident: self.ident@, ty: self.ty@, init: self.init@ }
    }
}

impl StaticDecl {
    /// A fresh value equal to this one.
    pub fn duplicate(&self) -> (r: StaticDecl)
        ensures
            r@ == self@,
    {
        StaticDecl { ident: self.ident.clone(), ty: self.ty.clone(), init: self.init.clone() }
    }
}

/// One statement of a handler body, as the transform sees it.
#[derive(Debug)]
pub enum BodyStmt {
    /// A mutable static item: a persistent-state declaration.
    StaticMut(StaticDecl),
    /// An immutable static item; it stays in the body and does not stop
    /// the scan.
    StaticImmutable(StaticDecl),
    /// Any other statement, carried as opaque text; it stops the scan.
    Other(String),
    /// A reference to an interrupt identifier, prefixed to a rewritten
    /// interrupt body so a handler for an unknown source cannot bind.
    BindingRef(String),
}

/// The mathematical value of a [`BodyStmt`].
pub enum BodyStmtV {
    StaticMut(StaticDeclV),
    StaticImmutable(StaticDeclV),
    Other(Seq<char>),
    BindingRef(Seq<char>),
}

impl View for BodyStmt {
    type V = BodyStmtV;

    open spec fn view(&self) -> BodyStmtV {
        match self {
            BodyStmt::StaticMut(d) => BodyStmtV::StaticMut(d@),
            BodyStmt::StaticImmutable(d) => BodyStmtV::StaticImmutable(d@),
            BodyStmt::Other(s) => BodyStmtV::Other(s@),
            BodyStmt::BindingRef(s) => BodyStmtV::BindingRef(s@),
        }
    }
}

impl BodyStmt {
    /// A fresh value equal to this one.
    pub fn duplicate(&self) -> (r: BodyStmt)
        ensures
            r@ == self@,
    {
        match self {
            BodyStmt::StaticMut(d) => BodyStmt::StaticMut(d.duplicate()),
            BodyStmt::StaticImmutable(d) => BodyStmt::StaticImmutable(d.duplicate()),
            BodyStmt::Other(s) => BodyStmt::Other(s.clone()),
            BodyStmt::BindingRef(s) => BodyStmt::BindingRef(s.clone()),
        }
    }
}

/// The shape of a function signature, reduced to exactly the facts the
/// category contracts decide on.
#[derive(Debug)]
pub struct Signature {
    pub ident: String,
    pub is_const: bool,
    pub is_unsafe: bool,
    pub has_abi: bool,
    pub inputs: usize,
    pub generics: usize,
    pub has_where_clause: bool,
    pub is_variadic: bool,
    pub output: ReturnShape,
}

/// The mathematical value of a [`Signature`].
pub struct SignatureV {
    pub ident: Seq<char>,
    pub is_const: bool,
    pub is_unsafe: bool,
    pub has_abi: bool,
    pub inputs: nat,
    pub generics: nat,
    pub has_where_clause: bool,
    pub is_variadic: bool,
    pub output: ReturnShape,
}

impl View for Signature {
    type V = SignatureV;

    open spec fn view(&self) -> SignatureV {
        SignatureV {
            ident: self.ident@,
            is_const: self.is_const,
            is_unsafe: self.is_unsafe,
            has_abi: self.has_abi,
            inputs: self.inputs as nat,
            generics: self.generics as nat,
            has_where_clause: self.has_where_clause,
            is_variadic: self.is_variadic,
            output: self.output,
        }
    }
}

/// A user-written handler function, as handed to the transform.
#[derive(Debug)]
pub struct HandlerFn {
    pub vis: Visibility,
    pub sig: Signature,
    pub attrs: Vec<Attr>,
    pub body: Vec<BodyStmt>,
}

/// The mathematical value of a [`HandlerFn`].
pub struct HandlerFnV {
    pub vis: Visibility,
    pub sig: SignatureV,
    pub attrs: Seq<AttrV>,
    pub body: Seq<BodyStmtV>,
}

impl View for HandlerFn {
    type V = HandlerFnV;

    open spec fn view(&self) -> HandlerFnV {
        HandlerFnV {
            vis: self.vis,
            sig: self.sig@,
            attrs: self.attrs@.map_values(|a: Attr| a@),
            body: self.body@.map_values(|s: BodyStmt| s@),
        }
    }
}

/// Whether `decls` already holds a declaration named `name`.
pub open spec fn has_name(decls: Seq<StaticDeclV>, name: Seq<char>) -> bool {
    exists|j: int| 0 <= j < decls.len() && decls[j].ident == name
}

/// Whether no two declarations in `decls` share a name.
pub open spec fn distinct_names(decls: Seq<StaticDeclV>) -> bool {
    forall|i: int, j: int| 0 <= j < i < decls.len() ==> decls[i].ident != decls[j].ident
}

/// The persistent-state declarations the scan hoists: the run of mutable
/// statics at the top of the body, with immutable statics passed over and
/// the first other statement ending the run.
pub open spec fn hoisted_statics(body: Seq<BodyStmtV>) -> Seq<StaticDeclV>
    decreases body.len(),
{
    if body.len() == 0 {
        Seq::empty()
    } else {
        match body[0] {
            BodyStmtV::StaticMut(d) => seq![d] + hoisted_statics(body.drop_first()),
            BodyStmtV::StaticImmutable(_) => hoisted_statics(body.drop_first()),
            _ => Seq::empty(),
        }
    }
}

/// What remains of the body once the hoisted declarations are removed,
/// in the original statement order.
pub open spec fn residual_body(body: Seq<BodyStmtV>) -> Seq<BodyStmtV>
    decreases body.len(),
{
    if body.len() == 0 {
        Seq::empty()
    } else {
        match body[0] {
            BodyStmtV::StaticMut(_) => residual_body(body.drop_first()),
            BodyStmtV::StaticImmutable(_) => seq![body[0]] + residual_body(body.drop_first()),
            _ => body,
        }
    }
}

/// The scan over a handler body: statement by statement from the top,
/// hoisting mutable statics into `acc`, keeping everything else in
/// `rest`, stopping at the first ordinary statement, and failing with the
/// offending name as soon as a hoisted declaration repeats one.
pub open spec fn scan(
    body: Seq<BodyStmtV>,
    acc: Seq<StaticDeclV>,
    rest: Seq<BodyStmtV>,
) -> Result<(Seq<StaticDeclV>, Seq<BodyStmtV>), Seq<char>>
    decreases body.len(),
{
    if body.len() == 0 {
        Ok((acc, rest))
    } else {
        match body[0] {
            BodyStmtV::StaticMut(d) => if has_name(acc, d.ident) {
                Err(d.ident)
            } else {
                scan(body.drop_first(), acc.push(d), rest)
            },
            BodyStmtV::StaticImmutable(_) => scan(body.drop_first(), acc, rest.push(body[0])),
            _ => Ok((acc, rest + body)),
        }
    }
}

/// The scan of a whole body, from empty accumulators.
pub open spec fn scan_body(body: Seq<BodyStmtV>) -> Result<
    (Seq<StaticDeclV>, Seq<BodyStmtV>),
    Seq<char>,
> {
    scan(body, Seq::empty(), Seq::empty())
}

/// The scan succeeds exactly when the hoisted declarations all carry
/// distinct names.
pub proof fn lemma_scan_ok(body: Seq<BodyStmtV>, acc: Seq<StaticDeclV>, rest: Seq<BodyStmtV>)
    requires
        distinct_names(acc),
    ensures
        scan(body, acc, rest) is Ok <==> distinct_names(acc + hoisted_statics(body)),
    decreases body.len(),
{
    if body.len() == 0 {
        assert(acc + hoisted_statics(body) =~= acc);
    } else {
        match body[0] {
            BodyStmtV::StaticMut(d) => {
                if has_name(acc, d.ident) {
                    let all = acc + hoisted_statics(body);
                    assert(hoisted_statics(body) == seq![d] + hoisted_statics(body.drop_first()));
                    assert(all[acc.len() as int].ident == d.ident);
                    let j = choose|j: int| 0 <= j < acc.len() && acc[j].ident == d.ident;
                    assert(all[j].ident == d.ident);
                    assert(!distinct_names(all));
                } else {
                    assert(distinct_names(acc.push(d))) by {
                        assert(forall|i: int, j: int|
                            0 <= j < i < acc.push(d).len() && i < acc.len() ==> acc.push(d)[i].ident
                                != acc.push(d)[j].ident);
                        assert(forall|j: int|
                            0 <= j < acc.len() ==> acc[j].ident != d.ident);
                    }
                    lemma_scan_ok(body.drop_first(), acc.push(d), rest);
                    assert(acc.push(d) + hoisted_statics(body.drop_first()) =~= acc
                        + hoisted_statics(body));
                }
            },
            BodyStmtV::StaticImmutable(_) => {
                lemma_scan_ok(body.drop_first(), acc, rest.push(body[0]));
                assert(acc + hoisted_statics(body.drop_first()) =~= acc + hoisted_statics(body));
            },
            _ => {
                assert(acc + hoisted_statics(body) =~= acc);
            },
        }
    }
}

/// On success the scan hands back exactly the hoisted declarations and
/// the residual body, each in order.
pub proof fn lemma_scan_payload(body: Seq<BodyStmtV>, acc: Seq<StaticDeclV>, rest: Seq<BodyStmtV>)
    requires
        scan(body, acc, rest) is Ok,
    ensures
        scan(body, acc, rest) == Ok::<_, Seq<char>>(
            (acc + hoisted_statics(body), rest + residual_body(body)),
        ),
    decreases body.len(),
{
    if body.len() == 0 {
        assert(acc + hoisted_statics(body) =~= acc);
        assert(rest + residual_body(body) =~= rest);
    } else {
        match body[0] {
            BodyStmtV::StaticMut(d) => {
                lemma_scan_payload(body.drop_first(), acc.push(d), rest);
                assert(acc.push(d) + hoisted_statics(body.drop_first()) =~= acc + hoisted_statics(
                    body,
                ));
                assert(rest + residual_body(body.drop_first()) =~= rest + residual_body(body));
            },
            BodyStmtV::StaticImmutable(_) => {
                lemma_scan_payload(body.drop_first(), acc, rest.push(body[0]));
                assert(acc + hoisted_statics(body.drop_first()) =~= acc + hoisted_statics(body));
                assert(rest.push(body[0]) + residual_body(body.drop_first()) =~= rest
                    + residual_body(body));
            },
            _ => {
                assert(rest + body =~= rest + residual_body(body));
                assert(acc + hoisted_statics(body) =~= acc);
            },
        }
    }
}

/// Compare two pieces of text.
fn text_eq(a: &str, b: &str) -> (r: bool)
    ensures
        r == (a@ == b@),
{
    let x: String = a.to_owned();
    let y: String = b.to_owned();
    x == y
}

/// Returns `true` if `attr` is an outer attribute whose path spells
/// `name`.
pub fn eq(attr: &Attr, name: &str) -> (r: bool)
    ensures
        r == (attr@.outer && attr@.name == name@),
{
    attr.outer && text_eq(attr.name.as_str(), name)
}

/// Extracts the leading mutable statics from a handler body.
///
/// On success the first component holds the hoisted declarations in
/// order and the second the statements that stay; the scan fails with
/// the offending name when a hoisted declaration repeats an earlier one.
pub fn extract_static_muts(stmts: &Vec<BodyStmt>) -> (r: Result<
    (Vec<StaticDecl>, Vec<BodyStmt>),
    String,
>)
    ensures
        match r {
            Ok((statics, rest)) => scan_body(stmts@.map_values(|s: BodyStmt| s@)) == Ok::<
                _,
                Seq<char>,
            >((statics@.map_values(|d: StaticDecl| d@), rest@.map_values(|s: BodyStmt| s@))),
            Err(name) => scan_body(stmts@.map_values(|s: BodyStmt| s@)) == Err::<
                (Seq<StaticDeclV>, Seq<BodyStmtV>),
                _,
            >(name@),
        },
{
    let ghost whole: Seq<BodyStmtV> = stmts@.map_values(|s: BodyStmt| s@);
    let mut statics: Vec<StaticDecl> = Vec::new();
    let mut rest: Vec<BodyStmt> = Vec::new();
    let mut scanning = true;
    let n = stmts.len();
    let mut i: usize = 0;
    proof {
        assert(whole.subrange(0, n as int) =~= whole);
        assert(statics@.map_values(|d: StaticDecl| d@) =~= Seq::<StaticDeclV>::empty());
        assert(rest@.map_values(|s: BodyStmt| s@) =~= Seq::<BodyStmtV>::empty());
    }
    while i < n
        invariant
            n == stmts.len(),
            i <= n,
            whole == stmts@.map_values(|s: BodyStmt| s@),
            scanning ==> scan_body(whole) == scan(
                whole.subrange(i as int, n as int),
                statics@.map_values(|d: StaticDecl| d@),
                rest@.map_values(|s: BodyStmt| s@),
            ),
            !scanning ==> scan_body(whole) == Ok::<_, Seq<char>>(
                (
                    statics@.map_values(|d: StaticDecl| d@),
                    rest@.map_values(|s: BodyStmt| s@) + whole.subrange(i as int, n as int),
                ),
            ),
        decreases n - i,
    {
        let ghost suffix = whole.subrange(i as int, n as int);
        let ghost pre_statics = statics@.map_values(|d: StaticDecl| d@);
        let ghost pre_rest = rest@.map_values(|s: BodyStmt| s@);
        proof {
            assert(suffix[0] == whole[i as int]);
            assert(whole[i as int] == stmts@[i as int]@);
            assert(suffix.drop_first() =~= whole.subrange(i as int + 1, n as int));
        }
        let s = &stmts[i];
        if scanning {
            match s {
                BodyStmt::StaticMut(d) => {
                    let mut found = false;
                    let m = statics.len();
                    let mut j: usize = 0;
                    while j < m
                        invariant
                            m == statics.len(),
                            j <= m,
                            pre_statics == statics@.map_values(|x: StaticDecl| x@),
                            found <==> exists|k: int|
                                0 <= k < j && pre_statics[k].ident == d@.ident,
                        decreases m - j,
                    {
                        if statics[j].ident == d.ident {
                            proof {
                                assert(pre_statics[j as int].ident == d@.ident);
                            }
                            found = true;
                        }
                        j = j + 1;
                    }
                    if found {
                        proof {
                            assert(has_name(pre_statics, d@.ident));
                        }
                        return Err(d.ident.clone());
                    }
                    proof {
                        assert(!has_name(pre_statics, d@.ident));
                    }
                    statics.push(d.duplicate());
                    proof {
                        assert(statics@.map_values(|x: StaticDecl| x@) =~= pre_statics.push(d@));
                    }
                },
                BodyStmt::StaticImmutable(_) => {
                    rest.push(s.duplicate());
                    proof {
                        assert(rest@.map_values(|x: BodyStmt| x@) =~= pre_rest.push(suffix[0]));
                    }
                },
                BodyStmt::Other(_) => {
                    scanning = false;
                    rest.push(s.duplicate());
                    proof {
                        assert(rest@.map_values(|x: BodyStmt| x@) =~= pre_rest.push(suffix[0]));
                        assert(pre_rest + suffix =~= pre_rest.push(suffix[0])
                            + suffix.drop_first());
                    }
                },
                BodyStmt::BindingRef(_) => {
                    scanning = false;
                    rest.push(s.duplicate());
                    proof {
                        assert(rest@.map_values(|x: BodyStmt| x@) =~= pre_rest.push(suffix[0]));
                        assert(pre_rest + suffix =~= pre_rest.push(suffix[0])
                            + suffix.drop_first());
                    }
                },
            }
        } else {
            rest.push(s.duplicate());
            proof {
                assert(rest@.map_values(|x: BodyStmt| x@) =~= pre_rest.push(suffix[0]));
                assert(pre_rest + suffix =~= pre_rest.push(suffix[0]) + suffix.drop_first());
            }
        }
        i = i + 1;
    }
    proof {
        assert(whole.subrange(n as int, n as int) =~= Seq::<BodyStmtV>::empty());
        if !scanning {
            assert(rest@.map_values(|s: BodyStmt| s@) + Seq::<BodyStmtV>::empty()
                =~= rest@.map_values(|s: BodyStmt| s@));
        }
    }
    Ok((statics, rest))
}

/// Whether an attribute is an outer `cfg` attribute.
pub open spec fn is_cfg(a: AttrV) -> bool {
    a.outer && a.name == "cfg"@
}

/// The conditional-compilation attributes, in order.
pub open spec fn cfgs_of(attrs: Seq<AttrV>) -> Seq<AttrV>
    decreases attrs.len(),
{
    if attrs.len() == 0 {
        Seq::empty()
    } else if is_cfg(attrs[0]) {
        seq![attrs[0]] + cfgs_of(attrs.drop_first())
    } else {
        cfgs_of(attrs.drop_first())
    }
}

/// The attributes that are not conditional compilation, in order.
pub open spec fn others_of(attrs: Seq<AttrV>) -> Seq<AttrV>
    decreases attrs.len(),
{
    if attrs.len() == 0 {
        Seq::empty()
    } else if is_cfg(attrs[0]) {
        others_of(attrs.drop_first())
    } else {
        seq![attrs[0]] + others_of(attrs.drop_first())
    }
}

/// Splits the attributes into the conditional-compilation ones and the
/// rest, both in order.
pub fn extract_cfgs(attrs: &Vec<Attr>) -> (r: (Vec<Attr>, Vec<Attr>))
    ensures
        r.0@.map_values(|a: Attr| a@) == cfgs_of(attrs@.map_values(|a: Attr| a@)),
        r.1@.map_values(|a: Attr| a@) == others_of(attrs@.map_values(|a: Attr| a@)),
{
    let ghost whole: Seq<AttrV> = attrs@.map_values(|a: Attr| a@);
    let mut cfgs: Vec<Attr> = Vec::new();
    let mut not_cfgs: Vec<Attr> = Vec::new();
    let n = attrs.len();
    let mut i: usize = 0;
    proof {
        assert(whole.subrange(0, n as int) =~= whole);
    }
    while i < n
        invariant
            n == attrs.len(),
            i <= n,
            whole == attrs@.map_values(|a: Attr| a@),
            cfgs_of(whole) == cfgs@.map_values(|a: Attr| a@) + cfgs_of(
                whole.subrange(i as int, n as int),
            ),
            others_of(whole) == not_cfgs@.map_values(|a: Attr| a@) + others_of(
                whole.subrange(i as int, n as int),
            ),
        decreases n - i,
    {
        let ghost suffix = whole.subrange(i as int, n as int);
        let ghost pre_cfgs = cfgs@.map_values(|a: Attr| a@);
        let ghost pre_others = not_cfgs@.map_values(|a: Attr| a@);
        proof {
            assert(suffix[0] == whole[i as int]);
            assert(whole[i as int] == attrs@[i as int]@);
            assert(suffix.drop_first() =~= whole.subrange(i as int + 1, n as int));
        }
        let a = &attrs[i];
        if eq(a, "cfg") {
            cfgs.push(a.duplicate());
            proof {
                assert(cfgs@.map_values(|x: Attr| x@) =~= pre_cfgs.push(suffix[0]));
                assert(pre_cfgs + cfgs_of(suffix) =~= pre_cfgs.push(suffix[0]) + cfgs_of(
                    suffix.drop_first(),
                ));
            }
        } else {
            not_cfgs.push(a.duplicate());
            proof {
                assert(not_cfgs@.map_values(|x: Attr| x@) =~= pre_others.push(suffix[0]));
                assert(pre_others + others_of(suffix) =~= pre_others.push(suffix[0]) + others_of(
                    suffix.drop_first(),
                ));
            }
        }
        i = i + 1;
    }
    proof {
        assert(whole.subrange(n as int, n as int) =~= Seq::<AttrV>::empty());
        assert(cfgs@.map_values(|a: Attr| a@) + cfgs_of(Seq::<AttrV>::empty())
            =~= cfgs@.map_values(|a: Attr| a@));
        assert(not_cfgs@.map_values(|a: Attr| a@) + others_of(Seq::<AttrV>::empty())
            =~= not_cfgs@.map_values(|a: Attr| a@));
    }
    (cfgs, not_cfgs)
}

/// Whether a decoration is on the allow-list the transform knows how to
/// preserve across the rewrite.
pub open spec fn attr_allowed(a: AttrV) -> bool {
    a.outer && (a.name == "doc"@ || a.name == "link_section"@ || a.name == "cfg"@ || a.name
        == "allow"@ || a.name == "warn"@ || a.name == "deny"@ || a.name == "forbid"@ || a.name
        == "cold"@ || a.name == "naked"@)
}

/// Whether every decoration on the function is on the allow-list.
pub open spec fn attrs_allowed(attrs: Seq<AttrV>) -> bool {
    forall|i: int| 0 <= i < attrs.len() ==> attr_allowed(#[trigger] attrs[i])
}

/// Checks the function's decorations against the allow-list.
pub fn check_attr_whitelist(attrs: &Vec<Attr>) -> (r: bool)
    ensures
        r == attrs_allowed(attrs@.map_values(|a: Attr| a@)),
{
    let ghost whole: Seq<AttrV> = attrs@.map_values(|a: Attr| a@);
    let n = attrs.len();
    let mut i: usize = 0;
    while i < n
        invariant
            n == attrs.len(),
            whole == attrs@.map_values(|a: Attr| a@),
            i <= n,
            forall|k: int| 0 <= k < i ==> attr_allowed(#[trigger] whole[k]),
        decreases n - i,
    {
        let a = &attrs[i];
        let ok = eq(a, "doc") || eq(a, "link_section") || eq(a, "cfg") || eq(a, "allow") || eq(
            a,
            "warn",
        ) || eq(a, "deny") || eq(a, "forbid") || eq(a, "cold") || eq(a, "naked");
        if !ok {
            proof {
                assert(whole[i as int] == attrs@[i as int]@);
                assert(!attr_allowed(whole[i as int]));
            }
            return false;
        }
        i = i + 1;
    }
    true
}

} // verus!
