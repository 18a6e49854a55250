//! Rust source parsing and item inventory.
//!
//! Parsing uses `syn` and never executes code. The parsed file reaches this
//! module as a stream of item events (see [`crate::syntax`]); the inventory of
//! items, functions and contract definitions is computed from that stream. A
//! file that fails to parse is recorded as a diagnostic rather than aborting
//! the scan.
use vstd::prelude::*;

use crate::finding::views;
use crate::lexdepth;
use crate::model::{Diagnostic, Manifest, Project, SorobanInfo};
use crate::path;
use crate::soroban::{self, attr_strength, ContractAttrStrength};
use crate::syntax::{self, RawParam, RawSig, SynEvent, SyntaxTree};
use crate::text::{self, decimal, first_word, join_views};

verus! {

/// Maximum source file size that will be read (8 MiB).
pub const MAX_SOURCE_BYTES: u64 = 8388608;

/// Whether a file of `size` bytes is small enough to be read and parsed;
/// larger files are reported as [`SourceInput::TooLarge`] without being read.
pub fn within_source_limit(size: u64) -> (r: bool)
    ensures
        r == (size <= MAX_SOURCE_BYTES),
{
    size <= MAX_SOURCE_BYTES
}

/// Maximum delimiter nesting depth accepted before parsing is skipped.
///
/// Recursive-descent parsers can overflow the stack on pathologically nested
/// input. Since scanned repositories are untrusted, deeply nested sources are
/// rejected before they reach the parser.
pub const MAX_NESTING_DEPTH: usize = 192;

/// Maximum expression span (see [`lexdepth::max_expression_span`]) accepted
/// before parsing is skipped.
///
/// Delimiters are not the only way syntax nests: runs of prefix operators,
/// method chains, operator chains and casts nest too. Within a statement each
/// level of such nesting takes at least one token, so bounding the tokens that
/// stack up along one path of delimiters bounds the nesting the parser meets.
pub const MAX_EXPRESSION_SPAN: usize = 1024;

/// Maximum source size, in bytes, handed to the parser: the parser's span
/// table counts characters in 32 bits.
pub const MAX_PARSE_BYTES: usize = 4294967280;

/// Kinds of top-level items the inventory recognizes.
#[derive(Debug, Clone, Copy, PartialEq, Eq, Structural)]
pub enum ItemKind {
    /// `fn`
    Function,
    /// `impl`
    Impl,
    /// `trait`
    Trait,
    /// `struct`
    Struct,
    /// `enum`
    Enum,
    /// `union`
    Union,
    /// `const`
    Const,
    /// `static`
    Static,
    /// `mod`
    Module,
    /// A macro invocation item.
    Macro,
    /// `type`
    TypeAlias,
    /// `use`
    Use,
    /// `extern` block.
    ForeignMod,
    /// Anything else.
    Other,
}

/// The stable lowercase name of an item kind.
pub open spec fn item_kind_name(k: ItemKind) -> Seq<char> {
    match k {
        ItemKind::Function => "function"@,
        ItemKind::Impl => "impl"@,
        ItemKind::Trait => "trait"@,
        ItemKind::Struct => "struct"@,
        ItemKind::Enum => "enum"@,
        ItemKind::Union => "union"@,
        ItemKind::Const => "const"@,
        ItemKind::Static => "static"@,
        ItemKind::Module => "module"@,
        ItemKind::Macro => "macro"@,
        ItemKind::TypeAlias => "type_alias"@,
        ItemKind::Use => "use"@,
        ItemKind::ForeignMod => "foreign_mod"@,
        ItemKind::Other => "other"@,
    }
}

impl ItemKind {
    /// Stable lowercase name.
    pub fn as_str(self) -> (r: &'static str)
        ensures
            r@ == item_kind_name(self),
    {
        match self {
            ItemKind::Function => "function",
            ItemKind::Impl => "impl",
            ItemKind::Trait => "trait",
            ItemKind::Struct => "struct",
            ItemKind::Enum => "enum",
            ItemKind::Union => "union",
            ItemKind::Const => "const",
            ItemKind::Static => "static",
            ItemKind::Module => "module",
            ItemKind::Macro => "macro",
            ItemKind::TypeAlias => "type_alias",
            ItemKind::Use => "use",
            ItemKind::ForeignMod => "foreign_mod",
            ItemKind::Other => "other",
        }
    }
}

/// A function parameter.
#[derive(Debug)]
pub struct ParamSummary {
    /// Parameter binding name (or rendered pattern).
    pub name: String,
    /// Rendered parameter type.
    pub ty: String,
}

impl View for ParamSummary {
    type V = (Seq<char>, Seq<char>);

    open spec fn view(&self) -> (Seq<char>, Seq<char>) {
        (self.name@, self.ty@)
    }
}

/// Summary of a function definition.
#[derive(Debug)]
pub struct FunctionSummary {
    /// Unqualified function name.
    pub name: String,
    /// Name qualified by any enclosing module and impl/trait.
    pub qualified_name: String,
    /// 1-based line of the function.
    pub line: usize,
    /// 1-based column of the function.
    pub column: usize,
    /// 1-based end line of the function.
    pub end_line: usize,
    /// Whether the function is declared `pub`.
    pub is_public: bool,
    /// Whether the function is `async`.
    pub is_async: bool,
    /// Attribute path strings on the function.
    pub attributes: Vec<String>,
    /// Parameters.
    pub params: Vec<ParamSummary>,
    /// Rendered return type, if not `()`.
    pub return_type: Option<String>,
    /// Enclosing impl/trait name, if any.
    pub in_impl: Option<String>,
    /// Attribute path strings on the enclosing impl block.
    pub impl_attributes: Vec<String>,
    /// True when the function is an exported contract entry point
    /// (`pub fn` inside a `#[contractimpl]` block).
    pub is_contract_entry_point: bool,
}

/// The value of a [`FunctionSummary`].
pub struct FunctionView {
    pub name: Seq<char>,
    pub qualified_name: Seq<char>,
    pub line: usize,
    pub column: usize,
    pub end_line: usize,
    pub is_public: bool,
    pub is_async: bool,
    pub attributes: Seq<Seq<char>>,
    pub params: Seq<(Seq<char>, Seq<char>)>,
    pub return_type: Option<Seq<char>>,
    pub in_impl: Option<Seq<char>>,
    pub impl_attributes: Seq<Seq<char>>,
    pub is_contract_entry_point: bool,
}

/// The view of an optional string.
pub open spec fn opt_chars(o: Option<String>) -> Option<Seq<char>> {
    match o {
        Some(s) => Some(s@),
        None => None,
    }
}

/// The views of a list of parameters.
pub open spec fn param_views(ps: Seq<ParamSummary>) -> Seq<(Seq<char>, Seq<char>)> {
    ps.map_values(|p: ParamSummary| p@)
}

impl View for FunctionSummary {
    type V = FunctionView;

    open spec fn view(&self) -> FunctionView {
        FunctionView {
            name: self.name@,
            qualified_name: self.qualified_name@,
            line: self.line,
            column: self.column,
            end_line: self.end_line,
            is_public: self.is_public,
            is_async: self.is_async,
            attributes: views(self.attributes@),
            params: param_views(self.params@),
            return_type: opt_chars(self.return_type),
            in_impl: opt_chars(self.in_impl),
            impl_attributes: views(self.impl_attributes@),
            is_contract_entry_point: self.is_contract_entry_point,
        }
    }
}

/// Summary of a non-function item.
#[derive(Debug)]
pub struct ItemSummary {
    /// Item kind.
    pub kind: ItemKind,
    /// Item name (may be a rendered type for impls).
    pub name: String,
    /// 1-based line.
    pub line: usize,
    /// 1-based column.
    pub column: usize,
    /// 1-based end line.
    pub end_line: usize,
    /// Whether the item is `pub`.
    pub is_public: bool,
    /// Attribute path strings.
    pub attributes: Vec<String>,
}

/// The value of an [`ItemSummary`].
pub struct ItemView {
    pub kind: ItemKind,
    pub name: Seq<char>,
    pub line: usize,
    pub column: usize,
    pub end_line: usize,
    pub is_public: bool,
    pub attributes: Seq<Seq<char>>,
}

impl View for ItemSummary {
    type V = ItemView;

    open spec fn view(&self) -> ItemView {
        ItemView {
            kind: self.kind,
            name: self.name@,
            line: self.line,
            column: self.column,
            end_line: self.end_line,
            is_public: self.is_public,
            attributes: views(self.attributes@),
        }
    }
}

/// The views of a list of items.
pub open spec fn item_views(v: Seq<ItemSummary>) -> Seq<ItemView> {
    v.map_values(|x: ItemSummary| x@)
}

/// The views of a list of functions.
pub open spec fn function_views(v: Seq<FunctionSummary>) -> Seq<FunctionView> {
    v.map_values(|x: FunctionSummary| x@)
}

// ---------------------------------------------------------------------------
// The inventory of a parsed file, as a fold over its item events.
// ---------------------------------------------------------------------------
/// An attribute path: its segments joined by `::`.
pub open spec fn attr_path(segments: Vec<String>) -> Seq<char> {
    join_views(views(segments@), "::"@)
}

/// The attribute paths of a list of attributes.
pub open spec fn attr_paths(attrs: Seq<Vec<String>>) -> Seq<Seq<char>> {
    attrs.map_values(|a: Vec<String>| attr_path(a))
}

/// A 0-based column made 1-based (saturating at the largest column).
pub open spec fn one_based(c: usize) -> usize {
    if c < usize::MAX {
        (c + 1) as usize
    } else {
        c
    }
}

/// Some attribute path defines a contract (`contract`, `contractimpl`).
pub open spec fn has_definition(attrs: Seq<Seq<char>>) -> bool {
    exists|i: int| 0 <= i < attrs.len() && attr_strength(#[trigger] attrs[i]) == Some(ContractAttrStrength::Definition)
}

/// The location `file:line` of a contract definition.
pub open spec fn definition_location(file: Seq<char>, line: usize) -> Seq<char> {
    file + ":"@ + decimal(line as nat)
}

/// Contract locations after an item with these attributes at `line`.
pub open spec fn note_definitions(cs: Seq<Seq<char>>, attrs: Seq<Seq<char>>, file: Seq<char>, line: usize) -> Seq<Seq<char>> {
    let loc = definition_location(file, line);
    if has_definition(attrs) && !cs.contains(loc) {
        cs.push(loc)
    } else {
        cs
    }
}

/// The named parameters of a signature (receivers are skipped).
pub open spec fn typed_params(ps: Seq<RawParam>) -> Seq<(Seq<char>, Seq<char>)>
    decreases ps.len(),
{
    if ps.len() == 0 {
        Seq::empty()
    } else {
        let r = typed_params(ps.drop_last());
        match ps.last() {
            RawParam::Receiver => r,
            RawParam::Typed { name, ty } => r.push((name@, ty@)),
        }
    }
}

/// The name of a function qualified by its module prefix and container.
pub open spec fn qualified(prefix: Seq<char>, container: Option<Seq<char>>, name: Seq<char>) -> Seq<char> {
    match container {
        Some(c) => if prefix.len() == 0 {
            c + "::"@ + name
        } else {
            prefix + "::"@ + c + "::"@ + name
        },
        None => if prefix.len() == 0 {
            name
        } else {
            prefix + "::"@ + name
        },
    }
}

/// The summary of a function.
pub open spec fn function_of(
    sig: RawSig,
    attrs: Seq<Seq<char>>,
    public: bool,
    prefix: Seq<char>,
    container: Option<(Seq<char>, Seq<Seq<char>>)>,
) -> FunctionView {
    let impl_attrs = match container {
        Some(c) => c.1,
        None => Seq::empty(),
    };
    FunctionView {
        name: sig.name@,
        qualified_name: qualified(
            prefix,
            match container {
                Some(c) => Some(c.0),
                None => None,
            },
            sig.name@,
        ),
        line: sig.span.line,
        column: one_based(sig.span.column),
        end_line: sig.span.end_line,
        is_public: public,
        is_async: sig.is_async,
        attributes: attrs,
        params: typed_params(sig.params@),
        return_type: opt_chars(sig.return_type),
        in_impl: match container {
            Some(c) => Some(c.0),
            None => None,
        },
        impl_attributes: impl_attrs,
        is_contract_entry_point: public && has_definition(impl_attrs),
    }
}

/// What an open `mod`, `impl` or `trait` remembers until its end.
pub enum Frame {
    /// A module, with the prefix outside it.
    Module(Seq<char>),
    /// An `impl` block or trait, with its name and attribute paths.
    Container(Seq<char>, Seq<Seq<char>>),
}

/// The state of the inventory walk.
pub struct WalkState {
    pub prefix: Seq<char>,
    pub frames: Seq<Frame>,
    pub items: Seq<ItemView>,
    pub functions: Seq<FunctionView>,
    pub contracts: Seq<Seq<char>>,
}

/// The innermost open `impl` block or trait.
pub open spec fn current_container(frames: Seq<Frame>) -> Option<(Seq<char>, Seq<Seq<char>>)> {
    if frames.len() > 0 {
        match frames.last() {
            Frame::Container(n, a) => Some((n, a)),
            Frame::Module(_) => None,
        }
    } else {
        None
    }
}

/// The item summary of an item with a span.
pub open spec fn item_of(
    kind: ItemKind,
    name: Seq<char>,
    attrs: Seq<Seq<char>>,
    public: bool,
    line: usize,
    column: usize,
    end_line: usize,
) -> ItemView {
    ItemView {
        kind,
        name,
        line,
        column: one_based(column),
        end_line,
        is_public: public,
        attributes: attrs,
    }
}

/// One event of the walk. Unnamed kinds (`use`, `extern` blocks) are never
/// public; any other item is named by the first word of its rendering.
pub open spec fn walk_step(st: WalkState, ev: SynEvent, file: Seq<char>) -> WalkState {
    match ev {
        SynEvent::Item { kind, name, attrs, is_public, span } => {
            let a = attr_paths(attrs@);
            let shown = if kind == ItemKind::Other {
                first_word(name@)
            } else {
                name@
            };
            let public = is_public && kind != ItemKind::Use && kind != ItemKind::ForeignMod
                && kind != ItemKind::Other;
            WalkState {
                items: st.items.push(
                    item_of(kind, shown, a, public, span.line, span.column, span.end_line),
                ),
                contracts: note_definitions(st.contracts, a, file, span.line),
                ..st
            }
        },
        SynEvent::FreeFn { attrs, is_public, span, sig } => {
            let a = attr_paths(attrs@);
            WalkState {
                items: st.items.push(
                    item_of(
                        ItemKind::Function,
                        sig.name@,
                        a,
                        is_public,
                        span.line,
                        span.column,
                        span.end_line,
                    ),
                ),
                functions: st.functions.push(function_of(sig, a, is_public, st.prefix, None)),
                contracts: note_definitions(st.contracts, a, file, span.line),
                ..st
            }
        },
        SynEvent::MacroItem { path, attrs, span } => {
            let a = attr_paths(attrs@);
            WalkState {
                items: st.items.push(
                    item_of(
                        ItemKind::Macro,
                        attr_path(path),
                        a,
                        false,
                        span.line,
                        span.column,
                        span.end_line,
                    ),
                ),
                contracts: note_definitions(st.contracts, a, file, span.line),
                ..st
            }
        },
        SynEvent::ImplStart { attrs, span, self_ty } => {
            let a = attr_paths(attrs@);
            WalkState {
                items: st.items.push(
                    item_of(ItemKind::Impl, self_ty@, a, false, span.line, span.column, span.end_line),
                ),
                frames: st.frames.push(Frame::Container(self_ty@, a)),
                contracts: note_definitions(st.contracts, a, file, span.line),
                ..st
            }
        },
        SynEvent::ImplFn { attrs, is_public, sig, body } => {
            let a = attr_paths(attrs@);
            WalkState {
                items: st.items.push(
                    item_of(
                        ItemKind::Function,
                        sig.name@,
                        a,
                        is_public,
                        sig.span.line,
                        sig.span.column,
                        sig.span.end_line,
                    ),
                ),
                functions: st.functions.push(
                    function_of(sig, a, is_public, st.prefix, current_container(st.frames)),
                ),
                ..st
            }
        },
        SynEvent::TraitStart { attrs, is_public, name, span } => {
            let a = attr_paths(attrs@);
            WalkState {
                items: st.items.push(
                    item_of(ItemKind::Trait, name@, a, is_public, span.line, span.column, span.end_line),
                ),
                frames: st.frames.push(Frame::Container(name@, a)),
                contracts: note_definitions(st.contracts, a, file, span.line),
                ..st
            }
        },
        SynEvent::TraitFn { attrs, sig } => {
            let a = attr_paths(attrs@);
            WalkState {
                functions: st.functions.push(
                    function_of(sig, a, false, st.prefix, current_container(st.frames)),
                ),
                ..st
            }
        },
        SynEvent::ModStart { attrs, is_public, name, span } => {
            let a = attr_paths(attrs@);
            WalkState {
                items: st.items.push(
                    item_of(ItemKind::Module, name@, a, is_public, span.line, span.column, span.end_line),
                ),
                frames: st.frames.push(Frame::Module(st.prefix)),
                prefix: if st.prefix.len() == 0 {
                    name@
                } else {
                    st.prefix + "::"@ + name@
                },
                contracts: note_definitions(st.contracts, a, file, span.line),
                ..st
            }
        },
        SynEvent::ImplOther => st,
        SynEvent::TraitOther => st,
        SynEvent::End => {
            if st.frames.len() == 0 {
                st
            } else {
                WalkState {
                    frames: st.frames.drop_last(),
                    prefix: match st.frames.last() {
                        Frame::Module(p) => p,
                        Frame::Container(_, _) => st.prefix,
                    },
                    ..st
                }
            }
        },
    }
}

/// The walk over the first events of a file.
pub open spec fn walk(evs: Seq<SynEvent>, file: Seq<char>) -> WalkState
    decreases evs.len(),
{
    if evs.len() == 0 {
        WalkState {
            prefix: Seq::empty(),
            frames: Seq::empty(),
            items: Seq::empty(),
            functions: Seq::empty(),
            contracts: Seq::empty(),
        }
    } else {
        walk_step(walk(evs.drop_last(), file), evs.last(), file)
    }
}

/// Exec form of [`Frame`].
pub enum FrameBuf {
    Module(String),
    Container(String, Vec<String>),
}

impl View for FrameBuf {
    type V = Frame;

    open spec fn view(&self) -> Frame {
        match self {
            FrameBuf::Module(p) => Frame::Module(p@),
            FrameBuf::Container(n, a) => Frame::Container(n@, views(a@)),
        }
    }
}

/// Exec form of [`WalkState`].
pub struct WalkBuf {
    pub prefix: String,
    pub frames: Vec<FrameBuf>,
    pub items: Vec<ItemSummary>,
    pub functions: Vec<FunctionSummary>,
    pub contracts: Vec<String>,
}

impl View for WalkBuf {
    type V = WalkState;

    open spec fn view(&self) -> WalkState {
        WalkState {
            prefix: self.prefix@,
            frames: self.frames@.map_values(|f: FrameBuf| f@),
            items: item_views(self.items@),
            functions: function_views(self.functions@),
            contracts: views(self.contracts@),
        }
    }
}

/// Renders an attribute's path (`#[soroban_sdk::contract]` has the segments
/// `soroban_sdk` and `contract`) as its segments joined by `::`.
pub fn attribute_path(segments: &Vec<String>) -> (r: String)
    ensures
        r@ == attr_path(*segments),
{
    text::join_strings(segments, "::")
}

/// The attribute paths of a list of attributes.
fn attr_path_strings(attrs: &Vec<Vec<String>>) -> (r: Vec<String>)
    ensures
        views(r@) == attr_paths(attrs@),
{
    let mut r: Vec<String> = Vec::new();
    let mut i: usize = 0;
    while i < attrs.len()
        invariant
            i <= attrs.len(),
            r@.len() == i,
            forall|k: int| 0 <= k < i ==> (#[trigger] r@[k])@ == attr_path(attrs@[k]),
        decreases attrs.len() - i,
    {
        let p = attribute_path(&attrs[i]);
        r.push(p);
        i = i + 1;
    }
    assert(views(r@) =~= attr_paths(attrs@));
    r
}

/// Whether some attribute path defines a contract.
fn any_definition(attrs: &Vec<String>) -> (r: bool)
    ensures
        r == has_definition(views(attrs@)),
{
    let mut i: usize = 0;
    while i < attrs.len()
        invariant
            i <= attrs.len(),
            forall|k: int| 0 <= k < i ==> attr_strength(#[trigger] views(attrs@)[k]) != Some(ContractAttrStrength::Definition),
        decreases attrs.len() - i,
    {
        let s = soroban::contract_attribute_strength(attrs[i].as_str());
        if s == Some(ContractAttrStrength::Definition) {
            assert(attr_strength(views(attrs@)[i as int]) == Some(ContractAttrStrength::Definition));
            return true;
        }
        i = i + 1;
    }
    false
}

/// Records the location of a contract definition (once per location).
fn note_definition_exec(contracts: &mut Vec<String>, attrs: &Vec<String>, file: &str, line: usize)
    ensures
        views(final(contracts)@) == note_definitions(views(old(contracts)@), views(attrs@), file@, line),
{
    if any_definition(attrs) {
        proof {
            reveal_strlit(":");
        }
        let mut loc = text::owned(file);
        text::push_char(&mut loc, ':');
        text::push_usize(&mut loc, line);
        assert(loc@ =~= definition_location(file@, line));
        if !crate::order::list_contains(contracts, loc.as_str()) {
            contracts.push(loc);
            assert(views(contracts@) =~= views(old(contracts)@).push(definition_location(file@, line)));
        }
    }
}

/// A 0-based column made 1-based.
fn one_based_exec(c: usize) -> (r: usize)
    ensures
        r == one_based(c),
{
    if c < usize::MAX {
        c + 1
    } else {
        c
    }
}

/// Clones an optional string.
fn copy_opt(o: &Option<String>) -> (r: Option<String>)
    ensures
        opt_chars(r) == opt_chars(*o),
{
    match o {
        Some(s) => Some(s.clone()),
        None => None,
    }
}

/// The named parameters of a signature.
fn params_of(ps: &Vec<RawParam>) -> (r: Vec<ParamSummary>)
    ensures
        param_views(r@) == typed_params(ps@),
{
    let mut r: Vec<ParamSummary> = Vec::new();
    let mut i: usize = 0;
    while i < ps.len()
        invariant
            i <= ps.len(),
            param_views(r@) == typed_params(ps@.take(i as int)),
        decreases ps.len() - i,
    {
        assert(ps@.take(i + 1).drop_last() =~= ps@.take(i as int));
        match &ps[i] {
            RawParam::Receiver => {},
            RawParam::Typed { name, ty } => {
                r.push(ParamSummary { name: name.clone(), ty: ty.clone() });
            },
        }
        i = i + 1;
        assert(param_views(r@) =~= typed_params(ps@.take(i as int)));
    }
    assert(ps@.take(ps.len() as int) =~= ps@);
    r
}

/// The summary of a function.
fn make_function(
    sig: &RawSig,
    attrs: Vec<String>,
    public: bool,
    prefix: &str,
    container: Option<(&String, &Vec<String>)>,
) -> (r: FunctionSummary)
    ensures
        r@ == function_of(
            *sig,
            views(attrs@),
            public,
            prefix@,
            match container {
                Some(c) => Some((c.0@, views(c.1@))),
                None => None,
            },
        ),
{
    let ghost cv = match container {
        Some(c) => Some((c.0@, views(c.1@))),
        None => None,
    };
    let mut qualified_name = String::new();
    if !prefix.is_empty() {
        text::push_str(&mut qualified_name, prefix);
        text::push_str(&mut qualified_name, "::");
    }
    let (in_impl, impl_attributes) = match container {
        Some(c) => {
            text::push_str(&mut qualified_name, c.0.as_str());
            text::push_str(&mut qualified_name, "::");
            (Some(c.0.clone()), crate::finding::copy_strings(c.1))
        },
        None => {
            let v: Vec<String> = Vec::new();
            assert(views(v@) =~= Seq::<Seq<char>>::empty());
            (None, v)
        },
    };
    text::push_str(&mut qualified_name, sig.name.as_str());
    proof {
        assert(prefix@.len() == 0 ==> prefix@ =~= Seq::<char>::empty());
        assert(qualified_name@ =~= qualified(
            prefix@,
            match cv {
                Some(c) => Some(c.0),
                None => None,
            },
            sig.name@,
        ));
    }
    let entry = public && any_definition(&impl_attributes);
    let params = params_of(&sig.params);
    let return_type = copy_opt(&sig.return_type);
    let r = FunctionSummary {
        name: sig.name.clone(),
        qualified_name,
        line: sig.span.line,
        column: one_based_exec(sig.span.column),
        end_line: sig.span.end_line,
        is_public: public,
        is_async: sig.is_async,
        attributes: attrs,
        params,
        return_type,
        in_impl,
        impl_attributes,
        is_contract_entry_point: entry,
    };
    proof {
        let want = function_of(*sig, views(attrs@), public, prefix@, cv);
        assert(r@.name == want.name);
        assert(r@.qualified_name == want.qualified_name);
        assert(r@.params == want.params);
        assert(r@.return_type == want.return_type);
        assert(r@.in_impl == want.in_impl);
        assert(r@.impl_attributes == want.impl_attributes);
        assert(r@.is_contract_entry_point == want.is_contract_entry_point);
        assert(r@.attributes == want.attributes);
    }
    r
}

/// An item summary.
fn make_item(
    kind: ItemKind,
    name: String,
    attrs: Vec<String>,
    public: bool,
    line: usize,
    column: usize,
    end_line: usize,
) -> (r: ItemSummary)
    ensures
        r@ == item_of(kind, name@, views(attrs@), public, line, column, end_line),
{
    ItemSummary {
        kind,
        name,
        line,
        column: one_based_exec(column),
        end_line,
        is_public: public,
        attributes: attrs,
    }
}

/// The innermost open `impl` block or trait.
fn container_of(frames: &Vec<FrameBuf>) -> (r: Option<(&String, &Vec<String>)>)
    ensures
        match r {
            Some(c) => Some((c.0@, views(c.1@))),
            None => None,
        } == current_container(frames@.map_values(|f: FrameBuf| f@)),
{
    if frames.len() == 0 {
        return None;
    }
    match &frames[frames.len() - 1] {
        FrameBuf::Container(n, a) => Some((n, a)),
        FrameBuf::Module(_) => None,
    }
}

/// Applies one event to the walk state.
fn walk_step_exec(buf: &mut WalkBuf, ev: &SynEvent, file: &str)
    ensures
        final(buf)@ == walk_step(old(buf)@, *ev, file@),
{
    match ev {
        SynEvent::Item { kind, name, attrs, is_public, span } => {
            let a = attr_path_strings(attrs);
            note_definition_exec(&mut buf.contracts, &a, file, span.line);
            let shown = if *kind == ItemKind::Other {
                text::first_word_of(name.as_str())
            } else {
                name.clone()
            };
            let public = *is_public && *kind != ItemKind::Use && *kind != ItemKind::ForeignMod
                && *kind != ItemKind::Other;
            let it = make_item(*kind, shown, a, public, span.line, span.column, span.end_line);
            buf.items.push(it);
        },
        SynEvent::FreeFn { attrs, is_public, span, sig } => {
            let a = attr_path_strings(attrs);
            note_definition_exec(&mut buf.contracts, &a, file, span.line);
            let f = make_function(
                sig,
                crate::finding::copy_strings(&a),
                *is_public,
                buf.prefix.as_str(),
                None,
            );
            let it = make_item(
                ItemKind::Function,
                sig.name.clone(),
                a,
                *is_public,
                span.line,
                span.column,
                span.end_line,
            );
            buf.items.push(it);
            buf.functions.push(f);
        },
        SynEvent::MacroItem { path, attrs, span } => {
            let a = attr_path_strings(attrs);
            note_definition_exec(&mut buf.contracts, &a, file, span.line);
            let name = text::join_strings(path, "::");
            let it = make_item(ItemKind::Macro, name, a, false, span.line, span.column, span.end_line);
            buf.items.push(it);
        },
        SynEvent::ImplStart { attrs, span, self_ty } => {
            let a = attr_path_strings(attrs);
            note_definition_exec(&mut buf.contracts, &a, file, span.line);
            let it = make_item(
                ItemKind::Impl,
                self_ty.clone(),
                crate::finding::copy_strings(&a),
                false,
                span.line,
                span.column,
                span.end_line,
            );
            buf.items.push(it);
            buf.frames.push(FrameBuf::Container(self_ty.clone(), a));
        },
        SynEvent::ImplFn { attrs, is_public, sig, body } => {
            let a = attr_path_strings(attrs);
            let f = make_function(
                sig,
                crate::finding::copy_strings(&a),
                *is_public,
                buf.prefix.as_str(),
                container_of(&buf.frames),
            );
            let it = make_item(
                ItemKind::Function,
                sig.name.clone(),
                a,
                *is_public,
                sig.span.line,
                sig.span.column,
                sig.span.end_line,
            );
            buf.items.push(it);
            buf.functions.push(f);
        },
        SynEvent::TraitStart { attrs, is_public, name, span } => {
            let a = attr_path_strings(attrs);
            note_definition_exec(&mut buf.contracts, &a, file, span.line);
            let it = make_item(
                ItemKind::Trait,
                name.clone(),
                crate::finding::copy_strings(&a),
                *is_public,
                span.line,
                span.column,
                span.end_line,
            );
            buf.items.push(it);
            buf.frames.push(FrameBuf::Container(name.clone(), a));
        },
        SynEvent::TraitFn { attrs, sig } => {
            let a = attr_path_strings(attrs);
            let f = make_function(sig, a, false, buf.prefix.as_str(), container_of(&buf.frames));
            buf.functions.push(f);
        },
        SynEvent::ModStart { attrs, is_public, name, span } => {
            let a = attr_path_strings(attrs);
            note_definition_exec(&mut buf.contracts, &a, file, span.line);
            let it = make_item(
                ItemKind::Module,
                name.clone(),
                a,
                *is_public,
                span.line,
                span.column,
                span.end_line,
            );
            buf.items.push(it);
            let saved = buf.prefix.clone();
            let mut next = String::new();
            if !buf.prefix.as_str().is_empty() {
                text::push_str(&mut next, buf.prefix.as_str());
                text::push_str(&mut next, "::");
            }
            text::push_str(&mut next, name.as_str());
            proof {
                assert(saved@.len() == 0 ==> next@ =~= name@);
            }
            buf.frames.push(FrameBuf::Module(saved));
            buf.prefix = next;
        },
        SynEvent::ImplOther => {},
        SynEvent::TraitOther => {},
        SynEvent::End => {
            if buf.frames.len() > 0 {
                let last = buf.frames.pop().unwrap();
                match last {
                    FrameBuf::Module(p) => {
                        buf.prefix = p;
                    },
                    FrameBuf::Container(_, _) => {},
                }
            }
        },
    }
    proof {
        assert(final(buf)@.frames =~= walk_step(old(buf)@, *ev, file@).frames);
        assert(final(buf)@.items =~= walk_step(old(buf)@, *ev, file@).items);
        assert(final(buf)@.functions =~= walk_step(old(buf)@, *ev, file@).functions);
    }
}

/// The item, function and contract-definition inventory of an event stream.
fn walk_events(events: &Vec<SynEvent>, file: &str) -> (r: (Vec<ItemSummary>, Vec<FunctionSummary>, Vec<String>))
    ensures
        item_views(r.0@) == walk(events@, file@).items,
        function_views(r.1@) == walk(events@, file@).functions,
        views(r.2@) == walk(events@, file@).contracts,
{
    let mut buf = WalkBuf {
        prefix: String::new(),
        frames: Vec::new(),
        items: Vec::new(),
        functions: Vec::new(),
        contracts: Vec::new(),
    };
    proof {
        let w = walk(events@.take(0), file@);
        assert(buf@.frames =~= w.frames);
        assert(buf@.items =~= w.items);
        assert(buf@.functions =~= w.functions);
        assert(buf@.contracts =~= w.contracts);
        assert(buf@.prefix =~= w.prefix);
    }
    let mut i: usize = 0;
    while i < events.len()
        invariant
            i <= events.len(),
            buf@ == walk(events@.take(i as int), file@),
        decreases events.len() - i,
    {
        assert(events@.take(i + 1).drop_last() =~= events@.take(i as int));
        walk_step_exec(&mut buf, &events[i], file);
        i = i + 1;
    }
    assert(events@.take(events.len() as int) =~= events@);
    (buf.items, buf.functions, buf.contracts)
}


// ---------------------------------------------------------------------------
// Parsed sources.
// ---------------------------------------------------------------------------
/// A parsed Rust source file.
pub struct ParsedSource {
    /// File path.
    pub path: String,
    /// Logical module path (best effort).
    pub mod_path: String,
    /// Syntax facts of the file, if parsing succeeded.
    pub syntax: Option<SyntaxTree>,
    /// Parse error message, if parsing failed.
    pub parse_error: Option<String>,
    /// Non-function items.
    pub items: Vec<ItemSummary>,
    /// Function definitions.
    pub functions: Vec<FunctionSummary>,
    /// Locations of contract definitions, formatted as `path:line`.
    pub contract_definitions: Vec<String>,
}

/// The value of a [`ParsedSource`].
pub struct SourceView {
    pub path: Seq<char>,
    pub mod_path: Seq<char>,
    pub syntax: Option<SyntaxTree>,
    pub parse_error: Option<Seq<char>>,
    pub items: Seq<ItemView>,
    pub functions: Seq<FunctionView>,
    pub contract_definitions: Seq<Seq<char>>,
}

impl View for ParsedSource {
    type V = SourceView;

    open spec fn view(&self) -> SourceView {
        SourceView {
            path: self.path@,
            mod_path: self.mod_path@,
            syntax: self.syntax,
            parse_error: opt_chars(self.parse_error),
            items: item_views(self.items@),
            functions: function_views(self.functions@),
            contract_definitions: views(self.contract_definitions@),
        }
    }
}

/// The views of a list of sources.
pub open spec fn source_views(v: Seq<ParsedSource>) -> Seq<SourceView> {
    v.map_values(|x: ParsedSource| x@)
}

/// The contract entry points among a list of functions, in order.
pub open spec fn entry_points(fs: Seq<FunctionView>) -> Seq<FunctionView>
    decreases fs.len(),
{
    if fs.len() == 0 {
        Seq::empty()
    } else {
        let r = entry_points(fs.drop_last());
        if fs.last().is_contract_entry_point {
            r.push(fs.last())
        } else {
            r
        }
    }
}

impl ParsedSource {
    /// Returns true if the file parsed successfully.
    pub fn is_parsed(&self) -> (r: bool)
        ensures
            r == self.syntax.is_some(),
    {
        self.syntax.is_some()
    }

    /// Returns functions that are Soroban contract entry points, in order.
    pub fn contract_entry_points(&self) -> (r: Vec<&FunctionSummary>)
        ensures
            r@.map_values(|f: &FunctionSummary| f@) == entry_points(function_views(self.functions@)),
    {
        let ghost fs = function_views(self.functions@);
        let mut r: Vec<&FunctionSummary> = Vec::new();
        let mut i: usize = 0;
        while i < self.functions.len()
            invariant
                i <= self.functions.len(),
                fs == function_views(self.functions@),
                r@.map_values(|f: &FunctionSummary| f@) == entry_points(fs.take(i as int)),
            decreases self.functions.len() - i,
        {
            assert(fs.take(i + 1).drop_last() =~= fs.take(i as int));
            if self.functions[i].is_contract_entry_point {
                r.push(&self.functions[i]);
            }
            i = i + 1;
            assert(r@.map_values(|f: &FunctionSummary| f@) =~= entry_points(fs.take(i as int)));
        }
        assert(fs.take(self.functions.len() as int) =~= fs);
        r
    }
}

/// A source whose syntax was read: its inventory comes from the item events.
pub open spec fn parsed_source_spec(path: Seq<char>, mod_path: Seq<char>, tree: SyntaxTree) -> SourceView {
    let w = walk(tree.events@, path);
    SourceView {
        path,
        mod_path,
        syntax: Some(tree),
        parse_error: None,
        items: w.items,
        functions: w.functions,
        contract_definitions: w.contracts,
    }
}

/// A source that could not be parsed.
pub open spec fn failed_source_spec(path: Seq<char>, mod_path: Seq<char>, error: Seq<char>) -> SourceView {
    SourceView {
        path,
        mod_path,
        syntax: None,
        parse_error: Some(error),
        items: Seq::empty(),
        functions: Seq::empty(),
        contract_definitions: Seq::empty(),
    }
}

/// Builds the parsed source of a file from its syntax facts.
pub fn source_from_syntax(path: &str, mod_path: String, tree: SyntaxTree) -> (r: ParsedSource)
    ensures
        r@ == parsed_source_spec(path@, mod_path@, tree),
{
    let (items, functions, contract_definitions) = walk_events(&tree.events, path);
    ParsedSource {
        path: text::owned(path),
        mod_path,
        syntax: Some(tree),
        parse_error: None,
        items,
        functions,
        contract_definitions,
    }
}

/// Builds the record of a source that could not be parsed.
pub fn failed_source(path: &str, mod_path: String, error: String) -> (r: ParsedSource)
    ensures
        r@ == failed_source_spec(path@, mod_path@, error@),
{
    let r = ParsedSource {
        path: text::owned(path),
        mod_path,
        syntax: None,
        parse_error: Some(error),
        items: Vec::new(),
        functions: Vec::new(),
        contract_definitions: Vec::new(),
    };
    assert(r@.items =~= Seq::<ItemView>::empty());
    assert(r@.functions =~= Seq::<FunctionView>::empty());
    assert(r@.contract_definitions =~= Seq::<Seq<char>>::empty());
    r
}

// ---------------------------------------------------------------------------
// Module paths.
// ---------------------------------------------------------------------------
/// Index of the first `src` component at or after `k`.
pub open spec fn src_index(cs: Seq<Seq<char>>, k: int) -> Option<int>
    decreases cs.len() - k,
{
    if k < 0 || k >= cs.len() {
        None
    } else if cs[k] == "src"@ {
        Some(k)
    } else {
        src_index(cs, k + 1)
    }
}

/// The file stem of a path component (`Path::file_stem`, empty when none).
pub open spec fn component_stem(c: Seq<char>) -> Seq<char> {
    match path::file_name_spec(c) {
        Some(n) => path::stem_of_name(n),
        None => Seq::empty(),
    }
}

/// The module segments of a crate-relative source path.
pub open spec fn module_parts(rel: Seq<char>) -> Seq<Seq<char>> {
    let cs = path::components(rel);
    let p0 = match src_index(cs, 0) {
        Some(i) => cs.skip(i + 1),
        None => cs,
    };
    let p1 = if p0.len() > 0 {
        p0.update(p0.len() - 1, component_stem(p0.last()))
    } else {
        p0
    };
    let p2 = if p1.len() > 0 && p1.last() == "mod"@ {
        p1.drop_last()
    } else {
        p1
    };
    if p2.len() > 0 && (p2.last() == "lib"@ || p2.last() == "main"@) {
        p2.drop_last()
    } else {
        p2
    }
}

/// The logical module path of a source file under a crate root.
pub open spec fn mod_path_spec(path: Seq<char>, crate_root: Seq<char>) -> Seq<char> {
    let rel = match path::strip_prefix_spec(path, crate_root) {
        Some(r) => r,
        None => path,
    };
    let parts = module_parts(rel);
    if parts.len() == 0 {
        "crate"@
    } else {
        "crate::"@ + join_views(parts, "::"@)
    }
}

/// Computes a best-effort logical module path for a source file.
pub fn module_path_for(path: &str, crate_root: &str) -> (r: String)
    ensures
        r@ == mod_path_spec(path@, crate_root@),
{
    let rel = path::relative_to(path, crate_root);
    let raw = path::components_exec(rel.as_str());
    let ghost cs = path::components(rel@);
    let mut comps: Vec<String> = Vec::new();
    let mut i: usize = 0;
    while i < raw.len()
        invariant
            i <= raw.len(),
            raw@.len() == cs.len(),
            forall|k: int| 0 <= k < raw@.len() ==> #[trigger] raw@[k]@ == cs[k],
            comps@.len() == i,
            forall|k: int| 0 <= k < i ==> (#[trigger] comps@[k])@ == cs[k],
        decreases raw.len() - i,
    {
        comps.push(text::string_of(&raw[i]));
        i = i + 1;
    }
    assert(views(comps@) =~= cs);
    let mut idx: usize = 0;
    while idx < comps.len() && !text::str_eq(comps[idx].as_str(), "src")
        invariant
            idx <= comps.len(),
            views(comps@) == cs,
            src_index(cs, 0) == src_index(cs, idx as int),
        decreases comps.len() - idx,
    {
        idx = idx + 1;
    }
    let mut parts: Vec<String> = Vec::new();
    let start = if idx < comps.len() {
        idx + 1
    } else {
        0
    };
    let mut j: usize = start;
    while j < comps.len()
        invariant
            start <= j <= comps.len(),
            views(comps@) == cs,
            parts@.len() == j - start,
            forall|k: int| 0 <= k < parts@.len() ==> (#[trigger] parts@[k])@ == cs[start + k],
        decreases comps.len() - j,
    {
        assert(comps@[j as int]@ == cs[j as int]);
        parts.push(comps[j].clone());
        j = j + 1;
    }
    let ghost p0 = match src_index(cs, 0) {
        Some(i) => cs.skip(i + 1),
        None => cs,
    };
    assert(views(parts@) =~= p0);
    let n = parts.len();
    if n > 0 {
        let last = parts.pop().unwrap();
        let stem = match path::file_name(last.as_str()) {
            Some(name) => path::stem_of(name.as_str()),
            None => String::new(),
        };
        parts.push(stem);
        assert(views(parts@) =~= p0.update(p0.len() - 1, component_stem(p0.last())));
    }
    let ghost p1 = views(parts@);
    if parts.len() > 0 && text::str_eq(parts[parts.len() - 1].as_str(), "mod") {
        parts.pop();
        assert(views(parts@) =~= p1.drop_last());
    }
    let ghost p2 = views(parts@);
    if parts.len() > 0 && (text::str_eq(parts[parts.len() - 1].as_str(), "lib") || text::str_eq(
        parts[parts.len() - 1].as_str(),
        "main",
    )) {
        parts.pop();
        assert(views(parts@) =~= p2.drop_last());
    }
    if parts.len() == 0 {
        text::owned("crate")
    } else {
        let joined = text::join_strings(&parts, "::");
        text::concat2("crate::", joined.as_str())
    }
}

// ---------------------------------------------------------------------------
// Parsing a file.
// ---------------------------------------------------------------------------
/// The message of a source rejected for its nesting depth.
pub open spec fn nesting_message() -> Seq<char> {
    "source nesting exceeds the 192-level safety limit"@
}

/// The message of a source rejected for its size.
pub open spec fn size_message() -> Seq<char> {
    "source exceeds the 4294967280-byte parsing limit"@
}

/// The message of a source rejected for its expression span.
pub open spec fn span_message() -> Seq<char> {
    "source expression nesting exceeds the 1024-token safety limit"@
}

/// Whether a source text is within the limits under which it is parsed.
pub open spec fn parse_limits_hold(content: Seq<char>) -> bool {
    let b = vstd::utf8::encode_utf8(content);
    &&& lexdepth::max_depth_spec(b) <= MAX_NESTING_DEPTH
    &&& b.len() <= MAX_PARSE_BYTES
    &&& lexdepth::max_span_spec(b) <= MAX_EXPRESSION_SPAN
}

/// The parsed source of a file's content.
pub open spec fn parse_source_spec(path: Seq<char>, crate_root: Seq<char>, content: Seq<char>) -> SourceView {
    let mod_path = mod_path_spec(path, crate_root);
    let b = vstd::utf8::encode_utf8(content);
    if lexdepth::max_depth_spec(b) > MAX_NESTING_DEPTH {
        failed_source_spec(path, mod_path, nesting_message())
    } else if b.len() > MAX_PARSE_BYTES {
        failed_source_spec(path, mod_path, size_message())
    } else if lexdepth::max_span_spec(b) > MAX_EXPRESSION_SPAN {
        failed_source_spec(path, mod_path, span_message())
    } else {
        match syntax::parsed_syntax(content) {
            Ok(tree) => parsed_source_spec(path, mod_path, tree),
            Err(e) => failed_source_spec(path, mod_path, e),
        }
    }
}

/// Parses a single source file's content.
pub fn parse_source(path: &str, crate_root: &str, content: &str) -> (r: ParsedSource)
    ensures
        r@ == parse_source_spec(path@, crate_root@, content@),
{
    let mod_path = module_path_for(path, crate_root);
    if lexdepth::max_delimiter_depth(content) > MAX_NESTING_DEPTH {
        return failed_source(
            path,
            mod_path,
            text::owned("source nesting exceeds the 192-level safety limit"),
        );
    }
    if content.as_bytes().len() > MAX_PARSE_BYTES {
        return failed_source(path, mod_path, text::owned("source exceeds the 4294967280-byte parsing limit"));
    }
    let span = lexdepth::max_expression_span(content);
    assert(span == lexdepth::max_span_spec(vstd::utf8::encode_utf8(content@)));
    if span > MAX_EXPRESSION_SPAN {
        return failed_source(
            path,
            mod_path,
            text::owned("source expression nesting exceeds the 1024-token safety limit"),
        );
    }
    match syntax::parse_rust(content) {
        Ok(tree) => source_from_syntax(path, mod_path, tree),
        Err(e) => failed_source(path, mod_path, e),
    }
}

// ---------------------------------------------------------------------------
// Loading a set of files.
// ---------------------------------------------------------------------------
/// The last of the longest crate roots among the first `n` that contain `path`.
pub open spec fn nearest_root(path: Seq<char>, roots: Seq<Seq<char>>, n: int) -> Option<Seq<char>>
    decreases n,
{
    if n <= 0 {
        None
    } else {
        let r = nearest_root(path, roots, n - 1);
        let c = roots[n - 1];
        if path::path_starts_with(path, c) && (match r {
            Some(b) => path::components(c).len() >= path::components(b).len(),
            None => true,
        }) {
            Some(c)
        } else {
            r
        }
    }
}

/// The crate root (among `roots`) a source file belongs to: the deepest one
/// that contains it, the last such on ties.
pub fn nearest_crate_root(path: &str, roots: &Vec<String>) -> (r: Option<String>)
    ensures
        opt_chars(r) == nearest_root(path@, views(roots@), roots@.len() as int),
{
    let mut best: Option<String> = None;
    let mut best_len: usize = 0;
    let mut i: usize = 0;
    while i < roots.len()
        invariant
            i <= roots.len(),
            opt_chars(best) == nearest_root(path@, views(roots@), i as int),
            best.is_some() ==> best_len == path::components(best.unwrap()@).len(),
        decreases roots.len() - i,
    {
        let c = roots[i].as_str();
        if path::starts_with(path, c) {
            let len = path::component_count(c);
            if best.is_none() || len >= best_len {
                best = Some(roots[i].clone());
                best_len = len;
            }
        }
        i = i + 1;
    }
    best
}

/// The directories holding the given manifests, in order.
pub open spec fn manifest_dirs(ms: Seq<Manifest>) -> Seq<Seq<char>>
    decreases ms.len(),
{
    if ms.len() == 0 {
        Seq::empty()
    } else {
        let r = manifest_dirs(ms.drop_last());
        match path::parent_spec(ms.last().path@) {
            Some(d) => r.push(d),
            None => r,
        }
    }
}

/// The directories holding the given manifests.
pub fn crate_roots(manifests: &Vec<Manifest>) -> (r: Vec<String>)
    ensures
        views(r@) == manifest_dirs(manifests@),
{
    let mut r: Vec<String> = Vec::new();
    let mut i: usize = 0;
    while i < manifests.len()
        invariant
            i <= manifests.len(),
            views(r@) == manifest_dirs(manifests@.take(i as int)),
        decreases manifests.len() - i,
    {
        assert(manifests@.take(i + 1).drop_last() =~= manifests@.take(i as int));
        match path::parent(manifests[i].path.as_str()) {
            Some(d) => {
                r.push(d);
            },
            None => {},
        }
        i = i + 1;
        assert(views(r@) =~= manifest_dirs(manifests@.take(i as int)));
    }
    assert(manifests@.take(manifests.len() as int) =~= manifests@);
    r
}

/// What reading one source file gave.
pub enum SourceInput {
    /// The file's text.
    Text {
        /// File path.
        path: String,
        /// File content.
        content: String,
    },
    /// The file is larger than [`MAX_SOURCE_BYTES`].
    TooLarge {
        /// File path.
        path: String,
    },
    /// The file could not be read.
    Unreadable {
        /// File path.
        path: String,
        /// The I/O error text.
        error: String,
    },
}

/// The view of a diagnostic warning about a file.
pub open spec fn file_warning(message: Seq<char>, path: Seq<char>) -> crate::model::DiagnosticView {
    crate::model::DiagnosticView {
        level: crate::model::DiagnosticLevel::Warning,
        message,
        path: Some(path),
        line: None,
    }
}

/// The message for a file over the size limit.
pub open spec fn too_large_message() -> Seq<char> {
    "skipping source file larger than 8388608 bytes"@
}

/// The sources and diagnostics from the first `n` inputs.
pub open spec fn load_spec(inputs: Seq<SourceInput>, roots: Seq<Seq<char>>, root: Seq<char>, n: int) -> (Seq<SourceView>, Seq<crate::model::DiagnosticView>)
    decreases n,
{
    if n <= 0 {
        (Seq::empty(), Seq::empty())
    } else {
        let (ss, ds) = load_spec(inputs, roots, root, n - 1);
        match inputs[n - 1] {
            SourceInput::TooLarge { path } => (ss, ds.push(file_warning(too_large_message(), path@))),
            SourceInput::Unreadable { path, error } => (
                ss,
                ds.push(file_warning("skipping unreadable source file: "@ + error@, path@)),
            ),
            SourceInput::Text { path, content } => {
                let cr = match nearest_root(path@, roots, roots.len() as int) {
                    Some(r) => r,
                    None => root,
                };
                let src = parse_source_spec(path@, cr, content@);
                let ds2 = match src.parse_error {
                    Some(e) => ds.push(file_warning("failed to parse source: "@ + e, path@)),
                    None => ds,
                };
                (ss.push(src), ds2)
            },
        }
    }
}

/// The view of a list of diagnostics.
pub open spec fn diagnostic_views(v: Seq<Diagnostic>) -> Seq<crate::model::DiagnosticView> {
    v.map_values(|d: Diagnostic| d@)
}

/// A warning about a file.
fn warn(message: String, path: &String) -> (r: Diagnostic)
    ensures
        r@ == file_warning(message@, path@),
{
    Diagnostic::warning(message, Some(path.clone()))
}

/// Parses a set of read source files.
///
/// Oversized or unreadable files produce diagnostics and are skipped. Every
/// other file is parsed under its nearest crate root (or `root`); parse
/// failures are recorded on the [`ParsedSource`] and reported as warnings.
pub fn load_sources_from(inputs: &Vec<SourceInput>, manifests: &Vec<Manifest>, root: &str) -> (r: (
    Vec<ParsedSource>,
    Vec<Diagnostic>,
))
    ensures
        source_views(r.0@) == load_spec(inputs@, manifest_dirs(manifests@), root@, inputs@.len() as int).0,
        diagnostic_views(r.1@) == load_spec(inputs@, manifest_dirs(manifests@), root@, inputs@.len() as int).1,
{
    let roots = crate_roots(manifests);
    let ghost rv = manifest_dirs(manifests@);
    let mut sources: Vec<ParsedSource> = Vec::new();
    let mut diagnostics: Vec<Diagnostic> = Vec::new();
    let mut i: usize = 0;
    while i < inputs.len()
        invariant
            i <= inputs.len(),
            views(roots@) == rv,
            source_views(sources@) == load_spec(inputs@, rv, root@, i as int).0,
            diagnostic_views(diagnostics@) == load_spec(inputs@, rv, root@, i as int).1,
        decreases inputs.len() - i,
    {
        let ghost ss = source_views(sources@);
        let ghost ds = diagnostic_views(diagnostics@);
        match &inputs[i] {
            SourceInput::TooLarge { path } => {
                let d = warn(text::owned("skipping source file larger than 8388608 bytes"), path);
                diagnostics.push(d);
                assert(diagnostic_views(diagnostics@) =~= ds.push(d@));
            },
            SourceInput::Unreadable { path, error } => {
                let d = warn(text::concat2("skipping unreadable source file: ", error.as_str()), path);
                diagnostics.push(d);
                assert(diagnostic_views(diagnostics@) =~= ds.push(d@));
            },
            SourceInput::Text { path, content } => {
                let cr = match nearest_crate_root(path.as_str(), &roots) {
                    Some(r) => r,
                    None => text::owned(root),
                };
                let src = parse_source(path.as_str(), cr.as_str(), content.as_str());
                match &src.parse_error {
                    Some(e) => {
                        let d = warn(text::concat2("failed to parse source: ", e.as_str()), path);
                        diagnostics.push(d);
                        assert(diagnostic_views(diagnostics@) =~= ds.push(d@));
                    },
                    None => {},
                }
                sources.push(src);
                assert(source_views(sources@) =~= ss.push(src@));
            },
        }
        i = i + 1;
    }
    (sources, diagnostics)
}

// ---------------------------------------------------------------------------
// Contract evidence.
// ---------------------------------------------------------------------------
/// Some source records a contract definition.
pub open spec fn any_definition_in(sources: Seq<SourceView>) -> bool {
    exists|i: int| 0 <= i < sources.len() && sources[i].contract_definitions.len() > 0
}

/// `e` is the evidence line of a contract definition recorded in some source.
pub open spec fn definition_evidence_in(sources: Seq<SourceView>, e: Seq<char>) -> bool {
    exists|i: int, j: int|
        0 <= i < sources.len() && 0 <= j < sources[i].contract_definitions.len() && e
            == soroban::definition_evidence(#[trigger] sources[i].contract_definitions[j])
}

/// Adds the contract-definition evidence of the given sources to `info`.
pub fn note_sources(info: &mut SorobanInfo, sources: &Vec<ParsedSource>)
    ensures
        final(info).contract_macros_found == (old(info).contract_macros_found || any_definition_in(
            source_views(sources@),
        )),
        final(info).has_sdk_dependency == old(info).has_sdk_dependency,
        final(info).sdk_versions == old(info).sdk_versions,
        forall|e: Seq<char>|
            #![trigger views(final(info).evidence@).contains(e)]
            views(final(info).evidence@).contains(e) <==> (views(old(info).evidence@).contains(e)
                || definition_evidence_in(source_views(sources@), e)),
        crate::order::strictly_sorted_texts(views(old(info).evidence@)) ==> crate::order::strictly_sorted_texts(
            views(final(info).evidence@),
        ),
{
    let ghost sv = source_views(sources@);
    let ghost start = *info;
    let mut i: usize = 0;
    while i < sources.len()
        invariant
            i <= sources.len(),
            sv == source_views(sources@),
            info.contract_macros_found == (start.contract_macros_found || any_definition_in(
                sv.take(i as int),
            )),
            info.has_sdk_dependency == start.has_sdk_dependency,
            info.sdk_versions == start.sdk_versions,
            crate::order::strictly_sorted_texts(views(start.evidence@)) ==> crate::order::strictly_sorted_texts(
                views(info.evidence@),
            ),
            forall|e: Seq<char>|
                #![trigger views(info.evidence@).contains(e)]
                views(info.evidence@).contains(e) <==> (views(start.evidence@).contains(e)
                    || definition_evidence_in(sv.take(i as int), e)),
        decreases sources.len() - i,
    {
        let defs = &sources[i].contract_definitions;
        let ghost before = *info;
        let mut j: usize = 0;
        while j < defs.len()
            invariant
                j <= defs.len(),
                *defs == sources@[i as int].contract_definitions,
                j > 0 ==> info.contract_macros_found,
                j == 0 ==> *info == before,
                info.has_sdk_dependency == before.has_sdk_dependency,
                info.sdk_versions == before.sdk_versions,
                before.contract_macros_found ==> info.contract_macros_found,
                crate::order::strictly_sorted_texts(views(before.evidence@)) ==> crate::order::strictly_sorted_texts(
                    views(info.evidence@),
                ),
                forall|e: Seq<char>|
                    #![trigger views(info.evidence@).contains(e)]
                    views(info.evidence@).contains(e) <==> (views(before.evidence@).contains(e)
                        || exists|k: int| 0 <= k < j && e == soroban::definition_evidence(#[trigger] views(defs@)[k])),
            decreases defs.len() - j,
        {
            let ghost prev = *info;
            soroban::note_contract_definition(info, defs[j].as_str());
            proof {
                let d = soroban::definition_evidence(defs@[j as int]@);
                assert(views(defs@)[j as int] == defs@[j as int]@);
                assert forall|e: Seq<char>|
                    #![trigger views(info.evidence@).contains(e)]
                    views(info.evidence@).contains(e) <==> (views(prev.evidence@).contains(e) || e == d) by {
                    let nv = views(info.evidence@);
                    let pv = views(prev.evidence@);
                    if !pv.contains(d) {
                        assert(nv.to_multiset() == pv.push(d).to_multiset());
                        vstd::seq_lib::lemma_seq_contains_after_push(pv, d, e);
                        vstd::seq_lib::to_multiset_contains(nv, e);
                        vstd::seq_lib::to_multiset_contains(pv.push(d), e);
                        assert(nv.contains(e) <==> pv.push(d).contains(e));
                    } else {
                        assert(nv == pv);
                    }
                }
            }
            j = j + 1;
        }
        proof {
            let nv = sv.take(i + 1);
            assert(nv.drop_last() =~= sv.take(i as int));
            assert(sv[i as int].contract_definitions == views(defs@));
            assert(any_definition_in(nv) == (any_definition_in(sv.take(i as int)) || defs@.len() > 0)) by {
                if defs@.len() > 0 {
                    assert(nv[i as int].contract_definitions.len() > 0);
                }
                if any_definition_in(nv) {
                    let w = choose|w: int| 0 <= w < nv.len() && nv[w].contract_definitions.len() > 0;
                    if w < i {
                        assert(sv.take(i as int)[w] == nv[w]);
                    }
                }
                if any_definition_in(sv.take(i as int)) {
                    let w = choose|w: int| 0 <= w < i && sv.take(i as int)[w].contract_definitions.len() > 0;
                    assert(nv[w] == sv.take(i as int)[w]);
                }
            }
            assert forall|e: Seq<char>|
                definition_evidence_in(nv, e) <==> (definition_evidence_in(sv.take(i as int), e) || exists|k: int|
                    0 <= k < defs@.len() && e == soroban::definition_evidence(#[trigger] views(defs@)[k])) by {
                if definition_evidence_in(nv, e) {
                    let (a, b) = choose|a: int, b: int|
                        0 <= a < nv.len() && 0 <= b < nv[a].contract_definitions.len() && e
                            == soroban::definition_evidence(#[trigger] nv[a].contract_definitions[b]);
                    if a < i {
                        assert(sv.take(i as int)[a] == nv[a]);
                    } else {
                        assert(views(defs@)[b] == nv[a].contract_definitions[b]);
                    }
                }
                if definition_evidence_in(sv.take(i as int), e) {
                    let (a, b) = choose|a: int, b: int|
                        0 <= a < i && 0 <= b < sv.take(i as int)[a].contract_definitions.len() && e
                            == soroban::definition_evidence(#[trigger] sv.take(i as int)[a].contract_definitions[b]);
                    assert(nv[a] == sv.take(i as int)[a]);
                }
                if exists|k: int| 0 <= k < defs@.len() && e == soroban::definition_evidence(#[trigger] views(defs@)[k]) {
                    let k = choose|k: int| 0 <= k < defs@.len() && e == soroban::definition_evidence(#[trigger] views(defs@)[k]);
                    assert(nv[i as int].contract_definitions[k] == views(defs@)[k]);
                }
            }
        }
        i = i + 1;
    }
    assert(sv.take(sources.len() as int) =~= sv);
}

/// Applies contract-definition evidence from parsed sources to a project,
/// then reclassifies it.
pub fn apply_source_evidence(project: &mut Project, sources: &Vec<ParsedSource>)
    ensures
        final(project).soroban.contract_macros_found == (old(project).soroban.contract_macros_found
            || any_definition_in(source_views(sources@))),
        final(project).soroban.has_sdk_dependency == old(project).soroban.has_sdk_dependency,
        final(project).soroban.sdk_versions == old(project).soroban.sdk_versions,
        forall|e: Seq<char>|
            #![trigger views(final(project).soroban.evidence@).contains(e)]
            views(final(project).soroban.evidence@).contains(e) <==> (views(
                old(project).soroban.evidence@,
            ).contains(e) || definition_evidence_in(source_views(sources@), e)),
        crate::order::strictly_sorted_texts(views(old(project).soroban.evidence@))
            ==> crate::order::strictly_sorted_texts(views(final(project).soroban.evidence@)),
        final(project).kind == soroban::classify_spec(final(project).soroban),
        final(project).root == old(project).root,
        final(project).manifests == old(project).manifests,
        final(project).source_files == old(project).source_files,
        final(project).diagnostics == old(project).diagnostics,
{
    note_sources(&mut project.soroban, sources);
    project.kind = soroban::classify(&project.soroban);
}

/// The Soroban evidence found in a set of sources alone.
pub fn soroban_evidence(sources: &Vec<ParsedSource>) -> (r: SorobanInfo)
    ensures
        r.contract_macros_found == any_definition_in(source_views(sources@)),
        !r.has_sdk_dependency,
        r.sdk_versions@.len() == 0,
        forall|e: Seq<char>|
            #![trigger views(r.evidence@).contains(e)]
            views(r.evidence@).contains(e) <==> definition_evidence_in(source_views(sources@), e),
        crate::order::strictly_sorted_texts(views(r.evidence@)),
{
    let mut info = SorobanInfo::default();
    assert(views(info.evidence@) =~= Seq::<Seq<char>>::empty());
    note_sources(&mut info, sources);
    info
}
} // verus!
