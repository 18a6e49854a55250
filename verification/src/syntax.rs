//! The syntax facts the scanner reads from Rust source.
//!
//! Parsing is done by `syn`. The parsed file is turned into plain values: a
//! stream of item events (in source order, with nested containers bracketed by
//! [`SynEvent::End`]) and, for function bodies and whole files, the stream of
//! call, macro, string-literal and `unsafe` nodes in `syn::visit` order. All
//! scanning logic works on these values.
use vstd::prelude::*;

use quote::ToTokens;
use syn::spanned::Spanned;
use syn::visit::Visit;

use crate::source::ItemKind;

verus! {

/// Start position and end line of a syntax node (column is 0-based).
#[derive(Debug, Clone, Copy, PartialEq, Eq, Structural)]
pub struct RawSpan {
    /// 1-based start line.
    pub line: usize,
    /// 0-based start column.
    pub column: usize,
    /// 1-based end line.
    pub end_line: usize,
}

/// A function parameter as written.
#[derive(Debug, Clone)]
pub enum RawParam {
    /// `self`, `&self`, `&mut self`.
    Receiver,
    /// `pattern: Type`.
    Typed {
        /// The binding name, or the rendered pattern when it is not an identifier.
        name: String,
        /// The rendered type.
        ty: String,
    },
}

/// A function signature.
#[derive(Debug, Clone)]
pub struct RawSig {
    /// Function name.
    pub name: String,
    /// Span of the signature.
    pub span: RawSpan,
    /// Whether the function is `async`.
    pub is_async: bool,
    /// Parameters in order.
    pub params: Vec<RawParam>,
    /// Rendered return type, if not `()`.
    pub return_type: Option<String>,
}

/// One fact-bearing node inside a function body or file, in visit order.
#[derive(Debug, Clone)]
pub enum RawFact {
    /// `receiver.method(..)`.
    MethodCall {
        /// Method name.
        name: String,
        /// Rendered receiver.
        context: String,
        /// Position of the call.
        line: usize,
        /// 0-based column of the call.
        column: usize,
        /// Rendered call.
        text: String,
    },
    /// `path(..)` where the callee is a path.
    Call {
        /// Last path segment.
        name: String,
        /// Rendered path.
        context: String,
        /// Position of the call.
        line: usize,
        /// 0-based column of the call.
        column: usize,
        /// Rendered call.
        text: String,
    },
    /// `name!(..)`.
    Macro {
        /// Last path segment of the macro.
        name: String,
        /// Position of the invocation.
        line: usize,
        /// 0-based column of the invocation.
        column: usize,
        /// Rendered invocation.
        text: String,
    },
    /// A string literal.
    Str {
        /// Literal value.
        value: String,
        /// Position of the literal.
        line: usize,
        /// 0-based column of the literal.
        column: usize,
    },
    /// A call whose callee is not a path (a closure, a field, a call result).
    OtherCall {
        /// Position of the call.
        line: usize,
        /// 0-based column of the call.
        column: usize,
    },
    /// A literal that is not a string (a number, a character, a byte string).
    OtherLit {
        /// Position of the literal.
        line: usize,
        /// 0-based column of the literal.
        column: usize,
    },
    /// An `unsafe` block.
    Unsafe {
        /// Position of the block.
        line: usize,
        /// 0-based column of the block.
        column: usize,
    },
}

/// One item-level event of a file, in source order.
#[derive(Debug, Clone)]
pub enum SynEvent {
    /// An item that is not a container or function.
    Item {
        /// Item kind.
        kind: ItemKind,
        /// Name as written (for unnamed kinds, the rendered item).
        name: String,
        /// Attribute paths, as path segments.
        attrs: Vec<Vec<String>>,
        /// Whether the item is declared `pub`.
        is_public: bool,
        /// Item span.
        span: RawSpan,
    },
    /// A free function.
    FreeFn {
        /// Attribute paths.
        attrs: Vec<Vec<String>>,
        /// Whether it is declared `pub`.
        is_public: bool,
        /// Item span.
        span: RawSpan,
        /// Signature.
        sig: RawSig,
    },
    /// A macro invocation item.
    MacroItem {
        /// Segments of the macro path.
        path: Vec<String>,
        /// Attribute paths.
        attrs: Vec<Vec<String>>,
        /// Item span.
        span: RawSpan,
    },
    /// Start of an `impl` block; its items follow, then [`SynEvent::End`].
    ImplStart {
        /// Attribute paths.
        attrs: Vec<Vec<String>>,
        /// Item span.
        span: RawSpan,
        /// Rendered self type.
        self_ty: String,
    },
    /// A function inside an `impl` block.
    ImplFn {
        /// Attribute paths.
        attrs: Vec<Vec<String>>,
        /// Whether it is declared `pub`.
        is_public: bool,
        /// Signature.
        sig: RawSig,
        /// Facts of the body.
        body: Vec<RawFact>,
    },
    /// An item of an `impl` block that is not a function (a constant, a type,
    /// a macro invocation).
    ImplOther,
    /// Start of a trait; its items follow, then [`SynEvent::End`].
    TraitStart {
        /// Attribute paths.
        attrs: Vec<Vec<String>>,
        /// Whether the trait is declared `pub`.
        is_public: bool,
        /// Trait name.
        name: String,
        /// Item span.
        span: RawSpan,
    },
    /// A function declared in a trait.
    TraitFn {
        /// Attribute paths.
        attrs: Vec<Vec<String>>,
        /// Signature.
        sig: RawSig,
    },
    /// An item of a trait that is not a function.
    TraitOther,
    /// Start of a module; an inline module's items follow, then [`SynEvent::End`].
    ModStart {
        /// Attribute paths.
        attrs: Vec<Vec<String>>,
        /// Whether the module is declared `pub`.
        is_public: bool,
        /// Module name.
        name: String,
        /// Item span.
        span: RawSpan,
    },
    /// End of the innermost open `impl`, trait or module.
    End,
}

/// A parsed file: its item events and the facts of the whole file.
#[derive(Debug, Clone)]
pub struct SyntaxTree {
    /// Item events in source order.
    pub events: Vec<SynEvent>,
    /// Facts of every node of the file, in visit order.
    pub facts: Vec<RawFact>,
}

#[verifier::external_type_specification]
#[verifier::external_body]
pub struct ExSynFile(syn::File);

#[verifier::external_type_specification]
#[verifier::external_body]
pub struct ExSynItem(syn::Item);

#[verifier::external_type_specification]
#[verifier::external_body]
pub struct ExSynItemFn(syn::ItemFn);

#[verifier::external_type_specification]
#[verifier::external_body]
pub struct ExSynItemImpl(syn::ItemImpl);

#[verifier::external_type_specification]
#[verifier::external_body]
pub struct ExSynImplItemFn(syn::ImplItemFn);

#[verifier::external_type_specification]
#[verifier::external_body]
pub struct ExSynItemTrait(syn::ItemTrait);

#[verifier::external_type_specification]
#[verifier::external_body]
pub struct ExSynItemMod(syn::ItemMod);

#[verifier::external_type_specification]
#[verifier::external_body]
pub struct ExSynItemStruct(syn::ItemStruct);

#[verifier::external_type_specification]
#[verifier::external_body]
pub struct ExSynItemEnum(syn::ItemEnum);

#[verifier::external_type_specification]
#[verifier::external_body]
pub struct ExSynItemUnion(syn::ItemUnion);

#[verifier::external_type_specification]
#[verifier::external_body]
pub struct ExSynItemConst(syn::ItemConst);

#[verifier::external_type_specification]
#[verifier::external_body]
pub struct ExSynItemStatic(syn::ItemStatic);

#[verifier::external_type_specification]
#[verifier::external_body]
pub struct ExSynItemMacro(syn::ItemMacro);

#[verifier::external_type_specification]
#[verifier::external_body]
pub struct ExSynItemType(syn::ItemType);

#[verifier::external_type_specification]
#[verifier::external_body]
pub struct ExSynItemUse(syn::ItemUse);

#[verifier::external_type_specification]
#[verifier::external_body]
pub struct ExSynItemForeignMod(syn::ItemForeignMod);

#[verifier::external_type_specification]
#[verifier::external_body]
pub struct ExSynItemExternCrate(syn::ItemExternCrate);

#[verifier::external_type_specification]
#[verifier::external_body]
pub struct ExSynItemTraitAlias(syn::ItemTraitAlias);

#[verifier::external_type_specification]
#[verifier::external_body]
pub struct ExSynSignature(syn::Signature);

#[verifier::external_type_specification]
#[verifier::external_body]
pub struct ExSynBlock(syn::Block);

#[verifier::external_type_specification]
#[verifier::external_body]
pub struct ExSynFnArg(syn::FnArg);

#[verifier::external_type_specification]
#[verifier::external_body]
pub struct ExSynReturnType(syn::ReturnType);

#[verifier::external_type_specification]
#[verifier::external_body]
pub struct ExSynAttribute(syn::Attribute);

#[verifier::external_type_specification]
#[verifier::external_body]
pub struct ExSynVisibility(syn::Visibility);

#[verifier::external_type_specification]
#[verifier::external_body]
pub struct ExSynExprMethodCall(syn::ExprMethodCall);

#[verifier::external_type_specification]
#[verifier::external_body]
pub struct ExSynExprCall(syn::ExprCall);

#[verifier::external_type_specification]
#[verifier::external_body]
pub struct ExSynMacro(syn::Macro);

#[verifier::external_type_specification]
#[verifier::external_body]
pub struct ExSynLit(syn::Lit);

#[verifier::external_type_specification]
#[verifier::external_body]
pub struct ExSynExprUnsafe(syn::ExprUnsafe);

#[verifier::external_type_specification]
#[verifier::external_body]
pub struct ExSpan(proc_macro2::Span);

/// Start line, start column and end line of a span.
///
/// Reads `proc_macro2::Span::start` and `Span::end` (span locations enabled).
#[verifier::external_body]
fn span_info(s: proc_macro2::Span) -> RawSpan {
    RawSpan { line: s.start().line, column: s.start().column, end_line: s.end().line }
}

/// The path segments of each attribute (`#[a::b]` gives `["a", "b"]`).
///
/// Reads `syn::Attribute::path` and its segments' identifiers.
#[verifier::external_body]
fn attr_segments(attrs: &[syn::Attribute]) -> Vec<Vec<String>> {
    attrs.iter().map(|a| a.path().segments.iter().map(|s| s.ident.to_string()).collect()).collect()
}

/// Whether a visibility is `pub`.
///
/// Tells `syn::Visibility::Public` apart from the other variants.
#[verifier::external_body]
fn vis_public(v: &syn::Visibility) -> bool {
    matches!(v, syn::Visibility::Public(_))
}

/// A parameter as plain values.
///
/// Tells receivers from typed parameters and identifier patterns from other
/// patterns; other patterns and types are rendered with `quote::ToTokens`.
#[verifier::external_body]
fn param_of(arg: &syn::FnArg) -> RawParam {
    match arg {
        syn::FnArg::Receiver(_) => RawParam::Receiver,
        syn::FnArg::Typed(pt) => RawParam::Typed {
            name: match &*pt.pat {
                syn::Pat::Ident(pi) => pi.ident.to_string(),
                other => other.to_token_stream().to_string(),
            },
            ty: pt.ty.to_token_stream().to_string(),
        },
    }
}

/// The rendered return type, if one is written.
///
/// Tells `syn::ReturnType::Default` from an explicit type.
#[verifier::external_body]
fn return_of(output: &syn::ReturnType) -> Option<String> {
    match output {
        syn::ReturnType::Default => None,
        syn::ReturnType::Type(_, ty) => Some(ty.to_token_stream().to_string()),
    }
}

/// A signature as plain values.
///
/// Reads the identifier, span, `async` token, parameters and return type of a
/// `syn::Signature`.
#[verifier::external_body]
fn sig_of(sig: &syn::Signature) -> RawSig {
    let params = sig.inputs.iter().map(param_of).collect();
    let return_type = return_of(&sig.output);
    RawSig { name: sig.ident.to_string(), span: span_info(sig.span()), is_async: sig.asyncness.is_some(), params, return_type }
}

/// Collects fact-bearing nodes in `syn::visit` order.
///
/// Its methods recurse through `syn::visit` one level per level of syntax.
/// They are reached only from [`parse_rust`], on trees parsed from text within
/// the nesting limits that [`parse_rust`] requires.
pub struct FactCollector {
    /// Facts collected so far.
    pub facts: Vec<RawFact>,
}

impl<'ast> Visit<'ast> for FactCollector {
    /// Records a method call, then visits its parts.
    #[verifier::external_body]
    fn visit_expr_method_call(&mut self, node: &'ast syn::ExprMethodCall) {
        let start = node.span().start();
        self.facts.push(RawFact::MethodCall {
            name: node.method.to_string(),
            context: node.receiver.to_token_stream().to_string(),
            line: start.line,
            column: start.column,
            text: node.to_token_stream().to_string(),
        });
        syn::visit::visit_expr_method_call(self, node);
    }

    /// Records a call (as `Call` when the callee is a path, else as
    /// `OtherCall`), then visits its parts.
    #[verifier::external_body]
    fn visit_expr_call(&mut self, node: &'ast syn::ExprCall) {
        let start = node.span().start();
        match &*node.func {
            syn::Expr::Path(path) => self.facts.push(RawFact::Call {
                name: path.path.segments.last().map(|s| s.ident.to_string()).unwrap_or_default(),
                context: path.path.to_token_stream().to_string(),
                line: start.line,
                column: start.column,
                text: node.to_token_stream().to_string(),
            }),
            _ => self.facts.push(RawFact::OtherCall { line: start.line, column: start.column }),
        }
        syn::visit::visit_expr_call(self, node);
    }

    /// Records a macro invocation, then visits its parts.
    #[verifier::external_body]
    fn visit_macro(&mut self, node: &'ast syn::Macro) {
        let start = node.span().start();
        let name = node.path.segments.last().map(|s| s.ident.to_string()).unwrap_or_default();
        let text = node.to_token_stream().to_string();
        self.facts.push(RawFact::Macro { name, line: start.line, column: start.column, text });
        syn::visit::visit_macro(self, node);
    }

    /// Records a literal (as `Str` for a string literal, else as
    /// `OtherLit`), then visits its parts.
    #[verifier::external_body]
    fn visit_lit(&mut self, node: &'ast syn::Lit) {
        let start = node.span().start();
        match node {
            syn::Lit::Str(s) => self.facts.push(RawFact::Str { value: s.value(), line: start.line, column: start.column }),
            _ => self.facts.push(RawFact::OtherLit { line: start.line, column: start.column }),
        }
        syn::visit::visit_lit(self, node);
    }

    /// Records an `unsafe` block, then visits its parts.
    #[verifier::external_body]
    fn visit_expr_unsafe(&mut self, node: &'ast syn::ExprUnsafe) {
        let start = node.span().start();
        self.facts.push(RawFact::Unsafe { line: start.line, column: start.column });
        syn::visit::visit_expr_unsafe(self, node);
    }
}

/// The facts of a function body, in visit order.
///
/// Runs [`FactCollector`] over the block with `syn::visit`. It is reached only
/// from [`ItemCollector`], and so only from [`parse_rust`] within its limits.
#[verifier::external_body]
fn block_facts(block: &syn::Block) -> Vec<RawFact> {
    let mut collector = FactCollector { facts: Vec::new() };
    collector.visit_block(block);
    collector.facts
}

/// Collects item events, descending only into `impl` blocks, traits and
/// inline modules (never into function bodies, whose facts [`block_facts`]
/// collects). Like [`FactCollector`], it is reached only from [`parse_rust`].
pub struct ItemCollector {
    /// Events collected so far.
    pub events: Vec<SynEvent>,
}

impl<'ast> Visit<'ast> for ItemCollector {
    /// Dispatches on the item kind; unparsed items are recorded as `Other`.
    #[verifier::external_body]
    fn visit_item(&mut self, i: &'ast syn::Item) {
        if let syn::Item::Verbatim(_) = i {
            let text = i.to_token_stream().to_string();
            self.events.push(SynEvent::Item { kind: ItemKind::Other, name: text, attrs: Vec::new(), is_public: false, span: span_info(i.span()) });
        } else {
            syn::visit::visit_item(self, i);
        }
    }

    /// Records a free function (its body is not descended into).
    #[verifier::external_body]
    fn visit_item_fn(&mut self, i: &'ast syn::ItemFn) {
        self.events.push(SynEvent::FreeFn {
            attrs: attr_segments(&i.attrs),
            is_public: vis_public(&i.vis),
            span: span_info(i.span()),
            sig: sig_of(&i.sig),
        });
    }

    /// Records an `impl` block and each of its items.
    #[verifier::external_body]
    fn visit_item_impl(&mut self, i: &'ast syn::ItemImpl) {
        let self_ty = i.self_ty.to_token_stream().to_string();
        self.events.push(SynEvent::ImplStart { attrs: attr_segments(&i.attrs), span: span_info(i.span()), self_ty });
        for item in &i.items {
            match item {
                syn::ImplItem::Fn(f) => self.visit_impl_item_fn(f),
                _ => self.events.push(SynEvent::ImplOther),
            }
        }
        self.events.push(SynEvent::End);
    }

    /// Records a function of an `impl` block, with the facts of its body.
    #[verifier::external_body]
    fn visit_impl_item_fn(&mut self, f: &'ast syn::ImplItemFn) {
        self.events.push(SynEvent::ImplFn {
            attrs: attr_segments(&f.attrs),
            is_public: vis_public(&f.vis),
            sig: sig_of(&f.sig),
            body: block_facts(&f.block),
        });
    }

    /// Records a trait and each of its items.
    #[verifier::external_body]
    fn visit_item_trait(&mut self, t: &'ast syn::ItemTrait) {
        let (attrs, is_public, name, span) = (attr_segments(&t.attrs), vis_public(&t.vis), t.ident.to_string(), span_info(t.span()));
        self.events.push(SynEvent::TraitStart { attrs, is_public, name, span });
        for item in &t.items {
            match item {
                syn::TraitItem::Fn(f) => self.events.push(SynEvent::TraitFn { attrs: attr_segments(&f.attrs), sig: sig_of(&f.sig) }),
                _ => self.events.push(SynEvent::TraitOther),
            }
        }
        self.events.push(SynEvent::End);
    }

    /// Records a module and, for an inline module, its items.
    #[verifier::external_body]
    fn visit_item_mod(&mut self, m: &'ast syn::ItemMod) {
        let (attrs, is_public, name, span) = (attr_segments(&m.attrs), vis_public(&m.vis), m.ident.to_string(), span_info(m.span()));
        self.events.push(SynEvent::ModStart { attrs, is_public, name, span });
        if let Some((_, items)) = &m.content {
            for item in items {
                self.visit_item(item);
            }
        }
        self.events.push(SynEvent::End);
    }

    /// Records a struct.
    #[verifier::external_body]
    fn visit_item_struct(&mut self, s: &'ast syn::ItemStruct) {
        let (attrs, is_public, span) = (attr_segments(&s.attrs), vis_public(&s.vis), span_info(s.span()));
        self.events.push(SynEvent::Item { kind: ItemKind::Struct, name: s.ident.to_string(), attrs, is_public, span });
    }

    /// Records an enum.
    #[verifier::external_body]
    fn visit_item_enum(&mut self, e: &'ast syn::ItemEnum) {
        let (attrs, is_public, span) = (attr_segments(&e.attrs), vis_public(&e.vis), span_info(e.span()));
        self.events.push(SynEvent::Item { kind: ItemKind::Enum, name: e.ident.to_string(), attrs, is_public, span });
    }

    /// Records a union.
    #[verifier::external_body]
    fn visit_item_union(&mut self, u: &'ast syn::ItemUnion) {
        let (attrs, is_public, span) = (attr_segments(&u.attrs), vis_public(&u.vis), span_info(u.span()));
        self.events.push(SynEvent::Item { kind: ItemKind::Union, name: u.ident.to_string(), attrs, is_public, span });
    }

    /// Records a constant.
    #[verifier::external_body]
    fn visit_item_const(&mut self, c: &'ast syn::ItemConst) {
        let (attrs, is_public, span) = (attr_segments(&c.attrs), vis_public(&c.vis), span_info(c.span()));
        self.events.push(SynEvent::Item { kind: ItemKind::Const, name: c.ident.to_string(), attrs, is_public, span });
    }

    /// Records a static.
    #[verifier::external_body]
    fn visit_item_static(&mut self, s: &'ast syn::ItemStatic) {
        let (attrs, is_public, span) = (attr_segments(&s.attrs), vis_public(&s.vis), span_info(s.span()));
        self.events.push(SynEvent::Item { kind: ItemKind::Static, name: s.ident.to_string(), attrs, is_public, span });
    }

    /// Records a macro invocation item with the segments of its path.
    #[verifier::external_body]
    fn visit_item_macro(&mut self, m: &'ast syn::ItemMacro) {
        let path = m.mac.path.segments.iter().map(|s| s.ident.to_string()).collect();
        let (attrs, span) = (attr_segments(&m.attrs), span_info(m.span()));
        self.events.push(SynEvent::MacroItem { path, attrs, span });
    }

    /// Records a type alias.
    #[verifier::external_body]
    fn visit_item_type(&mut self, t: &'ast syn::ItemType) {
        let (attrs, is_public, span) = (attr_segments(&t.attrs), vis_public(&t.vis), span_info(t.span()));
        self.events.push(SynEvent::Item { kind: ItemKind::TypeAlias, name: t.ident.to_string(), attrs, is_public, span });
    }

    /// Records a `use` item.
    #[verifier::external_body]
    fn visit_item_use(&mut self, u: &'ast syn::ItemUse) {
        let (attrs, is_public, span) = (attr_segments(&u.attrs), vis_public(&u.vis), span_info(u.span()));
        self.events.push(SynEvent::Item { kind: ItemKind::Use, name: String::new(), attrs, is_public, span });
    }

    /// Records an `extern` block.
    #[verifier::external_body]
    fn visit_item_foreign_mod(&mut self, f: &'ast syn::ItemForeignMod) {
        let (attrs, span) = (attr_segments(&f.attrs), span_info(f.span()));
        self.events.push(SynEvent::Item { kind: ItemKind::ForeignMod, name: String::new(), attrs, is_public: false, span });
    }

    /// Records an `extern crate` item as `Other`, named by its rendering.
    #[verifier::external_body]
    fn visit_item_extern_crate(&mut self, e: &'ast syn::ItemExternCrate) {
        let (attrs, span, name) = (attr_segments(&e.attrs), span_info(e.span()), e.to_token_stream().to_string());
        self.events.push(SynEvent::Item { kind: ItemKind::Other, name, attrs, is_public: vis_public(&e.vis), span });
    }

    /// Records a trait alias as `Other`, named by its rendering.
    #[verifier::external_body]
    fn visit_item_trait_alias(&mut self, t: &'ast syn::ItemTraitAlias) {
        let (attrs, span, name) = (attr_segments(&t.attrs), span_info(t.span()), t.to_token_stream().to_string());
        self.events.push(SynEvent::Item { kind: ItemKind::Other, name, attrs, is_public: vis_public(&t.vis), span });
    }
}

/// What `syn` makes of a file: its syntax facts, or its error text.
pub uninterp spec fn parsed_syntax(content: Seq<char>) -> Result<SyntaxTree, Seq<char>>;

/// Parses Rust source text into its syntax facts, or gives `syn`'s error text.
///
/// Clears `proc-macro2`'s per-thread span table
/// (`proc_macro2::extra::invalidate_current_thread_spans`), calls
/// `syn::parse_file`, then runs [`ItemCollector`] over the top-level items and
/// [`FactCollector`] over the whole file. The contract only names the result:
/// `syn`'s grammar is not restated here, but parsing depends on the text alone.
///
/// `syn` parses and the visitors walk by recursion, one level per level of
/// syntax, so inputs are limited to a delimiter depth of 192 and an
/// expression span of 1024 tokens, which bound that nesting, and to a size the
/// span table (which counts characters in 32 bits, from zero once cleared) can
/// index. The stack that parsing at those bounds needs is not stated: it
/// depends on the thread's stack size and on how `syn` was compiled. (In this
/// crate's test build, where each test thread has 2 MiB, about a hundred
/// levels of nested braces, generic arguments or `&` overflow it.)
#[verifier::external_body]
pub fn parse_rust(content: &str) -> (r: Result<SyntaxTree, String>)
    requires
        crate::source::parse_limits_hold(content@),
    ensures
        match r {
            Ok(t) => parsed_syntax(content@) == Ok::<SyntaxTree, Seq<char>>(t),
            Err(e) => parsed_syntax(content@) == Err::<SyntaxTree, Seq<char>>(e@),
        },
{
    proc_macro2::extra::invalidate_current_thread_spans();
    let file = syn::parse_file(content).map_err(|e| e.to_string())?;
    let mut items = ItemCollector { events: Vec::new() };
    for item in &file.items {
        items.visit_item(item);
    }
    let mut facts = FactCollector { facts: Vec::new() };
    facts.visit_file(&file);
    Ok(SyntaxTree { events: items.events, facts: facts.facts })
}

} // verus!
