//! The shapes a field's type expression may take, together with their
//! mathematical models.
//!
//! A type expression is a tree: a (possibly qualified) path whose segments
//! may carry angle-bracketed or parenthesized argument lists, or a single
//! child wrapped in an array, slice or reference. Every other surface shape
//! (raw pointers, function pointers, trait objects, tuples, macros and so
//! on) is carried as `Unsupported`, which the rewriter treats as fatal.
//!
//! The executable tree (`TypeExpr`) holds `String` and `Vec`; contracts
//! speak of the ghost tree (`TyV`), which holds `Seq<char>` and `Seq`.

use vstd::prelude::*;

verus! {

/// An executable type expression, as handed over by the surface parser.
#[derive(Debug, PartialEq)]
pub enum TypeExpr {
    /// A named type, e.g. `Outer<Inner>` or `std::vec::Vec<T>`.
    Path { segments: Vec<PathSegment> },
    /// A fixed-size array `[T; N]`; the length expression is carried as
    /// opaque token text and never rewritten.
    Array { elem: Box<TypeExpr>, len_tokens: String },
    /// A slice `[T]`.
    Slice { elem: Box<TypeExpr> },
    /// A reference `&T`, `&mut T` or `&'a T`; mutability and lifetime are
    /// carried verbatim.
    Reference { elem: Box<TypeExpr>, is_mutable: bool, lifetime: Option<String> },
    /// Any shape the rewriter has no rule for; `description` is a short
    /// rendering of the offending shape, used in the fatal diagnostic.
    Unsupported { description: String },
}

/// One segment of a path: an identifier with optional arguments.
#[derive(Debug, PartialEq)]
pub struct PathSegment {
    pub name: String,
    pub arguments: PathArguments,
}

/// The argument list of a path segment.
#[derive(Debug, PartialEq)]
pub enum PathArguments {
    /// A bare identifier, e.g. the `u64` in `Vec<u64>`.
    NoArgs,
    /// `<A, B, ...>`.
    AngleBracketed { args: Vec<TypeExpr> },
    /// `(A, B) -> C`, as in function-trait paths. Inputs are rewritten;
    /// the output type is carried through untouched.
    Parenthesized { inputs: Vec<TypeExpr>, output: Option<Box<TypeExpr>> },
}

/// Ghost model of a type expression.
pub enum TyV {
    Path { segments: Seq<SegV> },
    Array { elem: Box<TyV>, len_tokens: Seq<char> },
    Slice { elem: Box<TyV> },
    Reference { elem: Box<TyV>, is_mutable: bool, lifetime: Option<Seq<char>> },
    Unsupported { description: Seq<char> },
}

/// Ghost model of a path segment.
pub struct SegV {
    pub name: Seq<char>,
    pub arguments: ArgsV,
}

/// Ghost model of a segment's argument list.
pub enum ArgsV {
    NoArgs,
    AngleBracketed { args: Seq<TyV> },
    Parenthesized { inputs: Seq<TyV>, output: Option<Box<TyV>> },
}

pub open spec fn view_tys(ts: Seq<TypeExpr>) -> Seq<TyV>
    decreases ts,
{
    if ts.len() == 0 {
        Seq::empty()
    } else {
        seq![view_ty(ts[0])] + view_tys(ts.drop_first())
    }
}

pub open spec fn view_segs(ss: Seq<PathSegment>) -> Seq<SegV>
    decreases ss,
{
    if ss.len() == 0 {
        Seq::empty()
    } else {
        seq![view_seg(ss[0])] + view_segs(ss.drop_first())
    }
}

pub open spec fn view_ty(t: TypeExpr) -> TyV
    decreases t,
{
    match t {
        TypeExpr::Path { segments } => TyV::Path { segments: view_segs(segments@) },
        TypeExpr::Array { elem, len_tokens } => TyV::Array {
            elem: Box::new(view_ty(*elem)),
            len_tokens: len_tokens@,
        },
        TypeExpr::Slice { elem } => TyV::Slice { elem: Box::new(view_ty(*elem)) },
        TypeExpr::Reference { elem, is_mutable, lifetime } => TyV::Reference {
            elem: Box::new(view_ty(*elem)),
            is_mutable,
            lifetime: match lifetime {
                Some(l) => Some(l@),
                None => None,
            },
        },
        TypeExpr::Unsupported { description } => TyV::Unsupported { description: description@ },
    }
}

pub open spec fn view_seg(s: PathSegment) -> SegV
    decreases s,
{
    SegV { name: s.name@, arguments: view_args(s.arguments) }
}

pub open spec fn view_args(a: PathArguments) -> ArgsV
    decreases a,
{
    match a {
        PathArguments::NoArgs => ArgsV::NoArgs,
        PathArguments::AngleBracketed { args } => ArgsV::AngleBracketed { args: view_tys(args@) },
        PathArguments::Parenthesized { inputs, output } => ArgsV::Parenthesized {
            inputs: view_tys(inputs@),
            output: match output {
                Some(b) => Some(Box::new(view_ty(*b))),
                None => None,
            },
        },
    }
}

impl View for TypeExpr {
    type V = TyV;

    open spec fn view(&self) -> TyV {
        view_ty(*self)
    }
}

impl View for PathSegment {
    type V = SegV;

    open spec fn view(&self) -> SegV {
        view_seg(*self)
    }
}

impl View for PathArguments {
    type V = ArgsV;

    open spec fn view(&self) -> ArgsV {
        view_args(*self)
    }
}

/// `view_tys` maps `view_ty` over the sequence, element by element.
pub proof fn lemma_view_tys(ts: Seq<TypeExpr>)
    ensures
        view_tys(ts).len() == ts.len(),
        forall|i: int| 0 <= i < ts.len() ==> view_tys(ts)[i] == view_ty(ts[i]),
    decreases ts,
{
    if ts.len() > 0 {
        lemma_view_tys(ts.drop_first());
    }
}

/// A deep copy of the type expressions of `list` from position `i` on.
pub fn duplicate_tys_from(list: &Vec<TypeExpr>, i: usize) -> (r: Vec<TypeExpr>)
    requires
        i <= list@.len(),
    ensures
        view_tys(r@) == view_tys(list@.skip(i as int)),
    decreases *list, list@.len() - i,
{
    if i >= list.len() {
        let r: Vec<TypeExpr> = Vec::new();
        proof {
            assert(list@.skip(i as int) =~= Seq::<TypeExpr>::empty());
        }
        r
    } else {
        let first = list[i].duplicate();
        let mut rest = duplicate_tys_from(list, i + 1);
        let ghost rest0 = rest@;
        rest.insert(0, first);
        proof {
            let s = list@.skip(i as int);
            assert(s[0] == list@[i as int]);
            assert(s.drop_first() =~= list@.skip(i as int + 1));
            assert(rest@ =~= seq![first] + rest0);
            lemma_view_tys(rest@);
            lemma_view_tys(rest0);
            assert(view_tys(rest@) =~= seq![view_ty(first)] + view_tys(rest0));
        }
        rest
    }
}

impl TypeExpr {
    /// A deep copy whose model is the same tree.
    pub fn duplicate(&self) -> (r: TypeExpr)
        ensures
            r@ == self@,
        decreases *self, 1int,
    {
        match self {
            TypeExpr::Path { segments } => {
                let segs = duplicate_segs_from(segments, 0);
                proof {
                    assert(segments@.skip(0) =~= segments@);
                }
                TypeExpr::Path { segments: segs }
            },
            TypeExpr::Array { elem, len_tokens } => TypeExpr::Array {
                elem: Box::new(elem.duplicate()),
                len_tokens: len_tokens.clone(),
            },
            TypeExpr::Slice { elem } => TypeExpr::Slice { elem: Box::new(elem.duplicate()) },
            TypeExpr::Reference { elem, is_mutable, lifetime } => TypeExpr::Reference {
                elem: Box::new(elem.duplicate()),
                is_mutable: *is_mutable,
                lifetime: match lifetime {
                    Some(l) => Some(l.clone()),
                    None => None,
                },
            },
            TypeExpr::Unsupported { description } => TypeExpr::Unsupported {
                description: description.clone(),
            },
        }
    }
}

/// A deep copy of the path segments of `list` from position `i` on.
pub fn duplicate_segs_from(list: &Vec<PathSegment>, i: usize) -> (r: Vec<PathSegment>)
    requires
        i <= list@.len(),
    ensures
        view_segs(r@) == view_segs(list@.skip(i as int)),
    decreases *list, list@.len() - i,
{
    if i >= list.len() {
        let r: Vec<PathSegment> = Vec::new();
        proof {
            assert(list@.skip(i as int) =~= Seq::<PathSegment>::empty());
        }
        r
    } else {
        let first = list[i].duplicate();
        let mut rest = duplicate_segs_from(list, i + 1);
        let ghost rest0 = rest@;
        rest.insert(0, first);
        proof {
            let s = list@.skip(i as int);
            assert(s[0] == list@[i as int]);
            assert(s.drop_first() =~= list@.skip(i as int + 1));
            assert(rest@ =~= seq![first] + rest0);
            lemma_view_segs(rest@);
            lemma_view_segs(rest0);
            assert(view_segs(rest@) =~= seq![view_seg(first)] + view_segs(rest0));
        }
        rest
    }
}

impl PathSegment {
    /// A deep copy whose model is the same segment.
    pub fn duplicate(&self) -> (r: PathSegment)
        ensures
            r@ == self@,
        decreases *self, 1int,
    {
        PathSegment { name: self.name.clone(), arguments: self.arguments.duplicate() }
    }
}

impl PathArguments {
    /// A deep copy whose model is the same argument list.
    pub fn duplicate(&self) -> (r: PathArguments)
        ensures
            r@ == self@,
        decreases *self, 1int,
    {
        match self {
            PathArguments::NoArgs => PathArguments::NoArgs,
            PathArguments::AngleBracketed { args } => {
                let a2 = duplicate_tys_from(args, 0);
                proof {
                    assert(args@.skip(0) =~= args@);
                }
                PathArguments::AngleBracketed { args: a2 }
            },
            PathArguments::Parenthesized { inputs, output } => {
                let ins2 = duplicate_tys_from(inputs, 0);
                proof {
                    assert(inputs@.skip(0) =~= inputs@);
                }
                let out2 = match output {
                    Some(b) => Some(Box::new(b.duplicate())),
                    None => None,
                };
                PathArguments::Parenthesized { inputs: ins2, output: out2 }
            },
        }
    }
}

/// `view_segs` maps `view_seg` over the sequence, element by element.
pub proof fn lemma_view_segs(ss: Seq<PathSegment>)
    ensures
        view_segs(ss).len() == ss.len(),
        forall|i: int| 0 <= i < ss.len() ==> view_segs(ss)[i] == view_seg(ss[i]),
    decreases ss,
{
    if ss.len() > 0 {
        lemma_view_segs(ss.drop_first());
    }
}

} // verus!
