//! The type-expression rewriting engine.
//!
//! `parse_type_to_redefined` walks a field's type expression and decides,
//! for every leaf path-segment name, whether to substitute it with its
//! mirror name, an explicit replacement, or leave it untouched — consuming
//! the field's directive queue as it goes, and falling back to mirroring
//! every non-primitive leaf when automatic-mirroring mode is active.
//!
//! The ghost functions `spec_rewrite_ty` and companions are the exact
//! mathematical statement of the walk; every executable function here is
//! proved to return precisely what they say.

use vstd::prelude::*;
use vstd::string::StringExecFns;
use crate::ast::{
    ArgsV,
    PathArguments,
    PathSegment,
    SegV,
    TyV,
    TypeExpr,
    lemma_view_segs,
    lemma_view_tys,
    view_segs,
    view_tys,
};
use crate::directive::{
    Directive,
    DirectiveQueue,
    spec_find_named,
    spec_remove_matched,
};
use crate::error::{ErrV, RewriteError};

verus! {

/// The fixed suffix appended to a type name to form its mirror name.
pub open spec fn mirror_suffix() -> Seq<char> {
    "Mirror"@
}

/// The mirror name of `name`: the name with the fixed suffix appended.
pub open spec fn mirror_name(name: Seq<char>) -> Seq<char> {
    name + mirror_suffix()
}

/// The fixed set of primitive and well-known leaf names that automatic
/// mirroring passes through unchanged.
pub open spec fn spec_is_primitive(n: Seq<char>) -> bool {
    ||| n == "u8"@
    ||| n == "u16"@
    ||| n == "u32"@
    ||| n == "u64"@
    ||| n == "u128"@
    ||| n == "usize"@
    ||| n == "i8"@
    ||| n == "i16"@
    ||| n == "i32"@
    ||| n == "i64"@
    ||| n == "i128"@
    ||| n == "isize"@
    ||| n == "f32"@
    ||| n == "f64"@
    ||| n == "bool"@
    ||| n == "char"@
    ||| n == "str"@
    ||| n == "String"@
}

/// The substituted name for a matched segment: its mirror name, itself, or
/// the directive's explicit target.
pub open spec fn spec_apply_mode(name: Seq<char>, mode: crate::directive::DirectiveMode) -> Seq<
    char,
> {
    match mode {
        crate::directive::DirectiveMode::UseMirror => mirror_name(name),
        crate::directive::DirectiveMode::UseSame => name,
        crate::directive::DirectiveMode::UseExplicit { target } => target@,
    }
}

/// What rewriting one type expression returns: the new tree and the
/// remaining queue, or the fatal error.
pub open spec fn spec_rewrite_ty(t: TyV, q: Seq<Directive>, auto: bool) -> Result<
    (TyV, Seq<Directive>),
    ErrV,
>
    decreases t, 0int,
{
    match t {
        TyV::Path { segments } => match spec_rewrite_segs_from(segments, 0, q, auto) {
            Ok(p) => Ok((TyV::Path { segments: p.0 }, p.1)),
            Err(e) => Err(e),
        },
        TyV::Array { elem, len_tokens } => match spec_rewrite_ty(*elem, q, auto) {
            Ok(p) => Ok((TyV::Array { elem: Box::new(p.0), len_tokens }, p.1)),
            Err(e) => Err(e),
        },
        TyV::Slice { elem } => match spec_rewrite_ty(*elem, q, auto) {
            Ok(p) => Ok((TyV::Slice { elem: Box::new(p.0) }, p.1)),
            Err(e) => Err(e),
        },
        TyV::Reference { elem, is_mutable, lifetime } => match spec_rewrite_ty(*elem, q, auto) {
            Ok(p) => Ok((TyV::Reference { elem: Box::new(p.0), is_mutable, lifetime }, p.1)),
            Err(e) => Err(e),
        },
        TyV::Unsupported { description } => Err(ErrV::UnsupportedTypeShape { description }),
    }
}

/// Rewrite the segments of a path from position `i` on, left to right,
/// threading the queue through the sequence.
pub open spec fn spec_rewrite_segs_from(
    segs: Seq<SegV>,
    i: int,
    q: Seq<Directive>,
    auto: bool,
) -> Result<(Seq<SegV>, Seq<Directive>), ErrV>
    decreases segs, segs.len() - i,
{
    if i < 0 || i >= segs.len() {
        Ok((Seq::empty(), q))
    } else {
        match spec_rewrite_seg(segs[i], q, auto) {
            Ok(p) => match spec_rewrite_segs_from(segs, i + 1, p.1, auto) {
                Ok(p2) => Ok((seq![p.0] + p2.0, p2.1)),
                Err(e) => Err(e),
            },
            Err(e) => Err(e),
        }
    }
}

/// Resolve one path segment.
///
/// A named match anywhere in the queue substitutes per its mode and then
/// removes every entry sharing the matched source name or target; an
/// argument-free segment otherwise consumes the front entry positionally,
/// or falls back to automatic mirroring of non-primitives when the queue
/// is empty; a segment with arguments recurses into them instead.
pub open spec fn spec_rewrite_seg(seg: SegV, q: Seq<Directive>, auto: bool) -> Result<
    (SegV, Seq<Directive>),
    ErrV,
>
    decreases seg, 0int,
{
    match spec_find_named(q, seg.name) {
        Some(d) => Ok(
            (
                SegV { name: spec_apply_mode(seg.name, d.mode), arguments: seg.arguments },
                spec_remove_matched(q, d.source_name@, d.mode),
            ),
        ),
        None => match seg.arguments {
            ArgsV::NoArgs => {
                if q.len() > 0 {
                    let d = q[0];
                    let new_name = if d.source_name@ == seg.name {
                        spec_apply_mode(seg.name, d.mode)
                    } else {
                        seg.name
                    };
                    Ok((SegV { name: new_name, arguments: ArgsV::NoArgs }, q.drop_first()))
                } else if auto && !spec_is_primitive(seg.name) {
                    Ok((SegV { name: mirror_name(seg.name), arguments: ArgsV::NoArgs }, q))
                } else {
                    Ok((seg, q))
                }
            },
            _ => match spec_rewrite_args(seg.arguments, q, auto) {
                Ok(p) => Ok((SegV { name: seg.name, arguments: p.0 }, p.1)),
                Err(e) => Err(e),
            },
        },
    }
}

/// Rewrite a segment's argument list. Angle-bracketed and parenthesized
/// input types are rewritten in order; a parenthesized output type is
/// carried through untouched.
pub open spec fn spec_rewrite_args(a: ArgsV, q: Seq<Directive>, auto: bool) -> Result<
    (ArgsV, Seq<Directive>),
    ErrV,
>
    decreases a, 0int,
{
    match a {
        ArgsV::NoArgs => Ok((ArgsV::NoArgs, q)),
        ArgsV::AngleBracketed { args } => match spec_rewrite_tys_from(args, 0, q, auto) {
            Ok(p) => Ok((ArgsV::AngleBracketed { args: p.0 }, p.1)),
            Err(e) => Err(e),
        },
        ArgsV::Parenthesized { inputs, output } => match spec_rewrite_tys_from(inputs, 0, q, auto) {
            Ok(p) => Ok((ArgsV::Parenthesized { inputs: p.0, output }, p.1)),
            Err(e) => Err(e),
        },
    }
}

/// Rewrite a list of type expressions from position `i` on, left to right,
/// threading the queue.
pub open spec fn spec_rewrite_tys_from(
    tys: Seq<TyV>,
    i: int,
    q: Seq<Directive>,
    auto: bool,
) -> Result<(Seq<TyV>, Seq<Directive>), ErrV>
    decreases tys, tys.len() - i,
{
    if i < 0 || i >= tys.len() {
        Ok((Seq::empty(), q))
    } else {
        match spec_rewrite_ty(tys[i], q, auto) {
            Ok(p) => match spec_rewrite_tys_from(tys, i + 1, p.1, auto) {
                Ok(p2) => Ok((seq![p.0] + p2.0, p2.1)),
                Err(e) => Err(e),
            },
            Err(e) => Err(e),
        }
    }
}

/// Whether `name` equals the literal `lit`.
fn string_is(name: &String, lit: &str) -> (r: bool)
    ensures
        r == (name@ == lit@),
{
    let s: String = lit.to_owned();
    *name == s
}

/// Whether `name` is on the fixed primitive list.
pub fn is_simple_primitive(name: &String) -> (r: bool)
    ensures
        r == spec_is_primitive(name@),
{
    string_is(name, "u8") || string_is(name, "u16") || string_is(name, "u32") || string_is(
        name,
        "u64",
    ) || string_is(name, "u128") || string_is(name, "usize") || string_is(name, "i8") || string_is(
        name,
        "i16",
    ) || string_is(name, "i32") || string_is(name, "i64") || string_is(name, "i128") || string_is(
        name,
        "isize",
    ) || string_is(name, "f32") || string_is(name, "f64") || string_is(name, "bool") || string_is(
        name,
        "char",
    ) || string_is(name, "str") || string_is(name, "String")
}

/// `name` with the fixed mirror suffix appended.
pub fn append_mirror_suffix(name: &String) -> (r: String)
    ensures
        r@ == mirror_name(name@),
{
    let mut s = name.clone();
    s.append("Mirror");
    s
}

/// The substituted name for a matched segment, per the directive's mode.
fn apply_mode(name: &String, mode: &crate::directive::DirectiveMode) -> (r: String)
    ensures
        r@ == spec_apply_mode(name@, *mode),
{
    match mode {
        crate::directive::DirectiveMode::UseMirror => append_mirror_suffix(name),
        crate::directive::DirectiveMode::UseSame => name.clone(),
        crate::directive::DirectiveMode::UseExplicit { target } => target.clone(),
    }
}

/// How an executable rewrite result must relate to the ghost one: same
/// success or failure, same tree (by model), and — on success — the queue
/// left exactly as the ghost walk leaves it.
pub open spec fn ty_result_matches(
    r: Result<TypeExpr, RewriteError>,
    s: Result<(TyV, Seq<Directive>), ErrV>,
    qf: Seq<Directive>,
) -> bool {
    match (r, s) {
        (Ok(t), Ok(p)) => t@ == p.0 && qf == p.1,
        (Err(e), Err(ev)) => e@ == ev,
        _ => false,
    }
}

pub open spec fn segs_result_matches(
    r: Result<Vec<PathSegment>, RewriteError>,
    s: Result<(Seq<SegV>, Seq<Directive>), ErrV>,
    qf: Seq<Directive>,
) -> bool {
    match (r, s) {
        (Ok(v), Ok(p)) => view_segs(v@) == p.0 && qf == p.1,
        (Err(e), Err(ev)) => e@ == ev,
        _ => false,
    }
}

pub open spec fn seg_result_matches(
    r: Result<PathSegment, RewriteError>,
    s: Result<(SegV, Seq<Directive>), ErrV>,
    qf: Seq<Directive>,
) -> bool {
    match (r, s) {
        (Ok(g), Ok(p)) => g@ == p.0 && qf == p.1,
        (Err(e), Err(ev)) => e@ == ev,
        _ => false,
    }
}

pub open spec fn args_result_matches(
    r: Result<PathArguments, RewriteError>,
    s: Result<(ArgsV, Seq<Directive>), ErrV>,
    qf: Seq<Directive>,
) -> bool {
    match (r, s) {
        (Ok(a), Ok(p)) => a@ == p.0 && qf == p.1,
        (Err(e), Err(ev)) => e@ == ev,
        _ => false,
    }
}

pub open spec fn tys_result_matches(
    r: Result<Vec<TypeExpr>, RewriteError>,
    s: Result<(Seq<TyV>, Seq<Directive>), ErrV>,
    qf: Seq<Directive>,
) -> bool {
    match (r, s) {
        (Ok(v), Ok(p)) => view_tys(v@) == p.0 && qf == p.1,
        (Err(e), Err(ev)) => e@ == ev,
        _ => false,
    }
}

/// Rewrite one type expression, consuming directives from `new_type_names`
/// as substitution points are found; with `is_remote`, mirror every
/// non-primitive leaf once the queue is exhausted.
///
/// Returns exactly what `spec_rewrite_ty` says: the rewritten tree on
/// success (with the queue reduced accordingly), or the fatal error on an
/// unsupported shape.
pub fn parse_type_to_redefined(
    src_type: &TypeExpr,
    new_type_names: &mut DirectiveQueue,
    is_remote: bool,
) -> (r: Result<TypeExpr, RewriteError>)
    ensures
        ty_result_matches(
            r,
            spec_rewrite_ty(src_type@, old(new_type_names)@, is_remote),
            final(new_type_names)@,
        ),
    decreases *src_type, 1int,
{
    match src_type {
        TypeExpr::Path { segments } => match rewrite_segs_from(
            segments,
            0,
            new_type_names,
            is_remote,
        ) {
            Ok(segs2) => Ok(TypeExpr::Path { segments: segs2 }),
            Err(e) => Err(e),
        },
        TypeExpr::Array { elem, len_tokens } => match parse_type_to_redefined(
            &**elem,
            new_type_names,
            is_remote,
        ) {
            Ok(e2) => Ok(TypeExpr::Array { elem: Box::new(e2), len_tokens: len_tokens.clone() }),
            Err(e) => Err(e),
        },
        TypeExpr::Slice { elem } => match parse_type_to_redefined(
            &**elem,
            new_type_names,
            is_remote,
        ) {
            Ok(e2) => Ok(TypeExpr::Slice { elem: Box::new(e2) }),
            Err(e) => Err(e),
        },
        TypeExpr::Reference { elem, is_mutable, lifetime } => match parse_type_to_redefined(
            &**elem,
            new_type_names,
            is_remote,
        ) {
            Ok(e2) => Ok(
                TypeExpr::Reference {
                    elem: Box::new(e2),
                    is_mutable: *is_mutable,
                    lifetime: match lifetime {
                        Some(l) => Some(l.clone()),
                        None => None,
                    },
                },
            ),
            Err(e) => Err(e),
        },
        TypeExpr::Unsupported { description } => Err(
            RewriteError::UnsupportedTypeShape { description: description.clone() },
        ),
    }
}

fn rewrite_segs_from(
    segs: &Vec<PathSegment>,
    i: usize,
    q: &mut DirectiveQueue,
    auto: bool,
) -> (r: Result<Vec<PathSegment>, RewriteError>)
    requires
        i <= segs@.len(),
    ensures
        segs_result_matches(
            r,
            spec_rewrite_segs_from(view_segs(segs@), i as int, old(q)@, auto),
            final(q)@,
        ),
    decreases *segs, segs@.len() - i,
{
    proof {
        lemma_view_segs(segs@);
    }
    if i >= segs.len() {
        Ok(Vec::new())
    } else {
        match rewrite_seg(&segs[i], q, auto) {
            Ok(s2) => match rewrite_segs_from(segs, i + 1, q, auto) {
                Ok(rest) => {
                    let ghost rest0 = rest@;
                    let mut out = rest;
                    out.insert(0, s2);
                    proof {
                        assert(out@ =~= seq![s2] + rest0);
                        lemma_view_segs(out@);
                        lemma_view_segs(rest0);
                        assert(view_segs(out@) =~= seq![s2@] + view_segs(rest0));
                    }
                    Ok(out)
                },
                Err(e) => Err(e),
            },
            Err(e) => Err(e),
        }
    }
}

fn rewrite_seg(seg: &PathSegment, q: &mut DirectiveQueue, auto: bool) -> (r: Result<
    PathSegment,
    RewriteError,
>)
    ensures
        seg_result_matches(r, spec_rewrite_seg(seg@, old(q)@, auto), final(q)@),
    decreases *seg, 1int,
{
    let found = q.find_named(&seg.name);
    match found {
        Some(d) => {
            let new_name = apply_mode(&seg.name, &d.mode);
            q.remove_matched(&d.source_name, &d.mode);
            Ok(PathSegment { name: new_name, arguments: seg.arguments.duplicate() })
        },
        None => match &seg.arguments {
            PathArguments::NoArgs => {
                if q.len() > 0 {
                    let d = q.pop_front();
                    let new_name = if d.source_name == seg.name {
                        apply_mode(&seg.name, &d.mode)
                    } else {
                        seg.name.clone()
                    };
                    Ok(PathSegment { name: new_name, arguments: PathArguments::NoArgs })
                } else if auto && !is_simple_primitive(&seg.name) {
                    Ok(
                        PathSegment {
                            name: append_mirror_suffix(&seg.name),
                            arguments: PathArguments::NoArgs,
                        },
                    )
                } else {
                    Ok(PathSegment { name: seg.name.clone(), arguments: PathArguments::NoArgs })
                }
            },
            _ => match rewrite_args(&seg.arguments, q, auto) {
                Ok(a2) => Ok(PathSegment { name: seg.name.clone(), arguments: a2 }),
                Err(e) => Err(e),
            },
        },
    }
}

fn rewrite_args(args: &PathArguments, q: &mut DirectiveQueue, auto: bool) -> (r: Result<
    PathArguments,
    RewriteError,
>)
    ensures
        args_result_matches(r, spec_rewrite_args(args@, old(q)@, auto), final(q)@),
    decreases *args, 1int,
{
    match args {
        PathArguments::NoArgs => Ok(PathArguments::NoArgs),
        PathArguments::AngleBracketed { args: list } => match rewrite_tys_from(list, 0, q, auto) {
            Ok(l2) => Ok(PathArguments::AngleBracketed { args: l2 }),
            Err(e) => Err(e),
        },
        PathArguments::Parenthesized { inputs, output } => match rewrite_tys_from(
            inputs,
            0,
            q,
            auto,
        ) {
            Ok(ins2) => {
                let out2 = match output {
                    Some(b) => Some(Box::new(b.duplicate())),
                    None => None,
                };
                Ok(PathArguments::Parenthesized { inputs: ins2, output: out2 })
            },
            Err(e) => Err(e),
        },
    }
}

fn rewrite_tys_from(list: &Vec<TypeExpr>, i: usize, q: &mut DirectiveQueue, auto: bool) -> (r:
    Result<Vec<TypeExpr>, RewriteError>)
    requires
        i <= list@.len(),
    ensures
        tys_result_matches(
            r,
            spec_rewrite_tys_from(view_tys(list@), i as int, old(q)@, auto),
            final(q)@,
        ),
    decreases *list, list@.len() - i,
{
    proof {
        lemma_view_tys(list@);
    }
    if i >= list.len() {
        Ok(Vec::new())
    } else {
        match parse_type_to_redefined(&list[i], q, auto) {
            Ok(t2) => match rewrite_tys_from(list, i + 1, q, auto) {
                Ok(rest) => {
                    let ghost rest0 = rest@;
                    let mut out = rest;
                    out.insert(0, t2);
                    proof {
                        assert(out@ =~= seq![t2] + rest0);
                        lemma_view_tys(out@);
                        lemma_view_tys(rest0);
                        assert(view_tys(out@) =~= seq![t2@] + view_tys(rest0));
                    }
                    Ok(out)
                },
                Err(e) => Err(e),
            },
            Err(e) => Err(e),
        }
    }
}

} // verus!
