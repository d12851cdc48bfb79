//! The library's stated laws: what the rewriting engine guarantees,
//! proved once and for all inputs from the ghost functions that the
//! executable functions are verified against.

use vstd::prelude::*;
use crate::ast::{ArgsV, SegV, TyV};
use crate::directive::{
    Directive,
    DirectiveMode,
    spec_find_named,
    spec_remove_matched,
    spec_target_eq,
};
use crate::decl::{VariantFieldsV, VariantV, spec_transform_variant};
use crate::error::ErrV;
use crate::field::{FieldV, spec_transform_field};
use crate::rewrite::{
    mirror_name,
    spec_apply_mode,
    spec_is_primitive,
    spec_rewrite_seg,
    spec_rewrite_segs_from,
    spec_rewrite_ty,
    spec_rewrite_tys_from,
};

verus! {

/// A bare named type, e.g. `Leaf`.
pub open spec fn leaf_ty(name: Seq<char>) -> TyV {
    TyV::Path { segments: seq![SegV { name, arguments: ArgsV::NoArgs }] }
}

/// A one-argument generic type, e.g. `Outer<arg>`.
pub open spec fn wrap_one(name: Seq<char>, arg: TyV) -> TyV {
    TyV::Path {
        segments: seq![
            SegV { name, arguments: ArgsV::AngleBracketed { args: seq![arg] } },
        ],
    }
}

/// A field whose single directive says `same` for its top-level type
/// name comes back with its type exactly as it was.
pub proof fn lemma_same_directive_passthrough(
    f: FieldV,
    d: Directive,
    seg: SegV,
    is_remote: bool,
)
    requires
        d.mode == DirectiveMode::UseSame,
        f.directives == Some(seq![d]),
        (f.ty == TyV::Path { segments: seq![seg] }),
        seg.name == d.source_name@,
    ensures
        (spec_transform_field(f, is_remote) matches Ok(g) && g.ty == f.ty),
{
    let q = seq![d];
    let segs = seq![seg];
    assert(spec_find_named(q, seg.name) == Some(d));
    assert(spec_apply_mode(seg.name, d.mode) == seg.name);
    assert(crate::directive::spec_remove_matched_from(q, 1, d.source_name@, d.mode)
        =~= Seq::<Directive>::empty());
    assert(spec_remove_matched(q, d.source_name@, d.mode) =~= Seq::<Directive>::empty());
    let seg2 = SegV { name: seg.name, arguments: seg.arguments };
    assert(seg2 == seg);
    assert(spec_rewrite_seg(seg, q, false) == Ok::<_, ErrV>((seg, Seq::<Directive>::empty())));
    assert(spec_rewrite_segs_from(segs, 1, Seq::<Directive>::empty(), false) == Ok::<_, ErrV>(
        (Seq::<SegV>::empty(), Seq::<Directive>::empty()),
    ));
    assert(seq![seg] + Seq::<SegV>::empty() =~= segs);
    assert(spec_rewrite_segs_from(segs, 0, q, false) == Ok::<_, ErrV>(
        (segs, Seq::<Directive>::empty()),
    ));
    assert(spec_rewrite_ty(f.ty, q, false) == Ok::<_, ErrV>(
        (f.ty, Seq::<Directive>::empty()),
    ));
}

/// Under automatic mirroring with an exhausted queue, a bare leaf
/// segment off the primitive list gets exactly the fixed suffix
/// appended; one on the list passes through unchanged.
pub proof fn lemma_auto_mirror_leaf(seg: SegV)
    requires
        seg.arguments == ArgsV::NoArgs,
    ensures
        (!spec_is_primitive(seg.name) ==> spec_rewrite_seg(seg, Seq::empty(), true) == Ok::<
            _,
            ErrV,
        >((SegV { name: mirror_name(seg.name), arguments: ArgsV::NoArgs }, Seq::<
            Directive,
        >::empty()))),
        (spec_is_primitive(seg.name) ==> spec_rewrite_seg(seg, Seq::empty(), true) == Ok::<
            _,
            ErrV,
        >((seg, Seq::<Directive>::empty()))),
{
    assert(spec_find_named(Seq::empty(), seg.name) is None);
    if spec_is_primitive(seg.name) {
        assert(SegV { name: seg.name, arguments: ArgsV::NoArgs } == seg);
    }
}

/// For `Outer<Inner<Leaf>>` with one explicit directive for `Leaf`, the
/// substitution lands exactly at the matched leaf; both wrapper names
/// stay, and the queue is drained.
pub proof fn lemma_recursive_substitution(
    outer: Seq<char>,
    inner: Seq<char>,
    leaf: Seq<char>,
    target: Seq<char>,
    d: Directive,
)
    requires
        (d.mode is UseExplicit),
        d.source_name@ == leaf,
        spec_apply_mode(leaf, d.mode) == target,
        outer != leaf,
        inner != leaf,
    ensures
        spec_rewrite_ty(wrap_one(outer, wrap_one(inner, leaf_ty(leaf))), seq![d], false) == Ok::<
            _,
            ErrV,
        >((wrap_one(outer, wrap_one(inner, leaf_ty(target))), Seq::<Directive>::empty())),
{
    let q = seq![d];
    let qe = Seq::<Directive>::empty();
    let leaf_seg = SegV { name: leaf, arguments: ArgsV::NoArgs };
    let target_seg = SegV { name: target, arguments: ArgsV::NoArgs };

    // The leaf: a named match, substituted and removed from the queue.
    assert(spec_find_named(q, leaf) == Some(d));
    assert(crate::directive::spec_remove_matched_from(q, 1, d.source_name@, d.mode) =~= qe);
    assert(spec_remove_matched(q, d.source_name@, d.mode) =~= qe);
    assert(spec_rewrite_seg(leaf_seg, q, false) == Ok::<_, ErrV>((target_seg, qe)));
    assert(spec_rewrite_segs_from(seq![leaf_seg], 1, qe, false) == Ok::<_, ErrV>(
        (Seq::<SegV>::empty(), qe),
    ));
    assert(seq![target_seg] + Seq::<SegV>::empty() =~= seq![target_seg]);
    assert(spec_rewrite_segs_from(seq![leaf_seg], 0, q, false) == Ok::<_, ErrV>(
        (seq![target_seg], qe),
    ));
    assert(spec_rewrite_ty(leaf_ty(leaf), q, false) == Ok::<_, ErrV>((leaf_ty(target), qe)));

    // `Inner<Leaf>`: no named match for `Inner`, so its argument list is
    // rewritten with the same queue.
    lemma_wrap_one_step(inner, leaf_ty(leaf), leaf_ty(target), q, qe, d);
    assert(spec_rewrite_ty(wrap_one(inner, leaf_ty(leaf)), q, false) == Ok::<_, ErrV>(
        (wrap_one(inner, leaf_ty(target)), qe),
    ));

    // `Outer<...>`: the same once more.
    lemma_wrap_one_step(outer, wrap_one(inner, leaf_ty(leaf)), wrap_one(inner, leaf_ty(target)), q, qe, d);
}

/// One wrapper level of `lemma_recursive_substitution`: a generic segment
/// whose name has no named match recurses into its single argument.
proof fn lemma_wrap_one_step(
    name: Seq<char>,
    arg: TyV,
    arg2: TyV,
    q: Seq<Directive>,
    qf: Seq<Directive>,
    d: Directive,
)
    requires
        q == seq![d],
        d.source_name@ != name,
        spec_rewrite_ty(arg, q, false) == Ok::<_, ErrV>((arg2, qf)),
    ensures
        spec_rewrite_ty(wrap_one(name, arg), q, false) == Ok::<_, ErrV>(
            (wrap_one(name, arg2), qf),
        ),
{
    let seg = SegV { name, arguments: ArgsV::AngleBracketed { args: seq![arg] } };
    assert(crate::directive::spec_find_named_from(q, 1, name) is None);
    assert(spec_find_named(q, name) is None);
    assert(spec_rewrite_tys_from(seq![arg], 1, qf, false) == Ok::<_, ErrV>(
        (Seq::<TyV>::empty(), qf),
    ));
    assert(seq![arg2] + Seq::<TyV>::empty() =~= seq![arg2]);
    assert(spec_rewrite_tys_from(seq![arg], 0, q, false) == Ok::<_, ErrV>((seq![arg2], qf)));
    let seg2 = SegV { name, arguments: ArgsV::AngleBracketed { args: seq![arg2] } };
    assert(spec_rewrite_seg(seg, q, false) == Ok::<_, ErrV>((seg2, qf)));
    assert(spec_rewrite_segs_from(seq![seg], 1, qf, false) == Ok::<_, ErrV>(
        (Seq::<SegV>::empty(), qf),
    ));
    assert(seq![seg2] + Seq::<SegV>::empty() =~= seq![seg2]);
    assert(spec_rewrite_segs_from(seq![seg], 0, q, false) == Ok::<_, ErrV>((seq![seg2], qf)));
    assert(wrap_one(name, arg) == TyV::Path { segments: seq![seg] });
    assert(spec_rewrite_ty(wrap_one(name, arg), q, false) == Ok::<_, ErrV>(
        (TyV::Path { segments: seq![seg2] }, qf),
    ));
}

/// Rewriting a reference to a fixed-size array only ever touches the
/// element type; length, mutability and lifetime come out identical, and
/// an element failure is the whole failure.
pub proof fn lemma_wrapper_preservation(
    elem: TyV,
    len_tokens: Seq<char>,
    is_mutable: bool,
    lifetime: Option<Seq<char>>,
    q: Seq<Directive>,
    auto: bool,
)
    ensures
        ({
            let t = TyV::Reference {
                elem: Box::new(TyV::Array { elem: Box::new(elem), len_tokens }),
                is_mutable,
                lifetime,
            };
            match (spec_rewrite_ty(t, q, auto), spec_rewrite_ty(elem, q, auto)) {
                (Ok(p), Ok(pe)) => p.0 == TyV::Reference {
                    elem: Box::new(TyV::Array { elem: Box::new(pe.0), len_tokens }),
                    is_mutable,
                    lifetime,
                } && p.1 == pe.1,
                (Err(e), Err(ee)) => e == ee,
                _ => false,
            }
        }),
{
    let a = TyV::Array { elem: Box::new(elem), len_tokens };
    assert(spec_rewrite_ty(a, q, auto) == (match spec_rewrite_ty(elem, q, auto) {
        Ok(p) => Ok::<_, ErrV>((TyV::Array { elem: Box::new(p.0), len_tokens }, p.1)),
        Err(e) => Err(e),
    }));
}

/// Whenever transforming a field with a local directive queue succeeds,
/// that queue was consumed entirely by the rewrite.
pub proof fn lemma_directive_exhaustion(f: FieldV, is_remote: bool, ds: Seq<Directive>)
    requires
        f.directives == Some(ds),
        (spec_transform_field(f, is_remote) is Ok),
    ensures
        (spec_rewrite_ty(f.ty, ds, false) matches Ok(p) && p.1.len() == 0),
{
}

/// A field offering two directives but only one substitution point
/// fails with the count mismatch, and the diagnostic names exactly the
/// unused directive.
pub proof fn lemma_two_directives_one_point(
    f: FieldV,
    d1: Directive,
    d2: Directive,
    name: Seq<char>,
    is_remote: bool,
)
    requires
        f.ty == leaf_ty(name),
        f.directives == Some(seq![d1, d2]),
        d1.source_name@ == name,
        d2.source_name@ != d1.source_name@,
        !spec_target_eq(d2.mode, d1.mode),
    ensures
        (spec_transform_field(f, is_remote) == Err::<FieldV, ErrV>(
            ErrV::DirectiveCountMismatch { leftover: seq![d2] },
        )),
{
    let q = seq![d1, d2];
    let seg = SegV { name, arguments: ArgsV::NoArgs };
    assert(spec_find_named(q, name) == Some(d1));
    assert(crate::directive::spec_remove_matched_from(q, 2, d1.source_name@, d1.mode)
        =~= Seq::<Directive>::empty());
    assert(crate::directive::spec_remove_matched_from(q, 1, d1.source_name@, d1.mode)
        =~= seq![d2]);
    assert(spec_remove_matched(q, d1.source_name@, d1.mode) =~= seq![d2]);
    assert(spec_rewrite_seg(seg, q, false) matches Ok(p) && p.1 == seq![d2]);
    let qf = seq![d2];
    assert(spec_rewrite_segs_from(seq![seg], 1, qf, false) is Ok);
    assert(spec_rewrite_segs_from(seq![seg], 0, q, false) matches Ok(p) && p.1 == seq![d2]);
    assert(spec_rewrite_ty(f.ty, q, false) matches Ok(p) && p.1 == seq![d2]);
}

/// A field whose type is a shape the rewriter has no rule for fails
/// with exactly that diagnostic whenever the rewriter runs at all — that
/// is, whenever the field carries directives or the declaration is in
/// automatic-mirroring mode.
pub proof fn lemma_unsupported_rejection(f: FieldV, desc: Seq<char>, is_remote: bool)
    requires
        (f.ty == TyV::Unsupported { description: desc }),
        (f.directives is Some || is_remote),
    ensures
        (spec_transform_field(f, is_remote) == Err::<FieldV, ErrV>(
            ErrV::UnsupportedTypeShape { description: desc },
        )),
{
}

/// A unit variant — with or without a discriminant expression — is
/// reproduced unchanged.
pub proof fn lemma_unit_variant_passthrough(v: VariantV, is_remote: bool)
    requires
        (v.fields is Unit),
    ensures
        spec_transform_variant(v, is_remote) == Ok::<VariantV, ErrV>(v),
{
}

/// Whatever shape a variant has, a successful transform keeps its name,
/// its attributes and its discriminant expression verbatim.
pub proof fn lemma_variant_metadata_kept(v: VariantV, is_remote: bool)
    ensures
        (spec_transform_variant(v, is_remote) matches Ok(v2) ==> v2.name == v.name
            && v2.attributes == v.attributes && v2.discriminant == v.discriminant),
{
}

} // verus!
