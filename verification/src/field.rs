//! The field transformer: applies the rewriting engine to one field's
//! type, using either the field's own directive queue or the
//! declaration-wide automatic-mirroring policy, and reassembles the field.

use vstd::prelude::*;
use crate::ast::{TyV, TypeExpr};
use crate::directive::{Directive, DirectiveQueue};
use crate::error::{ErrV, RewriteError};
use crate::rewrite::{parse_type_to_redefined, spec_rewrite_ty};

verus! {

/// One field of a record or of a union variant, as read from the parsed
/// declaration. `ident` is absent for positional fields; `visibility`,
/// and every entry of `attributes`, are opaque token text carried through
/// verbatim. `directives` holds the field's local directive annotation,
/// already parsed into pairs, or is absent.
#[derive(Debug, PartialEq)]
pub struct FieldDescriptor {
    pub ident: Option<String>,
    pub visibility: String,
    pub attributes: Vec<String>,
    pub directives: Option<Vec<Directive>>,
    pub ty: TypeExpr,
}

/// Ghost model of a field.
pub struct FieldV {
    pub ident: Option<Seq<char>>,
    pub visibility: Seq<char>,
    pub attributes: Seq<Seq<char>>,
    pub directives: Option<Seq<Directive>>,
    pub ty: TyV,
}

impl View for FieldDescriptor {
    type V = FieldV;

    open spec fn view(&self) -> FieldV {
        FieldV {
            ident: match self.ident {
                Some(s) => Some(s@),
                None => None,
            },
            visibility: self.visibility@,
            attributes: self.attributes@.map_values(|a: String| a@),
            directives: match self.directives {
                Some(v) => Some(v@),
                None => None,
            },
            ty: self.ty@,
        }
    }
}

/// What transforming one field returns.
///
/// A field with a local directive queue is rewritten against it, and the
/// queue must come back empty — leftovers are the fatal count mismatch. A
/// field without one is rewritten under automatic mirroring when
/// `is_remote` holds, and is otherwise left untouched. The rebuilt field
/// keeps its identifier, visibility and pass-through attributes, and
/// carries no directive annotation of its own.
pub open spec fn spec_transform_field(f: FieldV, is_remote: bool) -> Result<FieldV, ErrV> {
    match f.directives {
        Some(ds) => match spec_rewrite_ty(f.ty, ds, false) {
            Ok(p) => if p.1.len() == 0 {
                Ok(
                    FieldV {
                        ident: f.ident,
                        visibility: f.visibility,
                        attributes: f.attributes,
                        directives: None,
                        ty: p.0,
                    },
                )
            } else {
                Err(ErrV::DirectiveCountMismatch { leftover: p.1 })
            },
            Err(e) => Err(e),
        },
        None => if is_remote {
            match spec_rewrite_ty(f.ty, Seq::empty(), true) {
                Ok(p) => Ok(
                    FieldV {
                        ident: f.ident,
                        visibility: f.visibility,
                        attributes: f.attributes,
                        directives: None,
                        ty: p.0,
                    },
                ),
                Err(e) => Err(e),
            }
        } else {
            Ok(
                FieldV {
                    ident: f.ident,
                    visibility: f.visibility,
                    attributes: f.attributes,
                    directives: None,
                    ty: f.ty,
                },
            )
        },
    }
}

pub open spec fn field_result_matches(
    r: Result<FieldDescriptor, RewriteError>,
    s: Result<FieldV, ErrV>,
) -> bool {
    match (r, s) {
        (Ok(f), Ok(fv)) => f@ == fv,
        (Err(e), Err(ev)) => e@ == ev,
        _ => false,
    }
}

/// An exact copy of a string list.
pub fn duplicate_strings(v: &Vec<String>) -> (r: Vec<String>)
    ensures
        r@ == v@,
{
    let mut out: Vec<String> = Vec::new();
    let mut idx: usize = 0;
    while idx < v.len()
        invariant
            idx <= v@.len(),
            out@ == v@.subrange(0, idx as int),
        decreases v@.len() - idx,
    {
        out.push(v[idx].clone());
        idx = idx + 1;
        proof {
            assert(out@ =~= v@.subrange(0, idx as int));
        }
    }
    proof {
        assert(v@.subrange(0, v@.len() as int) =~= v@);
    }
    out
}

/// An exact copy of a directive list.
pub fn duplicate_directives(v: &Vec<Directive>) -> (r: Vec<Directive>)
    ensures
        r@ == v@,
{
    let mut out: Vec<Directive> = Vec::new();
    let mut idx: usize = 0;
    while idx < v.len()
        invariant
            idx <= v@.len(),
            out@ == v@.subrange(0, idx as int),
        decreases v@.len() - idx,
    {
        out.push(v[idx].duplicate());
        idx = idx + 1;
        proof {
            assert(out@ =~= v@.subrange(0, idx as int));
        }
    }
    proof {
        assert(v@.subrange(0, v@.len() as int) =~= v@);
    }
    out
}

/// An exact copy of an optional identifier.
pub fn clone_opt_string(o: &Option<String>) -> (r: Option<String>)
    ensures
        r == *o,
{
    match o {
        Some(s) => Some(s.clone()),
        None => None,
    }
}

/// Transform one field per `spec_transform_field`: rewrite its type
/// against its own directives (which must be fully consumed), or under
/// automatic mirroring when `is_remote` holds, or carry it through
/// unchanged; identifier, visibility and pass-through attributes are kept
/// verbatim.
pub fn parse_field(field: &FieldDescriptor, is_remote: bool) -> (r: Result<
    FieldDescriptor,
    RewriteError,
>)
    ensures
        field_result_matches(r, spec_transform_field(field@, is_remote)),
{
    match &field.directives {
        Some(dirs) => {
            let mut queue = DirectiveQueue::from_entries(duplicate_directives(dirs));
            match parse_type_to_redefined(&field.ty, &mut queue, false) {
                Ok(ty2) => {
                    if queue.is_empty() {
                        Ok(
                            FieldDescriptor {
                                ident: clone_opt_string(&field.ident),
                                visibility: field.visibility.clone(),
                                attributes: duplicate_strings(&field.attributes),
                                directives: None,
                                ty: ty2,
                            },
                        )
                    } else {
                        Err(
                            RewriteError::DirectiveCountMismatch {
                                leftover: queue.into_entries(),
                            },
                        )
                    }
                },
                Err(e) => Err(e),
            }
        },
        None => {
            if is_remote {
                let mut queue = DirectiveQueue::empty();
                match parse_type_to_redefined(&field.ty, &mut queue, true) {
                    Ok(ty2) => Ok(
                        FieldDescriptor {
                            ident: clone_opt_string(&field.ident),
                            visibility: field.visibility.clone(),
                            attributes: duplicate_strings(&field.attributes),
                            directives: None,
                            ty: ty2,
                        },
                    ),
                    Err(e) => Err(e),
                }
            } else {
                Ok(
                    FieldDescriptor {
                        ident: clone_opt_string(&field.ident),
                        visibility: field.visibility.clone(),
                        attributes: duplicate_strings(&field.attributes),
                        directives: None,
                        ty: field.ty.duplicate(),
                    },
                )
            }
        },
    }
}

} // verus!
