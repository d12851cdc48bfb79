//! The record and tagged-union assemblers: transform every field of a
//! parsed declaration, in declaration order, and reassemble a mirror
//! declaration with the same generics, visibility and pass-through
//! attributes, wired back to the original by the `mirrors` linkage.

use vstd::prelude::*;
use crate::error::{ErrV, RewriteError};
use crate::field::{
    FieldDescriptor,
    FieldV,
    clone_opt_string,
    duplicate_strings,
    field_result_matches,
    parse_field,
    spec_transform_field,
};

verus! {

/// The field shape of a record declaration.
#[derive(Debug, PartialEq)]
pub enum RecordFields {
    /// `struct S { a: T, ... }`
    Named { fields: Vec<FieldDescriptor> },
    /// `struct S(T, ...);`
    Unnamed { fields: Vec<FieldDescriptor> },
}

/// A parsed record declaration handed to the assembler.
#[derive(Debug, PartialEq)]
pub struct RecordDescriptor {
    pub name: String,
    pub visibility: String,
    pub generics: String,
    pub attributes: Vec<String>,
    pub fields: RecordFields,
}

/// The synthesized mirror record: the original's shape, generics,
/// visibility and pass-through attributes, with every field's type
/// rewritten; `mirrors` records which original declaration it parallels.
#[derive(Debug, PartialEq)]
pub struct MirrorRecord {
    pub name: String,
    pub mirrors: String,
    pub visibility: String,
    pub generics: String,
    pub attributes: Vec<String>,
    pub fields: RecordFields,
}

/// The field shape of one union variant.
#[derive(Debug, PartialEq)]
pub enum VariantFields {
    Named { fields: Vec<FieldDescriptor> },
    Unnamed { fields: Vec<FieldDescriptor> },
    Unit,
}

/// One variant of a tagged-union declaration. A discriminant expression,
/// when present, is opaque token text copied through verbatim.
#[derive(Debug, PartialEq)]
pub struct VariantDescriptor {
    pub name: String,
    pub attributes: Vec<String>,
    pub discriminant: Option<String>,
    pub fields: VariantFields,
}

/// A parsed tagged-union declaration handed to the assembler.
#[derive(Debug, PartialEq)]
pub struct EnumDescriptor {
    pub name: String,
    pub visibility: String,
    pub generics: String,
    pub attributes: Vec<String>,
    pub variants: Vec<VariantDescriptor>,
}

/// The synthesized mirror union.
#[derive(Debug, PartialEq)]
pub struct MirrorEnum {
    pub name: String,
    pub mirrors: String,
    pub visibility: String,
    pub generics: String,
    pub attributes: Vec<String>,
    pub variants: Vec<VariantDescriptor>,
}

/// Ghost models.
pub enum RecordFieldsV {
    Named { fields: Seq<FieldV> },
    Unnamed { fields: Seq<FieldV> },
}

pub struct RecordV {
    pub name: Seq<char>,
    pub visibility: Seq<char>,
    pub generics: Seq<char>,
    pub attributes: Seq<Seq<char>>,
    pub fields: RecordFieldsV,
}

pub struct MirrorRecordV {
    pub name: Seq<char>,
    pub mirrors: Seq<char>,
    pub visibility: Seq<char>,
    pub generics: Seq<char>,
    pub attributes: Seq<Seq<char>>,
    pub fields: RecordFieldsV,
}

pub enum VariantFieldsV {
    Named { fields: Seq<FieldV> },
    Unnamed { fields: Seq<FieldV> },
    Unit,
}

pub struct VariantV {
    pub name: Seq<char>,
    pub attributes: Seq<Seq<char>>,
    pub discriminant: Option<Seq<char>>,
    pub fields: VariantFieldsV,
}

pub struct EnumV {
    pub name: Seq<char>,
    pub visibility: Seq<char>,
    pub generics: Seq<char>,
    pub attributes: Seq<Seq<char>>,
    pub variants: Seq<VariantV>,
}

pub struct MirrorEnumV {
    pub name: Seq<char>,
    pub mirrors: Seq<char>,
    pub visibility: Seq<char>,
    pub generics: Seq<char>,
    pub attributes: Seq<Seq<char>>,
    pub variants: Seq<VariantV>,
}

pub open spec fn view_fields(s: Seq<FieldDescriptor>) -> Seq<FieldV> {
    s.map_values(|f: FieldDescriptor| f@)
}

pub open spec fn view_attrs(s: Seq<String>) -> Seq<Seq<char>> {
    s.map_values(|a: String| a@)
}

impl View for RecordFields {
    type V = RecordFieldsV;

    open spec fn view(&self) -> RecordFieldsV {
        match self {
            RecordFields::Named { fields } => RecordFieldsV::Named {
                fields: view_fields(fields@),
            },
            RecordFields::Unnamed { fields } => RecordFieldsV::Unnamed {
                fields: view_fields(fields@),
            },
        }
    }
}

impl View for RecordDescriptor {
    type V = RecordV;

    open spec fn view(&self) -> RecordV {
        RecordV {
            name: self.name@,
            visibility: self.visibility@,
            generics: self.generics@,
            attributes: view_attrs(self.attributes@),
            fields: self.fields@,
        }
    }
}

impl View for MirrorRecord {
    type V = MirrorRecordV;

    open spec fn view(&self) -> MirrorRecordV {
        MirrorRecordV {
            name: self.name@,
            mirrors: self.mirrors@,
            visibility: self.visibility@,
            generics: self.generics@,
            attributes: view_attrs(self.attributes@),
            fields: self.fields@,
        }
    }
}

impl View for VariantFields {
    type V = VariantFieldsV;

    open spec fn view(&self) -> VariantFieldsV {
        match self {
            VariantFields::Named { fields } => VariantFieldsV::Named {
                fields: view_fields(fields@),
            },
            VariantFields::Unnamed { fields } => VariantFieldsV::Unnamed {
                fields: view_fields(fields@),
            },
            VariantFields::Unit => VariantFieldsV::Unit,
        }
    }
}

impl View for VariantDescriptor {
    type V = VariantV;

    open spec fn view(&self) -> VariantV {
        VariantV {
            name: self.name@,
            attributes: view_attrs(self.attributes@),
            discriminant: match self.discriminant {
                Some(d) => Some(d@),
                None => None,
            },
            fields: self.fields@,
        }
    }
}

impl View for EnumDescriptor {
    type V = EnumV;

    open spec fn view(&self) -> EnumV {
        EnumV {
            name: self.name@,
            visibility: self.visibility@,
            generics: self.generics@,
            attributes: view_attrs(self.attributes@),
            variants: self.variants@.map_values(|v: VariantDescriptor| v@),
        }
    }
}

impl View for MirrorEnum {
    type V = MirrorEnumV;

    open spec fn view(&self) -> MirrorEnumV {
        MirrorEnumV {
            name: self.name@,
            mirrors: self.mirrors@,
            visibility: self.visibility@,
            generics: self.generics@,
            attributes: view_attrs(self.attributes@),
            variants: self.variants@.map_values(|v: VariantDescriptor| v@),
        }
    }
}

/// Transform the fields from position `i` on, in declaration order; the
/// first fatal error aborts the whole declaration.
pub open spec fn spec_transform_fields_from(fs: Seq<FieldV>, i: int, is_remote: bool) -> Result<
    Seq<FieldV>,
    ErrV,
>
    decreases fs.len() - i,
{
    if i < 0 || i >= fs.len() {
        Ok(Seq::empty())
    } else {
        match spec_transform_field(fs[i], is_remote) {
            Ok(f2) => match spec_transform_fields_from(fs, i + 1, is_remote) {
                Ok(rest) => Ok(seq![f2] + rest),
                Err(e) => Err(e),
            },
            Err(e) => Err(e),
        }
    }
}

/// What assembling a mirror record returns: every field transformed in
/// order under the declaration-wide policy, shape and metadata kept, and
/// the linkage recording the original record's name.
pub open spec fn spec_parse_new_struct(r: RecordV, new_name: Seq<char>, is_remote: bool) -> Result<
    MirrorRecordV,
    ErrV,
> {
    match r.fields {
        RecordFieldsV::Named { fields } => match spec_transform_fields_from(fields, 0, is_remote) {
            Ok(fs2) => Ok(
                MirrorRecordV {
                    name: new_name,
                    mirrors: r.name,
                    visibility: r.visibility,
                    generics: r.generics,
                    attributes: r.attributes,
                    fields: RecordFieldsV::Named { fields: fs2 },
                },
            ),
            Err(e) => Err(e),
        },
        RecordFieldsV::Unnamed { fields } => match spec_transform_fields_from(
            fields,
            0,
            is_remote,
        ) {
            Ok(fs2) => Ok(
                MirrorRecordV {
                    name: new_name,
                    mirrors: r.name,
                    visibility: r.visibility,
                    generics: r.generics,
                    attributes: r.attributes,
                    fields: RecordFieldsV::Unnamed { fields: fs2 },
                },
            ),
            Err(e) => Err(e),
        },
    }
}

/// What transforming one variant returns: fields transformed per shape,
/// name, pass-through attributes and discriminant kept verbatim; a unit
/// variant is reproduced unchanged.
pub open spec fn spec_transform_variant(v: VariantV, is_remote: bool) -> Result<VariantV, ErrV> {
    match v.fields {
        VariantFieldsV::Named { fields } => match spec_transform_fields_from(fields, 0, is_remote) {
            Ok(fs2) => Ok(
                VariantV {
                    name: v.name,
                    attributes: v.attributes,
                    discriminant: v.discriminant,
                    fields: VariantFieldsV::Named { fields: fs2 },
                },
            ),
            Err(e) => Err(e),
        },
        VariantFieldsV::Unnamed { fields } => match spec_transform_fields_from(
            fields,
            0,
            is_remote,
        ) {
            Ok(fs2) => Ok(
                VariantV {
                    name: v.name,
                    attributes: v.attributes,
                    discriminant: v.discriminant,
                    fields: VariantFieldsV::Unnamed { fields: fs2 },
                },
            ),
            Err(e) => Err(e),
        },
        VariantFieldsV::Unit => Ok(v),
    }
}

pub open spec fn spec_transform_variants_from(vs: Seq<VariantV>, i: int, is_remote: bool) -> Result<
    Seq<VariantV>,
    ErrV,
>
    decreases vs.len() - i,
{
    if i < 0 || i >= vs.len() {
        Ok(Seq::empty())
    } else {
        match spec_transform_variant(vs[i], is_remote) {
            Ok(v2) => match spec_transform_variants_from(vs, i + 1, is_remote) {
                Ok(rest) => Ok(seq![v2] + rest),
                Err(e) => Err(e),
            },
            Err(e) => Err(e),
        }
    }
}

/// What assembling a mirror union returns: every variant transformed in
/// order, metadata kept, and the linkage recording the original's name.
pub open spec fn spec_parse_new_enum(e: EnumV, new_name: Seq<char>, is_remote: bool) -> Result<
    MirrorEnumV,
    ErrV,
> {
    match spec_transform_variants_from(e.variants, 0, is_remote) {
        Ok(vs2) => Ok(
            MirrorEnumV {
                name: new_name,
                mirrors: e.name,
                visibility: e.visibility,
                generics: e.generics,
                attributes: e.attributes,
                variants: vs2,
            },
        ),
        Err(e2) => Err(e2),
    }
}

fn transform_fields_from(fields: &Vec<FieldDescriptor>, i: usize, is_remote: bool) -> (r: Result<
    Vec<FieldDescriptor>,
    RewriteError,
>)
    requires
        i <= fields@.len(),
    ensures
        (match (r, spec_transform_fields_from(view_fields(fields@), i as int, is_remote)) {
            (Ok(v), Ok(fs)) => view_fields(v@) == fs,
            (Err(e), Err(ev)) => e@ == ev,
            _ => false,
        }),
    decreases fields@.len() - i,
{
    if i >= fields.len() {
        let r: Vec<FieldDescriptor> = Vec::new();
        proof {
            assert(view_fields(r@) =~= Seq::<FieldV>::empty());
        }
        Ok(r)
    } else {
        match parse_field(&fields[i], is_remote) {
            Ok(f2) => match transform_fields_from(fields, i + 1, is_remote) {
                Ok(rest) => {
                    let ghost rest0 = rest@;
                    let mut out = rest;
                    out.insert(0, f2);
                    proof {
                        assert(out@ =~= seq![f2] + rest0);
                        assert(view_fields(out@) =~= seq![f2@] + view_fields(rest0));
                    }
                    Ok(out)
                },
                Err(e) => Err(e),
            },
            Err(e) => Err(e),
        }
    }
}

/// Assemble the mirror record for `record` under the declaration-wide
/// policy: every field transformed in declaration order (the first fatal
/// error aborts the whole declaration and is returned), shape, generics,
/// visibility and attributes kept, and the linkage naming the original.
pub fn parse_new_struct(record: &RecordDescriptor, new_struct_name: &String, is_remote: bool) -> (r:
    Result<MirrorRecord, RewriteError>)
    ensures
        (match (r, spec_parse_new_struct(record@, new_struct_name@, is_remote)) {
            (Ok(m), Ok(mv)) => m@ == mv,
            (Err(e), Err(ev)) => e@ == ev,
            _ => false,
        }),
{
    let fields2 = match &record.fields {
        RecordFields::Named { fields } => match transform_fields_from(fields, 0, is_remote) {
            Ok(fs2) => RecordFields::Named { fields: fs2 },
            Err(e) => {
                return Err(e);
            },
        },
        RecordFields::Unnamed { fields } => match transform_fields_from(fields, 0, is_remote) {
            Ok(fs2) => RecordFields::Unnamed { fields: fs2 },
            Err(e) => {
                return Err(e);
            },
        },
    };
    Ok(
        MirrorRecord {
            name: new_struct_name.clone(),
            mirrors: record.name.clone(),
            visibility: record.visibility.clone(),
            generics: record.generics.clone(),
            attributes: duplicate_strings(&record.attributes),
            fields: fields2,
        },
    )
}

/// Transform one union variant: its fields per shape, everything else —
/// name, attributes, discriminant — verbatim.
pub fn parse_enum_variant(variant: &VariantDescriptor, is_remote: bool) -> (r: Result<
    VariantDescriptor,
    RewriteError,
>)
    ensures
        (match (r, spec_transform_variant(variant@, is_remote)) {
            (Ok(v), Ok(vv)) => v@ == vv,
            (Err(e), Err(ev)) => e@ == ev,
            _ => false,
        }),
{
    let fields2 = match &variant.fields {
        VariantFields::Named { fields } => match transform_fields_from(fields, 0, is_remote) {
            Ok(fs2) => VariantFields::Named { fields: fs2 },
            Err(e) => {
                return Err(e);
            },
        },
        VariantFields::Unnamed { fields } => match transform_fields_from(fields, 0, is_remote) {
            Ok(fs2) => VariantFields::Unnamed { fields: fs2 },
            Err(e) => {
                return Err(e);
            },
        },
        VariantFields::Unit => VariantFields::Unit,
    };
    Ok(
        VariantDescriptor {
            name: variant.name.clone(),
            attributes: duplicate_strings(&variant.attributes),
            discriminant: clone_opt_string(&variant.discriminant),
            fields: fields2,
        },
    )
}

fn transform_variants_from(variants: &Vec<VariantDescriptor>, i: usize, is_remote: bool) -> (r:
    Result<Vec<VariantDescriptor>, RewriteError>)
    requires
        i <= variants@.len(),
    ensures
        (match (
            r,
            spec_transform_variants_from(
                variants@.map_values(|v: VariantDescriptor| v@),
                i as int,
                is_remote,
            ),
        ) {
            (Ok(v), Ok(vs)) => v@.map_values(|x: VariantDescriptor| x@) == vs,
            (Err(e), Err(ev)) => e@ == ev,
            _ => false,
        }),
    decreases variants@.len() - i,
{
    if i >= variants.len() {
        let r: Vec<VariantDescriptor> = Vec::new();
        proof {
            assert(r@.map_values(|x: VariantDescriptor| x@) =~= Seq::<VariantV>::empty());
        }
        Ok(r)
    } else {
        match parse_enum_variant(&variants[i], is_remote) {
            Ok(v2) => match transform_variants_from(variants, i + 1, is_remote) {
                Ok(rest) => {
                    let ghost rest0 = rest@;
                    let mut out = rest;
                    out.insert(0, v2);
                    proof {
                        assert(out@ =~= seq![v2] + rest0);
                        assert(out@.map_values(|x: VariantDescriptor| x@) =~= seq![v2@]
                            + rest0.map_values(|x: VariantDescriptor| x@));
                    }
                    Ok(out)
                },
                Err(e) => Err(e),
            },
            Err(e) => Err(e),
        }
    }
}

/// Assemble the mirror union for `enum_decl`: every variant transformed
/// in declaration order (the first fatal error aborts the whole
/// declaration), metadata kept, and the linkage naming the original.
pub fn parse_new_enum(enum_decl: &EnumDescriptor, new_enum_name: &String, is_remote: bool) -> (r:
    Result<MirrorEnum, RewriteError>)
    ensures
        (match (r, spec_parse_new_enum(enum_decl@, new_enum_name@, is_remote)) {
            (Ok(m), Ok(mv)) => m@ == mv,
            (Err(e), Err(ev)) => e@ == ev,
            _ => false,
        }),
{
    match transform_variants_from(&enum_decl.variants, 0, is_remote) {
        Ok(vs2) => Ok(
            MirrorEnum {
                name: new_enum_name.clone(),
                mirrors: enum_decl.name.clone(),
                visibility: enum_decl.visibility.clone(),
                generics: enum_decl.generics.clone(),
                attributes: duplicate_strings(&enum_decl.attributes),
                variants: vs2,
            },
        ),
        Err(e) => Err(e),
    }
}

} // verus!
