use mirrorgen::ast::{PathArguments, PathSegment, TypeExpr};
use mirrorgen::decl::{
    EnumDescriptor, MirrorRecord, RecordDescriptor, RecordFields, VariantDescriptor, VariantFields,
    parse_enum_variant, parse_new_enum, parse_new_struct,
};
use mirrorgen::directive::{Directive, DirectiveMode, DirectiveQueue};
use mirrorgen::error::RewriteError;
use mirrorgen::field::{FieldDescriptor, parse_field};
use mirrorgen::rewrite::{append_mirror_suffix, is_simple_primitive, parse_type_to_redefined};

fn leaf(name: &str) -> TypeExpr {
    TypeExpr::Path {
        segments: vec![PathSegment { name: name.to_string(), arguments: PathArguments::NoArgs }],
    }
}

fn generic(name: &str, args: Vec<TypeExpr>) -> TypeExpr {
    TypeExpr::Path {
        segments: vec![PathSegment {
            name: name.to_string(),
            arguments: PathArguments::AngleBracketed { args },
        }],
    }
}

fn dir(source: &str, mode: DirectiveMode) -> Directive {
    Directive { source_name: source.to_string(), mode }
}

fn field_with(ty: TypeExpr, directives: Option<Vec<Directive>>) -> FieldDescriptor {
    FieldDescriptor {
        ident: Some("value".to_string()),
        visibility: "pub".to_string(),
        attributes: vec!["#[doc = \"kept\"]".to_string()],
        directives,
        ty,
    }
}

#[test]
fn auto_mirror_wraps_nonprimitive() {
    // `Vec<MyType>` under automatic mirroring: the wrapper stays, the
    // non-primitive leaf gains the suffix.
    let ty = generic("Vec", vec![leaf("MyType")]);
    let mut q = DirectiveQueue::empty();
    let out = parse_type_to_redefined(&ty, &mut q, true).unwrap();
    assert_eq!(out, generic("Vec", vec![leaf("MyTypeMirror")]));
}

#[test]
fn auto_mirror_passes_primitive() {
    let ty = generic("Vec", vec![leaf("u64")]);
    let mut q = DirectiveQueue::empty();
    let out = parse_type_to_redefined(&ty, &mut q, true).unwrap();
    assert_eq!(out, generic("Vec", vec![leaf("u64")]));
}

#[test]
fn mirror_suffix_is_exact() {
    let name = "Account".to_string();
    assert_eq!(append_mirror_suffix(&name), "AccountMirror".to_string());
}

#[test]
fn primitive_list_exact_members() {
    for p in [
        "u8", "u16", "u32", "u64", "u128", "usize", "i8", "i16", "i32", "i64", "i128", "isize",
        "f32", "f64", "bool", "char", "str", "String",
    ] {
        assert!(is_simple_primitive(&p.to_string()));
    }
    assert!(!is_simple_primitive(&"Vec".to_string()));
    assert!(!is_simple_primitive(&"MyType".to_string()));
}

#[test]
fn same_directive_is_passthrough() {
    // A field whose single directive says `same` for its top-level type
    // name yields a type identical to the input.
    let f = field_with(leaf("MyType"), Some(vec![dir("MyType", DirectiveMode::UseSame)]));
    let out = parse_field(&f, false).unwrap();
    assert_eq!(out.ty, leaf("MyType"));
    assert_eq!(out.ident, Some("value".to_string()));
    assert_eq!(out.attributes, vec!["#[doc = \"kept\"]".to_string()]);
    assert_eq!(out.directives, None);
}

#[test]
fn explicit_directive_rewrites_nested_leaf() {
    // `Outer<Inner<Leaf>>` with one explicit directive for `Leaf` becomes
    // `Outer<Inner<Target>>`.
    let ty = generic("Outer", vec![generic("Inner", vec![leaf("Leaf")])]);
    let mut q = DirectiveQueue::from_entries(vec![dir(
        "Leaf",
        DirectiveMode::UseExplicit { target: "Target".to_string() },
    )]);
    let out = parse_type_to_redefined(&ty, &mut q, false).unwrap();
    assert_eq!(out, generic("Outer", vec![generic("Inner", vec![leaf("Target")])]));
    assert!(q.is_empty());
}

#[test]
fn wrapper_metadata_is_preserved() {
    // `&'a [T; 4]`: only `T` changes; length, mutability and lifetime are
    // identical in the output.
    let ty = TypeExpr::Reference {
        elem: Box::new(TypeExpr::Array {
            elem: Box::new(leaf("T")),
            len_tokens: "4".to_string(),
        }),
        is_mutable: false,
        lifetime: Some("'a".to_string()),
    };
    let mut q = DirectiveQueue::from_entries(vec![dir("T", DirectiveMode::UseMirror)]);
    let out = parse_type_to_redefined(&ty, &mut q, false).unwrap();
    assert_eq!(
        out,
        TypeExpr::Reference {
            elem: Box::new(TypeExpr::Array {
                elem: Box::new(leaf("TMirror")),
                len_tokens: "4".to_string(),
            }),
            is_mutable: false,
            lifetime: Some("'a".to_string()),
        }
    );
    assert!(q.is_empty());
}

#[test]
fn slice_wrapper_is_preserved() {
    let ty = TypeExpr::Slice { elem: Box::new(leaf("Item")) };
    let mut q = DirectiveQueue::empty();
    let out = parse_type_to_redefined(&ty, &mut q, true).unwrap();
    assert_eq!(out, TypeExpr::Slice { elem: Box::new(leaf("ItemMirror")) });
}

#[test]
fn two_directives_one_point_is_count_mismatch() {
    // Two directives but a single substitution point: the fatal count
    // mismatch, naming exactly the unused directive.
    let f = field_with(
        leaf("MyType"),
        Some(vec![
            dir("MyType", DirectiveMode::UseMirror),
            dir("Other", DirectiveMode::UseExplicit { target: "X".to_string() }),
        ]),
    );
    let err = parse_field(&f, false).unwrap_err();
    assert_eq!(
        err,
        RewriteError::DirectiveCountMismatch {
            leftover: vec![dir("Other", DirectiveMode::UseExplicit { target: "X".to_string() })],
        }
    );
}

#[test]
fn raw_pointer_is_rejected() {
    let f = field_with(
        TypeExpr::Unsupported { description: "*const u8".to_string() },
        Some(vec![]),
    );
    let err = parse_field(&f, false).unwrap_err();
    assert_eq!(err, RewriteError::UnsupportedTypeShape { description: "*const u8".to_string() });
}

#[test]
fn function_pointer_is_rejected_under_auto_mode() {
    let f = field_with(TypeExpr::Unsupported { description: "fn(u8) -> u8".to_string() }, None);
    let err = parse_field(&f, true).unwrap_err();
    assert_eq!(
        err,
        RewriteError::UnsupportedTypeShape { description: "fn(u8) -> u8".to_string() }
    );
}

#[test]
fn unsupported_without_rewrite_passes_through() {
    // Without directives and outside automatic mode the rewriter never
    // runs, so even an unsupported shape is carried through.
    let f = field_with(TypeExpr::Unsupported { description: "*const u8".to_string() }, None);
    let out = parse_field(&f, false).unwrap();
    assert_eq!(out.ty, TypeExpr::Unsupported { description: "*const u8".to_string() });
}

#[test]
fn named_match_applies_mirror_mode() {
    let f = field_with(leaf("Inner"), Some(vec![dir("Inner", DirectiveMode::UseMirror)]));
    let out = parse_field(&f, false).unwrap();
    assert_eq!(out.ty, leaf("InnerMirror"));
}

#[test]
fn positional_directive_mismatch_is_discarded() {
    // The front entry is consumed even when its name does not match; the
    // segment stays unchanged and the queue still drains.
    let f = field_with(leaf("Inner"), Some(vec![dir("Other", DirectiveMode::UseMirror)]));
    let out = parse_field(&f, false).unwrap();
    assert_eq!(out.ty, leaf("Inner"));
}

#[test]
fn same_directive_on_bare_leaf_keeps_name() {
    let f = field_with(leaf("Keep"), Some(vec![dir("Keep", DirectiveMode::UseSame)]));
    let out = parse_field(&f, false).unwrap();
    assert_eq!(out.ty, leaf("Keep"));
}

#[test]
fn named_match_on_generic_segment_skips_arguments() {
    // A named match renames the segment itself and leaves its arguments
    // untouched.
    let ty = generic("Outer", vec![leaf("Leaf")]);
    let mut q = DirectiveQueue::from_entries(vec![dir(
        "Outer",
        DirectiveMode::UseExplicit { target: "Replaced".to_string() },
    )]);
    let out = parse_type_to_redefined(&ty, &mut q, false).unwrap();
    assert_eq!(out, generic("Replaced", vec![leaf("Leaf")]));
    assert!(q.is_empty());
}

#[test]
fn match_removes_entries_sharing_source_or_target() {
    // After `A` matches its mirror directive, the entry for `B` with the
    // same (mirror) target is removed as well; `B` then passes through.
    let ty = generic("Wrapper", vec![leaf("A"), leaf("B")]);
    let mut q = DirectiveQueue::from_entries(vec![
        dir("A", DirectiveMode::UseMirror),
        dir("B", DirectiveMode::UseMirror),
    ]);
    let out = parse_type_to_redefined(&ty, &mut q, false).unwrap();
    assert_eq!(out, generic("Wrapper", vec![leaf("AMirror"), leaf("B")]));
    assert!(q.is_empty());
}

#[test]
fn parenthesized_output_is_not_rewritten() {
    // Function-trait-like arguments: inputs are rewritten, the output
    // type is carried through untouched.
    let ty = TypeExpr::Path {
        segments: vec![PathSegment {
            name: "Handler".to_string(),
            arguments: PathArguments::Parenthesized {
                inputs: vec![leaf("In")],
                output: Some(Box::new(leaf("Out"))),
            },
        }],
    };
    let mut q = DirectiveQueue::empty();
    let out = parse_type_to_redefined(&ty, &mut q, true).unwrap();
    assert_eq!(
        out,
        TypeExpr::Path {
            segments: vec![PathSegment {
                name: "Handler".to_string(),
                arguments: PathArguments::Parenthesized {
                    inputs: vec![leaf("InMirror")],
                    output: Some(Box::new(leaf("Out"))),
                },
            }],
        }
    );
}

#[test]
fn queue_operations_keep_order() {
    let mut q = DirectiveQueue::from_entries(vec![
        dir("A", DirectiveMode::UseMirror),
        dir("B", DirectiveMode::UseSame),
    ]);
    assert_eq!(q.len(), 2);
    let front = q.pop_front();
    assert_eq!(front, dir("A", DirectiveMode::UseMirror));
    assert_eq!(q.len(), 1);
    let found = q.find_named(&"B".to_string());
    assert_eq!(found, Some(dir("B", DirectiveMode::UseSame)));
}

#[test]
fn record_assembly_links_and_rewrites() {
    let record = RecordDescriptor {
        name: "Account".to_string(),
        visibility: "pub".to_string(),
        generics: "<T>".to_string(),
        attributes: vec!["#[non_exhaustive]".to_string()],
        fields: RecordFields::Named {
            fields: vec![
                field_with(leaf("Balance"), None),
                field_with(leaf("u64"), None),
            ],
        },
    };
    let out: MirrorRecord =
        parse_new_struct(&record, &"AccountMirror".to_string(), true).unwrap();
    assert_eq!(out.name, "AccountMirror".to_string());
    assert_eq!(out.mirrors, "Account".to_string());
    assert_eq!(out.visibility, "pub".to_string());
    assert_eq!(out.generics, "<T>".to_string());
    assert_eq!(out.attributes, vec!["#[non_exhaustive]".to_string()]);
    match out.fields {
        RecordFields::Named { fields } => {
            assert_eq!(fields.len(), 2);
            assert_eq!(fields[0].ty, leaf("BalanceMirror"));
            assert_eq!(fields[1].ty, leaf("u64"));
        }
        _ => panic!("shape changed"),
    }
}

#[test]
fn tuple_record_keeps_shape() {
    let record = RecordDescriptor {
        name: "Pair".to_string(),
        visibility: "pub".to_string(),
        generics: String::new(),
        attributes: vec![],
        fields: RecordFields::Unnamed {
            fields: vec![field_with(leaf("Left"), None), field_with(leaf("Right"), None)],
        },
    };
    let out = parse_new_struct(&record, &"PairMirror".to_string(), true).unwrap();
    match out.fields {
        RecordFields::Unnamed { fields } => {
            assert_eq!(fields[0].ty, leaf("LeftMirror"));
            assert_eq!(fields[1].ty, leaf("RightMirror"));
        }
        _ => panic!("shape changed"),
    }
}

#[test]
fn failing_field_aborts_record() {
    let record = RecordDescriptor {
        name: "Holder".to_string(),
        visibility: "pub".to_string(),
        generics: String::new(),
        attributes: vec![],
        fields: RecordFields::Named {
            fields: vec![
                field_with(leaf("Fine"), None),
                field_with(TypeExpr::Unsupported { description: "*mut u8".to_string() }, None),
            ],
        },
    };
    let err = parse_new_struct(&record, &"HolderMirror".to_string(), true).unwrap_err();
    assert_eq!(err, RewriteError::UnsupportedTypeShape { description: "*mut u8".to_string() });
}

#[test]
fn union_reproduces_unit_and_discriminant_variants() {
    // A unit variant and a variant carrying an explicit numeric
    // discriminant are reproduced unchanged in shape; a field-bearing
    // variant has its types rewritten.
    let enum_decl = EnumDescriptor {
        name: "State".to_string(),
        visibility: "pub".to_string(),
        generics: String::new(),
        attributes: vec!["#[repr(u8)]".to_string()],
        variants: vec![
            VariantDescriptor {
                name: "Empty".to_string(),
                attributes: vec![],
                discriminant: None,
                fields: VariantFields::Unit,
            },
            VariantDescriptor {
                name: "Tagged".to_string(),
                attributes: vec![],
                discriminant: Some("7".to_string()),
                fields: VariantFields::Unit,
            },
            VariantDescriptor {
                name: "Loaded".to_string(),
                attributes: vec!["#[doc = \"kept\"]".to_string()],
                discriminant: None,
                fields: VariantFields::Unnamed { fields: vec![field_with(leaf("Payload"), None)] },
            },
        ],
    };
    let out = parse_new_enum(&enum_decl, &"StateMirror".to_string(), true).unwrap();
    assert_eq!(out.name, "StateMirror".to_string());
    assert_eq!(out.mirrors, "State".to_string());
    assert_eq!(out.attributes, vec!["#[repr(u8)]".to_string()]);
    assert_eq!(out.variants.len(), 3);
    assert_eq!(out.variants[0], enum_decl.variants[0]);
    assert_eq!(out.variants[1], enum_decl.variants[1]);
    assert_eq!(out.variants[1].discriminant, Some("7".to_string()));
    match &out.variants[2].fields {
        VariantFields::Unnamed { fields } => assert_eq!(fields[0].ty, leaf("PayloadMirror")),
        _ => panic!("shape changed"),
    }
}

#[test]
fn variant_with_named_fields_uses_field_rules() {
    let variant = VariantDescriptor {
        name: "Entry".to_string(),
        attributes: vec![],
        discriminant: None,
        fields: VariantFields::Named {
            fields: vec![field_with(
                leaf("Key"),
                Some(vec![dir(
                    "Key",
                    DirectiveMode::UseExplicit { target: "KeyId".to_string() },
                )]),
            )],
        },
    };
    let out = parse_enum_variant(&variant, false).unwrap();
    match &out.fields {
        VariantFields::Named { fields } => assert_eq!(fields[0].ty, leaf("KeyId")),
        _ => panic!("shape changed"),
    }
}

#[test]
fn multi_segment_path_shares_queue() {
    // `module::Inner`: both segments resolve against the same queue, each
    // by a named match, left to right.
    let ty = TypeExpr::Path {
        segments: vec![
            PathSegment { name: "module".to_string(), arguments: PathArguments::NoArgs },
            PathSegment { name: "Inner".to_string(), arguments: PathArguments::NoArgs },
        ],
    };
    let mut q = DirectiveQueue::from_entries(vec![
        dir("module", DirectiveMode::UseSame),
        dir("Inner", DirectiveMode::UseMirror),
    ]);
    let out = parse_type_to_redefined(&ty, &mut q, false).unwrap();
    assert_eq!(
        out,
        TypeExpr::Path {
            segments: vec![
                PathSegment { name: "module".to_string(), arguments: PathArguments::NoArgs },
                PathSegment { name: "InnerMirror".to_string(), arguments: PathArguments::NoArgs },
            ],
        }
    );
    assert!(q.is_empty());
}
