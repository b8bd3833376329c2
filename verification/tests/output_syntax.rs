use kudi_macros::decl::{Annotation, AnnotatedDeclaration, FieldsShape};
use kudi_macros::utils::{GenericParam, ParamKind};

fn stateful_with_generics() -> AnnotatedDeclaration {
    AnnotatedDeclaration {
        ident: "State".to_string(),
        vis: "pub".to_string(),
        generics: vec![
            GenericParam {
                kind: ParamKind::Lifetime,
                name: "a".to_string(),
                decl: "'a".to_string(),
            },
            GenericParam {
                kind: ParamKind::Type,
                name: "T".to_string(),
                decl: "T: Clone".to_string(),
            },
            GenericParam {
                kind: ParamKind::Const,
                name: "N".to_string(),
                decl: "const N: usize".to_string(),
            },
        ],
        where_clause: Some("where T: Send".to_string()),
        annotations: vec![Annotation {
            name: "target".to_string(),
            args: vec!["View".to_string()],
        }],
        fields: FieldsShape::Named(2),
    }
}

#[test]
fn stateful_unit_is_valid_rust_syntax() {
    let unit = kudi_macros::dep_inj(stateful_with_generics()).unwrap();
    let parsed = syn::parse_str::<syn::File>(&unit);
    assert!(parsed.is_ok(), "emitted unit does not parse: {:?}", parsed.err());
    let file = parsed.unwrap();
    // one struct definition and four impl blocks before the conversion
    // impls: cast, ref-cast, Deref, DerefMut, From
    assert_eq!(file.items.len(), 6);
}

#[test]
fn stateless_unit_is_valid_rust_syntax_and_exposes_no_conversion() {
    let decl = AnnotatedDeclaration {
        ident: "Marker".to_string(),
        vis: "pub".to_string(),
        generics: vec![],
        where_clause: None,
        annotations: vec![],
        fields: FieldsShape::Unit,
    };
    let unit = kudi_macros::target(decl).unwrap();
    let parsed = syn::parse_str::<syn::File>(&unit);
    assert!(parsed.is_ok(), "emitted unit does not parse: {:?}", parsed.err());
    // definition, cast impl, ref-cast impl; no Deref, DerefMut or From
    assert_eq!(parsed.unwrap().items.len(), 3);
    assert!(!unit.contains("Deref"));
    assert!(!unit.contains("_marker"));
    assert!(!unit.contains("From<"));
}

#[test]
fn generated_generics_match_source_arity_order_and_kind() {
    let unit = kudi_macros::dep_inj(stateful_with_generics()).unwrap();
    let file = syn::parse_str::<syn::File>(&unit).unwrap();
    let item = file.items.iter().find_map(|i| match i {
        syn::Item::Struct(s) => Some(s),
        _ => None,
    }).unwrap();
    // three source parameters plus the generator-introduced container
    assert_eq!(item.generics.params.len(), 4);
    let kinds: Vec<&str> = item.generics.params.iter().map(|p| match p {
        syn::GenericParam::Lifetime(_) => "lifetime",
        syn::GenericParam::Type(_) => "type",
        syn::GenericParam::Const(_) => "const",
    }).collect();
    assert_eq!(kinds, vec!["lifetime", "type", "const", "type"]);
}
