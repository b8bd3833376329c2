use kudi_macros::decl::{
    check_identifier, Annotation, AnnotatedDeclaration, ConfigError, FieldsShape, ItemState,
    ItemUnitStruct,
};

fn target_ann(arg: &str) -> Annotation {
    Annotation { name: "target".to_string(), args: vec![arg.to_string()] }
}

fn state_decl(annotations: Vec<Annotation>) -> AnnotatedDeclaration {
    AnnotatedDeclaration {
        ident: "PersonState".to_string(),
        vis: "pub".to_string(),
        generics: vec![],
        where_clause: None,
        annotations,
        fields: FieldsShape::Named(1),
    }
}

#[test]
fn exactly_one_annotation_succeeds() {
    let st = ItemState::parse(state_decl(vec![target_ann("PersonView")])).unwrap();
    assert_eq!(st.target, "PersonView");
    assert_eq!(st.item.ident, "PersonState");
}

#[test]
fn zero_annotations_is_missing() {
    let r = ItemState::parse(state_decl(vec![]));
    assert_eq!(r.unwrap_err(), ConfigError::MissingAnnotation);
}

#[test]
fn unrecognized_annotations_do_not_count() {
    let other = Annotation { name: "derive".to_string(), args: vec!["Clone".to_string()] };
    let r = ItemState::parse(state_decl(vec![other]));
    assert_eq!(r.unwrap_err(), ConfigError::MissingAnnotation);
}

#[test]
fn two_annotations_is_duplicate() {
    let r = ItemState::parse(state_decl(vec![target_ann("A"), target_ann("B")]));
    assert_eq!(r.unwrap_err(), ConfigError::DuplicateAnnotation);
}

#[test]
fn first_of_one_match_is_taken_among_others() {
    let other = Annotation { name: "doc".to_string(), args: vec!["note".to_string()] };
    let st = ItemState::parse(state_decl(vec![other, target_ann("View")])).unwrap();
    assert_eq!(st.target, "View");
}

#[test]
fn malformed_argument_is_shape_mismatch() {
    let two_args = Annotation {
        name: "target".to_string(),
        args: vec!["A".to_string(), "B".to_string()],
    };
    assert_eq!(ItemState::parse(state_decl(vec![two_args])).unwrap_err(), ConfigError::ShapeMismatch);

    let not_ident = target_ann("123View");
    assert_eq!(
        ItemState::parse(state_decl(vec![not_ident])).unwrap_err(),
        ConfigError::ShapeMismatch
    );

    let empty = Annotation { name: "target".to_string(), args: vec![] };
    assert_eq!(ItemState::parse(state_decl(vec![empty])).unwrap_err(), ConfigError::ShapeMismatch);
}

#[test]
fn identifier_check_accepts_and_rejects() {
    assert!(check_identifier("PersonView"));
    assert!(check_identifier("_private2"));
    assert!(!check_identifier(""));
    assert!(!check_identifier("9lives"));
    assert!(!check_identifier("has space"));
    assert!(!check_identifier("dash-ed"));
}

fn marker_decl(fields: FieldsShape) -> AnnotatedDeclaration {
    AnnotatedDeclaration {
        ident: "Gadget".to_string(),
        vis: String::new(),
        generics: vec![],
        where_clause: None,
        annotations: vec![],
        fields,
    }
}

#[test]
fn unit_declaration_is_accepted_in_marker_mode() {
    let u = ItemUnitStruct::parse(marker_decl(FieldsShape::Unit)).unwrap();
    assert_eq!(u.0.ident, "Gadget");
}

#[test]
fn non_unit_declaration_is_rejected_in_marker_mode() {
    assert_eq!(
        ItemUnitStruct::parse(marker_decl(FieldsShape::Tuple(1))).unwrap_err(),
        ConfigError::ShapeMismatch
    );
    assert_eq!(
        ItemUnitStruct::parse(marker_decl(FieldsShape::Named(2))).unwrap_err(),
        ConfigError::ShapeMismatch
    );
}
