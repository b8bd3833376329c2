use kudi_macros::target::Target;
use kudi_macros::utils::{GenericParam, ParamKind, PartialGenerics};

fn param(kind: ParamKind, name: &str, decl: &str) -> GenericParam {
    GenericParam { kind, name: name.to_string(), decl: decl.to_string() }
}

fn mixed_params() -> Vec<GenericParam> {
    vec![
        param(ParamKind::Lifetime, "a", "'a"),
        param(ParamKind::Type, "T", "T: Clone"),
        param(ParamKind::Const, "N", "const N: usize"),
    ]
}

#[test]
fn decl_form_renders_full_declarations_each_terminated() {
    let params = mixed_params();
    let (impl_gn, _) = PartialGenerics(&params).split_for_impl();
    let mut out = String::new();
    impl_gn.to_tokens(&mut out);
    assert_eq!(out, "'a, T: Clone, const N: usize, ");
}

#[test]
fn use_form_renders_bare_references_each_terminated() {
    let params = mixed_params();
    let (_, ty_gn) = PartialGenerics(&params).split_for_impl();
    let mut out = String::new();
    ty_gn.to_tokens(&mut out);
    assert_eq!(out, "'a, T, N, ");
}

#[test]
fn use_form_keeps_arity_order_and_kind() {
    let params = mixed_params();
    let (_, ty_gn) = PartialGenerics(&params).split_for_impl();
    let mut out = String::new();
    ty_gn.to_tokens(&mut out);
    let entries: Vec<&str> = out.split(", ").filter(|e| !e.is_empty()).collect();
    assert_eq!(entries.len(), params.len());
    assert_eq!(entries, vec!["'a", "T", "N"]);
}

#[test]
fn empty_params_render_empty() {
    let params: Vec<GenericParam> = vec![];
    let (impl_gn, ty_gn) = PartialGenerics(&params).split_for_impl();
    let mut decl = String::new();
    impl_gn.to_tokens(&mut decl);
    let mut usage = String::new();
    ty_gn.to_tokens(&mut usage);
    assert_eq!(decl, "");
    assert_eq!(usage, "");
}

fn person_plan() -> Target {
    Target {
        ident: "PersonView".to_string(),
        vis: "pub".to_string(),
        state: Some("PersonState".to_string()),
        generics: vec![],
        where_clause: None,
    }
}

#[test]
fn define_emits_transparent_single_field_wrapper() {
    let expected = "#[derive(Debug, PartialEq, Eq, PartialOrd, Ord, Hash, Clone, Copy)]\n\
                    #[repr(transparent)]\n\
                    pub struct PersonView<__Deps__: ?Sized> {\n    \
                    _marker: ::core::marker::PhantomData<PersonState>,\n    \
                    deps: __Deps__,\n}\n";
    assert_eq!(person_plan().define(), expected);
}

#[test]
fn define_stateless_has_no_marker_field() {
    let t = Target {
        ident: "Gadget".to_string(),
        vis: String::new(),
        state: None,
        generics: vec![],
        where_clause: None,
    };
    let expected = "#[derive(Debug, PartialEq, Eq, PartialOrd, Ord, Hash, Clone, Copy)]\n\
                    #[repr(transparent)]\n\
                    struct Gadget<__Deps__: ?Sized> {\n    deps: __Deps__,\n}\n";
    assert_eq!(t.define(), expected);
    assert!(!t.define().contains("_marker"));
}

#[test]
fn define_splices_generics_and_where_clause() {
    let t = Target {
        ident: "View".to_string(),
        vis: "pub(crate)".to_string(),
        state: Some("State".to_string()),
        generics: vec![param(ParamKind::Lifetime, "a", "'a"), param(ParamKind::Type, "T", "T")],
        where_clause: Some("where T: Send".to_string()),
    };
    let text = t.define();
    assert!(text.contains("pub(crate) struct View<'a, T, __Deps__: ?Sized> where T: Send {"));
    assert!(text.contains("_marker: ::core::marker::PhantomData<State<'a, T, >>"));
}

#[test]
fn cast_impl_moves_container_in_and_out() {
    let text = person_plan().impl_cast();
    let expected = "impl<__Deps__> PersonView<__Deps__> {\n    \
                    #[inline]\n    \
                    pub fn inj(deps: __Deps__) -> Self {\n        \
                    Self {\n            \
                    _marker: ::core::marker::PhantomData::<PersonState>,\n            \
                    deps,\n        }\n    }\n\n    \
                    #[inline]\n    \
                    pub fn prj(self) -> __Deps__ {\n        self.deps\n    }\n}\n";
    assert_eq!(text, expected);
}

#[test]
fn ref_cast_impl_covers_every_modality_pair() {
    let text = person_plan().impl_ref_cast();
    assert!(text.starts_with("impl<__Deps__: ?Sized> PersonView<__Deps__> {\n"));
    for name in [
        "inj_ref", "prj_ref", "inj_ref_mut", "prj_ref_mut", "inj_box", "prj_box", "inj_rc",
        "prj_rc", "inj_arc", "prj_arc", "inj_pin_ref", "prj_pin_ref", "inj_pin_ref_mut",
        "prj_pin_ref_mut", "inj_pin_box", "prj_pin_box", "inj_pin_rc", "prj_pin_rc",
        "inj_pin_arc", "prj_pin_arc",
    ] {
        let header = format!("pub fn {}(", name);
        assert!(text.contains(&header), "missing cast {}", name);
    }
    assert_eq!(text.matches("pub fn ").count(), 20);
}

#[test]
fn convert_impls_carry_extraction_capability_bounds() {
    let text = person_plan().impls_convert();
    assert!(text.contains("::std::ops::Deref for PersonView<__Deps__>"));
    assert!(text.contains("__Deps__: AsRef<PersonState> + ?Sized,"));
    assert!(text.contains("::std::ops::DerefMut for PersonView<__Deps__>"));
    assert!(text.contains("__Deps__: AsRef<PersonState> + AsMut<PersonState> + ?Sized,"));
    assert!(text.contains("From<PersonView<__Deps__>> for PersonState"));
    assert!(text.contains("__Deps__: Into<PersonState>,"));
}

#[test]
fn unit_concatenates_sections_in_order() {
    let t = person_plan();
    let mut unit = String::new();
    t.to_tokens(&mut unit);
    let assembled =
        t.define() + &t.impl_cast() + &t.impl_ref_cast() + &t.impls_convert();
    assert_eq!(unit, assembled);
}
