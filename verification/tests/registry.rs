use ui_representation::UIRepresentationVariant;
use ui_representation::registry::FieldAnnotation;
use ui_representation::registry::FieldDecl;
use ui_representation::registry::FieldType;
use ui_representation::registry::RegistryError;
use ui_representation::registry::build_representation;

fn decl(name: &str, ty: FieldType, annotation: Option<FieldAnnotation>) -> FieldDecl {
    FieldDecl { name: name.to_owned(), ty, annotation }
}

#[test]
fn inferred_bool_gives_checkbox() {
    let fields = vec![decl("enabled", FieldType::Boolean, Some(FieldAnnotation::Inferred))];
    let descs = build_representation(&fields).unwrap();
    assert_eq!(descs.len(), 1);
    assert_eq!(descs[0].field, "enabled");
    assert!(matches!(descs[0].variant, UIRepresentationVariant::Checkbox));
}

#[test]
fn inferred_string_gives_text_entry() {
    let fields = vec![decl("title", FieldType::Text, Some(FieldAnnotation::Inferred))];
    let descs = build_representation(&fields).unwrap();
    assert_eq!(descs.len(), 1);
    assert_eq!(descs[0].field, "title");
    assert!(matches!(descs[0].variant, UIRepresentationVariant::TextEntry));
}

#[test]
fn fields_without_annotation_are_excluded() {
    let fields = vec![
        decl("enabled", FieldType::Boolean, Some(FieldAnnotation::Inferred)),
        decl("internal", FieldType::Other, None),
        decl("title", FieldType::Text, Some(FieldAnnotation::Inferred)),
    ];
    let descs = build_representation(&fields).unwrap();
    assert_eq!(descs.len(), 2);
    assert_eq!(descs[0].field, "enabled");
    assert_eq!(descs[1].field, "title");
}

#[test]
fn declaration_order_is_kept() {
    let fields = vec![
        decl("a", FieldType::Text, Some(FieldAnnotation::Inferred)),
        decl("b", FieldType::Boolean, Some(FieldAnnotation::Inferred)),
        decl("c", FieldType::Text, Some(FieldAnnotation::Inferred)),
    ];
    let descs = build_representation(&fields).unwrap();
    let names: Vec<&str> = descs.iter().map(|d| d.field.as_str()).collect();
    assert_eq!(names, vec!["a", "b", "c"]);
}

#[test]
fn explicit_checkbox_is_accepted() {
    let fields = vec![decl(
        "flag",
        FieldType::Other,
        Some(FieldAnnotation::Explicit("checkbox".to_owned())),
    )];
    let descs = build_representation(&fields).unwrap();
    assert_eq!(descs.len(), 1);
    assert!(matches!(descs[0].variant, UIRepresentationVariant::Checkbox));
}

#[test]
fn unknown_explicit_variant_is_rejected() {
    let fields = vec![decl(
        "flag",
        FieldType::Boolean,
        Some(FieldAnnotation::Explicit("slider".to_owned())),
    )];
    assert_eq!(build_representation(&fields).unwrap_err(), RegistryError::UnknownVariant);
}

#[test]
fn malformed_annotation_is_rejected() {
    let fields = vec![decl("flag", FieldType::Boolean, Some(FieldAnnotation::Malformed))];
    assert_eq!(build_representation(&fields).unwrap_err(), RegistryError::MalformedAnnotation);
}

#[test]
fn other_type_has_no_default() {
    let fields = vec![decl("count", FieldType::Other, Some(FieldAnnotation::Inferred))];
    assert_eq!(build_representation(&fields).unwrap_err(), RegistryError::NoDefault);
}

#[test]
fn first_unusable_declaration_wins() {
    let fields = vec![
        decl("count", FieldType::Other, Some(FieldAnnotation::Inferred)),
        decl("flag", FieldType::Boolean, Some(FieldAnnotation::Malformed)),
    ];
    assert_eq!(build_representation(&fields).unwrap_err(), RegistryError::NoDefault);
}
