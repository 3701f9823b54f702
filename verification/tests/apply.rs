use ui_representation::UIChangable;
use ui_representation::UIRepresentation;
use ui_representation::UIRepresentationVariant;
use ui_representation::UIChangableError;
use ui_representation::UIChangeEvent;
use ui_representation::UIChangeEventVariant;
use ui_representation::UIRepresented;
use ui_representation::record::UIRecord;
use ui_representation::registry::FieldAnnotation;
use ui_representation::registry::FieldDecl;
use ui_representation::registry::FieldType;
use ui_representation::registry::build_representation;
use ui_representation::toggle::Toggle;

fn event(field: &str, variant: UIChangeEventVariant) -> UIChangeEvent {
    UIChangeEvent { field: field.to_owned(), variant }
}

#[test]
fn toggle_publishes_checkbox_descriptor() {
    let descs = Toggle::ui_representation();
    assert_eq!(descs.len(), 1);
    assert_eq!(descs[0].field, "enabled");
    let own = Toggle { enabled: false }.own_ui_representation();
    assert_eq!(own.len(), 1);
    assert_eq!(own[0].field, "enabled");
}

#[test]
fn toggle_accepts_matching_event() {
    let mut t = Toggle { enabled: false };
    let r = t.ui_change(event("enabled", UIChangeEventVariant::Checkbox(true)));
    assert!(r.is_ok());
    assert!(t.enabled);
}

#[test]
fn toggle_rejects_wrong_payload_shape() {
    let mut t = Toggle { enabled: false };
    let r = t.ui_change(event("enabled", UIChangeEventVariant::TextEntry("x".to_owned())));
    assert_eq!(r.unwrap_err(), UIChangableError::WrongType);
    assert!(!t.enabled);
}

#[test]
fn toggle_rejects_unknown_field() {
    let mut t = Toggle { enabled: false };
    let r = t.ui_change(event("missing", UIChangeEventVariant::Checkbox(true)));
    assert_eq!(r.unwrap_err(), UIChangableError::InvalidField);
    assert!(!t.enabled);
}

fn sample_record() -> UIRecord {
    let fields = vec![
        FieldDecl {
            name: "enabled".to_owned(),
            ty: FieldType::Boolean,
            annotation: Some(FieldAnnotation::Inferred),
        },
        FieldDecl {
            name: "title".to_owned(),
            ty: FieldType::Text,
            annotation: Some(FieldAnnotation::Inferred),
        },
    ];
    let descs = build_representation(&fields).unwrap();
    let values = vec![
        UIChangeEventVariant::Checkbox(false),
        UIChangeEventVariant::TextEntry("untitled".to_owned()),
    ];
    UIRecord::new(descs, values).unwrap()
}

#[test]
fn record_applies_matching_event() {
    let mut rec = sample_record();
    let r = rec.ui_change(event("title", UIChangeEventVariant::TextEntry("report".to_owned())));
    assert!(r.is_ok());
    match rec.value_of(&"title".to_owned()) {
        Some(UIChangeEventVariant::TextEntry(s)) => assert_eq!(s, "report"),
        other => panic!("unexpected value: {:?}", other),
    }
    match rec.value_of(&"enabled".to_owned()) {
        Some(UIChangeEventVariant::Checkbox(false)) => {}
        other => panic!("unexpected value: {:?}", other),
    }
}

#[test]
fn record_rejects_wrong_payload_shape_unchanged() {
    let mut rec = sample_record();
    let r = rec.ui_change(event("enabled", UIChangeEventVariant::TextEntry("x".to_owned())));
    assert_eq!(r.unwrap_err(), UIChangableError::WrongType);
    match rec.value_of(&"enabled".to_owned()) {
        Some(UIChangeEventVariant::Checkbox(false)) => {}
        other => panic!("unexpected value: {:?}", other),
    }
}

#[test]
fn record_rejects_unknown_field_unchanged() {
    let mut rec = sample_record();
    let r = rec.ui_change(event("missing", UIChangeEventVariant::Checkbox(true)));
    assert_eq!(r.unwrap_err(), UIChangableError::InvalidField);
    match rec.value_of(&"title".to_owned()) {
        Some(UIChangeEventVariant::TextEntry(s)) => assert_eq!(s, "untitled"),
        other => panic!("unexpected value: {:?}", other),
    }
}

#[test]
fn record_refuses_mismatched_initial_values() {
    let fields = vec![FieldDecl {
        name: "enabled".to_owned(),
        ty: FieldType::Boolean,
        annotation: Some(FieldAnnotation::Inferred),
    }];
    let descs = build_representation(&fields).unwrap();
    let values = vec![UIChangeEventVariant::TextEntry("x".to_owned())];
    assert!(UIRecord::new(descs, values).is_none());
}

#[test]
fn record_refuses_missing_initial_values() {
    let fields = vec![FieldDecl {
        name: "enabled".to_owned(),
        ty: FieldType::Boolean,
        annotation: Some(FieldAnnotation::Inferred),
    }];
    let descs = build_representation(&fields).unwrap();
    assert!(UIRecord::new(descs, Vec::new()).is_none());
}

#[test]
fn tab_payload_is_assigned_whole() {
    let descs = vec![UIRepresentation {
        field: "settings".to_owned(),
        variant: UIRepresentationVariant::Tab(vec![UIRepresentation {
            field: "title".to_owned(),
            variant: UIRepresentationVariant::TextEntry,
        }]),
    }];
    let values = vec![UIChangeEventVariant::Tab(Box::new(UIChangeEvent {
        field: "title".to_owned(),
        variant: UIChangeEventVariant::TextEntry("a".to_owned()),
    }))];
    let mut rec = UIRecord::new(descs, values).unwrap();
    let nested = UIChangeEvent {
        field: "title".to_owned(),
        variant: UIChangeEventVariant::TextEntry("b".to_owned()),
    };
    let r = rec.ui_change(event("settings", UIChangeEventVariant::Tab(Box::new(nested))));
    assert!(r.is_ok());
    match rec.value_of(&"settings".to_owned()) {
        Some(UIChangeEventVariant::Tab(inner)) => {
            assert_eq!(inner.field, "title");
            match &inner.variant {
                UIChangeEventVariant::TextEntry(s) => assert_eq!(s, "b"),
                other => panic!("unexpected nested payload: {:?}", other),
            }
        }
        other => panic!("unexpected value: {:?}", other),
    }
}

#[test]
fn select_payload_matches_select_field() {
    let descs = vec![UIRepresentation {
        field: "mode".to_owned(),
        variant: UIRepresentationVariant::Select,
    }];
    let values = vec![UIChangeEventVariant::Select];
    let mut rec = UIRecord::new(descs, values).unwrap();
    assert!(rec.ui_change(event("mode", UIChangeEventVariant::Select)).is_ok());
    let r = rec.ui_change(event("mode", UIChangeEventVariant::Checkbox(true)));
    assert_eq!(r.unwrap_err(), UIChangableError::WrongType);
}

#[test]
fn error_messages_name_the_failure() {
    assert_eq!(
        UIChangableError::WrongType.message(),
        "The type of the field is not correct."
    );
    assert_eq!(
        UIChangableError::InvalidField.message(),
        "The type specified does not exist"
    );
}
