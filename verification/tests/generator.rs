use cxx_qt_gen::generator::artifact::{ArtifactKind, GeneratedObject, HostArtifact, NativeArtifact};
use cxx_qt_gen::generator::collision::{collision_side, find_collision, CollisionError, Side};
use cxx_qt_gen::generator::marshal::{
    copy_parameters, copy_type, marshal_parameters, marshal_type, MarshalledParameter,
    MarshalledType, Passing,
};
use cxx_qt_gen::generator::naming::table::{derive_names, naming_table, NamingFailure};
use cxx_qt_gen::generator::naming::NamingError;
use cxx_qt_gen::generator::{fits, generate, generate_object, GenerationError, MarshalError};
use cxx_qt_gen::parser::{
    Declaration, ParsedInvokable, ParsedObject, ParsedParameter, ParsedProperty, ParsedSignal,
    ParsedType, TypeKind,
};

fn ty(name: &str, kind: TypeKind) -> ParsedType {
    ParsedType { name: name.to_owned(), kind }
}

fn parameter(ident: &str, name: &str, kind: TypeKind) -> ParsedParameter {
    ParsedParameter { ident: ident.to_owned(), ty: ty(name, kind) }
}

fn marshalled(ident: &str, name: &str, passing: Passing) -> MarshalledParameter {
    MarshalledParameter {
        ident: ident.to_owned(),
        ty: MarshalledType { name: name.to_owned(), passing },
    }
}

fn signal_decl(ident: &str, parameters: Vec<ParsedParameter>) -> Declaration {
    Declaration::Signal(ParsedSignal {
        ident: ident.to_owned(),
        parameters,
        cxx_name: None,
        inherit: false,
    })
}

fn property_decl(ident: &str, kind: TypeKind, notify: bool) -> Declaration {
    Declaration::Property(ParsedProperty {
        ident: ident.to_owned(),
        ty: ty("i32", kind),
        cxx_name: None,
        notify,
    })
}

fn object(declarations: Vec<Declaration>) -> ParsedObject {
    ParsedObject { ident: "MyObject".to_owned(), declarations }
}

#[test]
fn signal_gets_two_artifacts_on_each_side() {
    let parameters =
        vec![parameter("first", "i32", TypeKind::CopyValue), parameter("text", "QString", TypeKind::Reference)];
    let generated = generate_object(&object(vec![signal_decl("DataChanged", parameters)])).unwrap();
    let crossed = vec![
        marshalled("first", "i32", Passing::Copy),
        marshalled("text", "QString", Passing::Borrow),
    ];
    assert_eq!(
        generated.native,
        vec![
            NativeArtifact {
                kind: ArtifactKind::Signal,
                name: "dataChanged".to_owned(),
                parameters: crossed.clone(),
                return_type: None,
                signal: None,
            },
            NativeArtifact {
                kind: ArtifactKind::Emit,
                name: "emitDataChanged".to_owned(),
                parameters: crossed.clone(),
                return_type: None,
                signal: Some("dataChanged".to_owned()),
            },
        ]
    );
    assert_eq!(
        generated.host,
        vec![
            HostArtifact {
                kind: ArtifactKind::Emit,
                name: "emit_data_changed".to_owned(),
                parameters: crossed.clone(),
                return_type: None,
                native: "emitDataChanged".to_owned(),
                handler: None,
            },
            HostArtifact {
                kind: ArtifactKind::Connect,
                name: "connect_data_changed".to_owned(),
                parameters: crossed,
                return_type: None,
                native: "dataChangedConnect".to_owned(),
                handler: Some("on_data_changed".to_owned()),
            },
        ]
    );
}

#[test]
fn property_setter_emits_its_notification_once() {
    let generated = generate_object(&object(vec![property_decl("number", TypeKind::CopyValue, true)])).unwrap();
    let value_type = MarshalledType { name: "i32".to_owned(), passing: Passing::Copy };
    assert_eq!(
        generated.native,
        vec![
            NativeArtifact {
                kind: ArtifactKind::Getter,
                name: "number".to_owned(),
                parameters: vec![],
                return_type: Some(value_type.clone()),
                signal: None,
            },
            NativeArtifact {
                kind: ArtifactKind::Setter,
                name: "setNumber".to_owned(),
                parameters: vec![marshalled("value", "i32", Passing::Copy)],
                return_type: None,
                signal: Some("numberChanged".to_owned()),
            },
        ]
    );
    assert_eq!(
        generated.host,
        vec![
            HostArtifact {
                kind: ArtifactKind::Getter,
                name: "number".to_owned(),
                parameters: vec![],
                return_type: Some(value_type),
                native: "number".to_owned(),
                handler: None,
            },
            HostArtifact {
                kind: ArtifactKind::Setter,
                name: "set_number".to_owned(),
                parameters: vec![marshalled("value", "i32", Passing::Copy)],
                return_type: None,
                native: "setNumber".to_owned(),
                handler: None,
            },
        ]
    );
}

#[test]
fn property_setter_without_notification_emits_nothing() {
    let generated = generate_object(&object(vec![property_decl("number", TypeKind::MoveValue, false)])).unwrap();
    assert_eq!(generated.native[1].kind, ArtifactKind::Setter);
    assert_eq!(generated.native[1].signal, None);
    assert_eq!(generated.native[1].parameters, vec![marshalled("value", "i32", Passing::Move)]);
}

#[test]
fn invokable_gets_an_entry_point_and_a_call() {
    let invokable = Declaration::Invokable(ParsedInvokable {
        ident: "load_from".to_owned(),
        parameters: vec![parameter("source", "QUrl", TypeKind::Reference)],
        return_type: Some(ty("bool", TypeKind::CopyValue)),
        cxx_name: Some("load".to_owned()),
    });
    let generated = generate_object(&object(vec![invokable])).unwrap();
    assert_eq!(
        generated,
        GeneratedObject {
            native: vec![NativeArtifact {
                kind: ArtifactKind::Invokable,
                name: "load".to_owned(),
                parameters: vec![marshalled("source", "QUrl", Passing::Borrow)],
                return_type: Some(MarshalledType { name: "bool".to_owned(), passing: Passing::Copy }),
                signal: None,
            }],
            host: vec![HostArtifact {
                kind: ArtifactKind::Invokable,
                name: "load_from".to_owned(),
                parameters: vec![marshalled("source", "QUrl", Passing::Borrow)],
                return_type: Some(MarshalledType { name: "bool".to_owned(), passing: Passing::Copy }),
                native: "load".to_owned(),
                handler: None,
            }],
        }
    );
}

#[test]
fn artifacts_come_in_the_order_of_the_declarations() {
    let declarations = vec![
        property_decl("number", TypeKind::CopyValue, false),
        signal_decl("Ready", vec![]),
        property_decl("text", TypeKind::CopyValue, false),
    ];
    let generated = generate_object(&object(declarations)).unwrap();
    let native: Vec<&str> = generated.native.iter().map(|a| a.name.as_str()).collect();
    assert_eq!(native, vec!["number", "setNumber", "ready", "emitReady", "text", "setText"]);
    let host: Vec<&str> = generated.host.iter().map(|a| a.name.as_str()).collect();
    assert_eq!(
        host,
        vec!["number", "set_number", "emit_ready", "connect_ready", "text", "set_text"]
    );
}

#[test]
fn generation_of_the_same_object_gives_the_same_artifacts() {
    let declarations =
        vec![property_decl("number", TypeKind::CopyValue, true), signal_decl("Ready", vec![])];
    let subject = object(declarations);
    assert_eq!(generate_object(&subject), generate_object(&subject));
}

#[test]
fn object_without_declarations_gets_no_artifacts() {
    assert_eq!(
        generate_object(&object(vec![])),
        Ok(GeneratedObject { native: vec![], host: vec![] })
    );
}

#[test]
fn colliding_native_names_fail_generation() {
    let declarations = vec![signal_decl("DataChanged", vec![]), signal_decl("data_changed", vec![])];
    assert_eq!(
        generate_object(&object(declarations)),
        Err(GenerationError::Collision(CollisionError { first: 0, second: 1, side: Side::Native }))
    );
}

#[test]
fn colliding_host_names_fail_generation() {
    // The native names differ, the host names are the same
    let first = Declaration::Signal(ParsedSignal {
        ident: "Ready".to_owned(),
        parameters: vec![],
        cxx_name: Some("started".to_owned()),
        inherit: false,
    });
    let second = Declaration::Signal(ParsedSignal {
        ident: "Ready".to_owned(),
        parameters: vec![],
        cxx_name: Some("finished".to_owned()),
        inherit: false,
    });
    let declarations = vec![property_decl("number", TypeKind::CopyValue, false), first, second];
    assert_eq!(
        generate_object(&object(declarations)),
        Err(GenerationError::Collision(CollisionError { first: 1, second: 2, side: Side::Host }))
    );
}

#[test]
fn notification_of_a_property_collides_with_a_signal_of_its_name() {
    let declarations =
        vec![property_decl("number", TypeKind::CopyValue, true), signal_decl("NumberChanged", vec![])];
    assert_eq!(
        generate_object(&object(declarations)),
        Err(GenerationError::Collision(CollisionError { first: 0, second: 1, side: Side::Native }))
    );
}

#[test]
fn first_collision_is_the_one_reported() {
    let declarations = vec![
        signal_decl("Ready", vec![]),
        signal_decl("Done", vec![]),
        signal_decl("done", vec![]),
        signal_decl("ready", vec![]),
    ];
    let subject = object(declarations);
    let table = naming_table(&subject).unwrap();
    assert_eq!(
        find_collision(&table),
        Some(CollisionError { first: 1, second: 2, side: Side::Native })
    );
    assert_eq!(collision_side(&table[0], &table[3]), Some(Side::Native));
    assert_eq!(collision_side(&table[0], &table[1]), None);
    assert_eq!(
        generate(&subject, &table),
        Err(GenerationError::Collision(CollisionError { first: 1, second: 2, side: Side::Native }))
    );
}

#[test]
fn distinct_names_do_not_collide() {
    let declarations = vec![signal_decl("Ready", vec![]), signal_decl("Done", vec![])];
    let table = naming_table(&object(declarations)).unwrap();
    assert_eq!(find_collision(&table), None);
}

#[test]
fn type_without_representation_fails_generation() {
    let declarations = vec![
        signal_decl("Ready", vec![]),
        signal_decl("Moved", vec![parameter("to", "Widget", TypeKind::Unknown)]),
    ];
    assert_eq!(
        generate_object(&object(declarations)),
        Err(GenerationError::Marshal(MarshalError { declaration: 1 }))
    );
    assert_eq!(
        generate_object(&object(vec![property_decl("number", TypeKind::Unknown, false)])),
        Err(GenerationError::Marshal(MarshalError { declaration: 0 }))
    );
}

#[test]
fn return_type_without_representation_fails_generation() {
    let invokable = Declaration::Invokable(ParsedInvokable {
        ident: "make".to_owned(),
        parameters: vec![],
        return_type: Some(ty("Widget", TypeKind::Unknown)),
        cxx_name: None,
    });
    assert_eq!(
        generate_object(&object(vec![invokable])),
        Err(GenerationError::Marshal(MarshalError { declaration: 0 }))
    );
}

#[test]
fn collision_is_reported_before_a_type_without_representation() {
    let declarations = vec![
        signal_decl("Moved", vec![parameter("to", "Widget", TypeKind::Unknown)]),
        signal_decl("moved", vec![]),
    ];
    assert_eq!(
        generate_object(&object(declarations)),
        Err(GenerationError::Collision(CollisionError { first: 0, second: 1, side: Side::Native }))
    );
}

#[test]
fn naming_fault_fails_generation() {
    let declarations = vec![signal_decl("Ready", vec![]), signal_decl("__", vec![])];
    assert_eq!(
        generate_object(&object(declarations)),
        Err(GenerationError::Naming(NamingFailure { declaration: 1, error: NamingError::Empty }))
    );
}

#[test]
fn generate_takes_a_table_that_was_derived_before() {
    let subject = object(vec![signal_decl("Ready", vec![])]);
    let table = vec![derive_names(&subject.declarations[0]).unwrap()];
    assert_eq!(generate(&subject, &table), generate_object(&subject));
}

#[test]
fn each_kind_of_type_has_its_convention() {
    assert_eq!(
        marshal_type(&ty("i32", TypeKind::CopyValue)),
        Some(MarshalledType { name: "i32".to_owned(), passing: Passing::Copy })
    );
    assert_eq!(
        marshal_type(&ty("QString", TypeKind::MoveValue)),
        Some(MarshalledType { name: "QString".to_owned(), passing: Passing::Move })
    );
    assert_eq!(
        marshal_type(&ty("QObject", TypeKind::Reference)),
        Some(MarshalledType { name: "QObject".to_owned(), passing: Passing::Borrow })
    );
    assert_eq!(marshal_type(&ty("Widget", TypeKind::Unknown)), None);
}

#[test]
fn parameters_are_marshalled_in_order_or_not_at_all() {
    let known = vec![parameter("a", "i32", TypeKind::CopyValue), parameter("b", "QString", TypeKind::MoveValue)];
    assert_eq!(
        marshal_parameters(&known),
        Some(vec![marshalled("a", "i32", Passing::Copy), marshalled("b", "QString", Passing::Move)])
    );
    let unknown = vec![parameter("a", "i32", TypeKind::CopyValue), parameter("b", "Widget", TypeKind::Unknown)];
    assert_eq!(marshal_parameters(&unknown), None);
    assert_eq!(marshal_parameters(&vec![]), Some(vec![]));
}

#[test]
fn table_fits_the_object_it_was_derived_from() {
    let subject = object(vec![
        signal_decl("Ready", vec![]),
        property_decl("number", TypeKind::CopyValue, false),
    ]);
    let table = naming_table(&subject).unwrap();
    assert!(fits(&subject, &table));
    let mut swapped = table.clone();
    swapped.swap(0, 1);
    assert!(!fits(&subject, &swapped));
    assert!(!fits(&subject, &table[..1].to_vec()));
    assert!(fits(&object(vec![]), &vec![]));
}

#[test]
fn copies_of_marshalled_types_are_equal_to_them() {
    let ty = MarshalledType { name: "QString".to_owned(), passing: Passing::Move };
    assert_eq!(copy_type(&ty), ty);
    let parameters = vec![marshalled("a", "i32", Passing::Copy), marshalled("b", "QUrl", Passing::Borrow)];
    assert_eq!(copy_parameters(&parameters), parameters);
    assert_eq!(copy_parameters(&vec![]), vec![]);
}

#[test]
fn signals_with_different_base_names_do_not_collide() {
    let declarations = vec![signal_decl("a_b_c", vec![]), signal_decl("a_bc", vec![])];
    let generated = generate_object(&object(declarations)).unwrap();
    let native: Vec<&str> = generated.native.iter().map(|a| a.name.as_str()).collect();
    assert_eq!(native, vec!["aBC", "emitABC", "aBc", "emitABc"]);
    let properties = vec![
        property_decl("a_b_c", TypeKind::CopyValue, false),
        property_decl("a_bc", TypeKind::CopyValue, false),
    ];
    let generated = generate_object(&object(properties)).unwrap();
    let native: Vec<&str> = generated.native.iter().map(|a| a.name.as_str()).collect();
    assert_eq!(native, vec!["aBC", "setABC", "aBc", "setABc"]);
}
