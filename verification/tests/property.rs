use cxx_qt_gen::generator::naming::invokable::QInvokableName;
use cxx_qt_gen::generator::naming::property::QPropertyName;
use cxx_qt_gen::generator::naming::table::{derive_names, naming_table, NamingFailure, NamingTableEntry};
use cxx_qt_gen::generator::naming::{CombinedIdent, NamingError};
use cxx_qt_gen::parser::{
    Declaration, ParsedInvokable, ParsedObject, ParsedProperty, ParsedSignal, ParsedType, TypeKind,
};

fn int_type() -> ParsedType {
    ParsedType { name: "i32".to_owned(), kind: TypeKind::CopyValue }
}

fn property(ident: &str, cxx_name: Option<&str>, notify: bool) -> ParsedProperty {
    ParsedProperty {
        ident: ident.to_owned(),
        ty: int_type(),
        cxx_name: cxx_name.map(|name| name.to_owned()),
        notify,
    }
}

#[test]
fn property_names_with_notification() {
    let names = QPropertyName::from(&property("my_number", None, true)).unwrap();
    assert_eq!(names.getter.cpp, "myNumber");
    assert_eq!(names.getter.rust, "my_number");
    assert_eq!(names.setter.cpp, "setMyNumber");
    assert_eq!(names.setter.rust, "set_my_number");
    let notify = names.notify.unwrap();
    assert_eq!(notify.cpp, "myNumberChanged");
    assert_eq!(notify.rust, "my_number_changed");
}

#[test]
fn property_without_notification_has_no_notify_names() {
    let names = QPropertyName::from(&property("number", None, false)).unwrap();
    assert_eq!(names.getter.cpp, "number");
    assert_eq!(names.setter.cpp, "setNumber");
    assert_eq!(names.notify, None);
}

#[test]
fn property_override_names_the_native_side_only() {
    let names = QPropertyName::from(&property("number", Some("count"), true)).unwrap();
    assert_eq!(names.getter.cpp, "count");
    assert_eq!(names.getter.rust, "number");
    assert_eq!(names.setter.cpp, "setCount");
    assert_eq!(names.setter.rust, "set_number");
    let notify = names.notify.unwrap();
    assert_eq!(notify.cpp, "countChanged");
    assert_eq!(notify.rust, "number_changed");
}

#[test]
fn property_accessor_functions() {
    assert_eq!(
        CombinedIdent::getter_from_property("Width", "Width").unwrap(),
        CombinedIdent { cpp: "width".to_owned(), rust: "width".to_owned() }
    );
    assert_eq!(
        CombinedIdent::setter_from_property("Width", "Width").unwrap(),
        CombinedIdent { cpp: "setWidth".to_owned(), rust: "set_width".to_owned() }
    );
    assert_eq!(
        CombinedIdent::notify_from_property("Width", "Width").unwrap(),
        CombinedIdent { cpp: "widthChanged".to_owned(), rust: "width_changed".to_owned() }
    );
    assert_eq!(CombinedIdent::setter_from_property("__", "ok"), Err(NamingError::Empty));
}

#[test]
fn invokable_names() {
    let invokable = ParsedInvokable {
        ident: "reset_all".to_owned(),
        parameters: vec![],
        return_type: None,
        cxx_name: None,
    };
    let names = QInvokableName::from(&invokable).unwrap();
    assert_eq!(names.name.cpp, "resetAll");
    assert_eq!(names.name.rust, "reset_all");
    assert_eq!(
        CombinedIdent::from_invokable("reset_all", "clear").unwrap(),
        CombinedIdent { cpp: "clear".to_owned(), rust: "reset_all".to_owned() }
    );
}

#[test]
fn invokable_with_faulty_identifier_is_refused() {
    let invokable = ParsedInvokable {
        ident: "reset all".to_owned(),
        parameters: vec![],
        return_type: None,
        cxx_name: None,
    };
    assert_eq!(QInvokableName::from(&invokable), Err(NamingError::Invalid));
}

#[test]
fn derive_names_follows_the_kind_of_declaration() {
    let signal = Declaration::Signal(ParsedSignal {
        ident: "Ready".to_owned(),
        parameters: vec![],
        cxx_name: None,
        inherit: false,
    });
    assert!(matches!(derive_names(&signal), Ok(NamingTableEntry::Signal(_))));
    let prop = Declaration::Property(property("number", None, false));
    assert!(matches!(derive_names(&prop), Ok(NamingTableEntry::Property(_))));
}

#[test]
fn naming_table_has_one_entry_for_each_declaration() {
    let object = ParsedObject {
        ident: "MyObject".to_owned(),
        declarations: vec![
            Declaration::Property(property("number", None, true)),
            Declaration::Signal(ParsedSignal {
                ident: "Ready".to_owned(),
                parameters: vec![],
                cxx_name: None,
                inherit: false,
            }),
        ],
    };
    let table = naming_table(&object).unwrap();
    assert_eq!(table.len(), 2);
    assert!(matches!(table[0], NamingTableEntry::Property(_)));
    assert!(matches!(table[1], NamingTableEntry::Signal(_)));
}

#[test]
fn naming_table_stops_at_the_first_fault() {
    let object = ParsedObject {
        ident: "MyObject".to_owned(),
        declarations: vec![
            Declaration::Property(property("number", None, true)),
            Declaration::Property(property("__", None, true)),
            Declaration::Property(property("!!!", None, true)),
        ],
    };
    assert_eq!(
        naming_table(&object),
        Err(NamingFailure { declaration: 1, error: NamingError::Empty })
    );
}

#[test]
fn setter_name_takes_the_pascal_case_of_the_source() {
    let names = CombinedIdent::setter_from_property("a_b_c", "a_b_c").unwrap();
    assert_eq!(names.cpp, "setABC");
    assert_eq!(names.rust, "set_a_b_c");
}
