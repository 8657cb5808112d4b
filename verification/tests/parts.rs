use sized_on_disk_derive::bounds::{add_trait_bounds, SIZE_CAPABILITY};
use sized_on_disk_derive::generate::GenerateError;
use sized_on_disk_derive::model::{
    copy_fields, copy_generics, copy_strings, Field, FieldId, GenericParam, Shape,
};
use sized_on_disk_derive::select::{has_marker, select_fields, IGNORE_MARKER};
use sized_on_disk_derive::sum::{sum_of_fields, SumExpression};
use sized_on_disk_derive::text::{decimal_text, join};
use sized_on_disk_derive::tokens::place_of;

fn field(name: &str, annotations: &[&str]) -> Field {
    Field {
        id: FieldId::Name(name.to_string()),
        declared_type: "u8".to_string(),
        annotations: annotations.iter().map(|a| a.to_string()).collect(),
    }
}

#[test]
fn constants_are_the_documented_names() {
    assert_eq!(SIZE_CAPABILITY, "crate::types::SizedOnDisk");
    assert_eq!(IGNORE_MARKER, "dignore");
}

#[test]
fn no_generics_stay_empty() {
    assert_eq!(add_trait_bounds(Vec::new()), Vec::<GenericParam>::new());
}

#[test]
fn only_type_parameters_get_the_bound() {
    let lifetime = GenericParam::Lifetime { name: "'a".to_string(), bounds: vec!["'b".to_string()] };
    let constant = GenericParam::Const { name: "N".to_string(), ty: "u8".to_string() };
    let bounded = add_trait_bounds(vec![
        lifetime.clone(),
        GenericParam::Type { name: "T".to_string(), bounds: Vec::new() },
        constant.clone(),
        GenericParam::Type { name: "U".to_string(), bounds: vec!["Copy".to_string()] },
    ]);
    assert_eq!(
        bounded,
        vec![
            lifetime,
            GenericParam::Type {
                name: "T".to_string(),
                bounds: vec!["crate::types::SizedOnDisk".to_string()]
            },
            constant,
            GenericParam::Type {
                name: "U".to_string(),
                bounds: vec!["Copy".to_string(), "crate::types::SizedOnDisk".to_string()]
            },
        ]
    );
}

#[test]
fn marker_is_found_among_annotations() {
    assert!(!has_marker(&field("a", &[]), "dignore"));
    assert!(has_marker(&field("a", &["dignore"]), "dignore"));
    assert!(has_marker(&field("a", &["x", "y", "dignore"]), "dignore"));
    assert!(!has_marker(&field("a", &["x", "y"]), "dignore"));
    assert!(has_marker(&field("a", &["x", "y"]), "y"));
    assert!(!has_marker(&field("a", &["dignor", "dignoree", ""]), "dignore"));
}

#[test]
fn selection_keeps_order_and_drops_marked_fields() {
    let fields = vec![
        field("a", &["dignore"]),
        field("b", &[]),
        field("c", &["other"]),
        field("d", &["other", "dignore"]),
        field("e", &[]),
    ];
    assert_eq!(
        select_fields(&fields, "dignore"),
        vec![field("b", &[]), field("c", &["other"]), field("e", &[])]
    );
    assert_eq!(
        select_fields(&fields, "other"),
        vec![field("a", &["dignore"]), field("b", &[]), field("e", &[])]
    );
    assert_eq!(select_fields(&fields, "none"), fields);
    assert_eq!(select_fields(&Vec::new(), "dignore"), Vec::<Field>::new());
}

#[test]
fn sum_has_one_term_for_each_selected_field() {
    let fields = vec![field("b", &[]), field("a", &["dignore"])];
    assert_eq!(
        sum_of_fields(&fields),
        SumExpression {
            terms: vec![FieldId::Name("b".to_string()), FieldId::Name("a".to_string())]
        }
    );
    assert_eq!(sum_of_fields(&Vec::new()), SumExpression { terms: Vec::new() });
}

#[test]
fn join_puts_the_separator_between_parts() {
    assert_eq!(join(&Vec::new(), ", "), "");
    assert_eq!(join(&vec!["a".to_string()], ", "), "a");
    assert_eq!(join(&vec!["a".to_string(), "b".to_string(), "c".to_string()], " + "), "a + b + c");
    assert_eq!(join(&vec!["".to_string(), "".to_string()], "-"), "-");
}

#[test]
fn decimal_text_writes_the_number() {
    assert_eq!(decimal_text(0), "0");
    assert_eq!(decimal_text(7), "7");
    assert_eq!(decimal_text(9), "9");
    assert_eq!(decimal_text(10), "10");
    assert_eq!(decimal_text(1234567890), "1234567890");
    assert_eq!(decimal_text(usize::MAX), usize::MAX.to_string());
}

#[test]
fn error_messages_name_what_went_wrong() {
    assert_eq!(
        GenerateError::UnsupportedShape { target: "Either".to_string() }.message(),
        "cannot derive SizedOnDisk for `Either`: enums and unions are not supported"
    );
    assert_eq!(
        GenerateError::NotADeclaration { message: "expected `struct`".to_string() }.message(),
        "cannot derive SizedOnDisk: expected `struct`"
    );
    assert_eq!(
        GenerateError::MalformedInput { fragment: "(".to_string() }.message(),
        "cannot derive SizedOnDisk: `(` cannot be read as tokens"
    );
}

#[test]
fn copies_are_equal_to_what_they_copy() {
    let strings = vec!["a".to_string(), "bc".to_string()];
    assert_eq!(copy_strings(&strings), strings);
    let fields = vec![field("a", &["x"]), field("b", &[])];
    assert_eq!(copy_fields(&fields), fields);
    let generics = vec![
        GenericParam::Lifetime { name: "'a".to_string(), bounds: vec!["'b".to_string()] },
        GenericParam::Type { name: "T".to_string(), bounds: vec!["Copy".to_string()] },
        GenericParam::Const { name: "N".to_string(), ty: "u8".to_string() },
    ];
    assert_eq!(copy_generics(&generics), generics);
    let shape = Shape::PositionalFields(fields);
    assert_eq!(shape.clone(), shape);
    assert_eq!(Shape::Union.clone(), Shape::Union);
}

#[test]
fn identities_compare_by_kind_and_value() {
    let a = FieldId::Name("a".to_string());
    assert!(a.same_as(&FieldId::Name("a".to_string())));
    assert!(!a.same_as(&FieldId::Name("b".to_string())));
    assert!(!a.same_as(&FieldId::Index(0)));
    assert!(FieldId::Index(3).same_as(&FieldId::Index(3)));
    assert!(!FieldId::Index(3).same_as(&FieldId::Index(4)));
    assert!(!FieldId::Index(0).same_as(&FieldId::Name("0".to_string())));
}

#[test]
fn place_of_finds_the_first_field_with_the_identity() {
    let fields = vec![field("a", &[]), field("b", &[]), field("a", &["x"])];
    assert_eq!(place_of(&fields, &FieldId::Name("a".to_string())), Some(0));
    assert_eq!(place_of(&fields, &FieldId::Name("b".to_string())), Some(1));
    assert_eq!(place_of(&fields, &FieldId::Name("c".to_string())), None);
    assert_eq!(place_of(&fields, &FieldId::Index(0)), None);
    assert_eq!(place_of(&Vec::new(), &FieldId::Index(0)), None);
}

#[test]
fn declared_fields_are_those_of_a_struct() {
    let fields = vec![field("a", &[])];
    assert_eq!(Shape::NamedFields(copy_fields(&fields)).declared_fields(), Some(&fields));
    assert_eq!(Shape::PositionalFields(Vec::new()).declared_fields(), Some(&Vec::new()));
    assert_eq!(Shape::NoFields.declared_fields(), None);
    assert_eq!(Shape::Variants.declared_fields(), None);
    assert_eq!(Shape::Union.declared_fields(), None);
}
