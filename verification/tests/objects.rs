use workspace_server::object_literals::{
    ObjectLiteralSyntax, ObjectMember, PropertyValue, UseConsistentObjectLiterals,
    UseConsistentObjectLiteralsOptions,
};

fn explicit() -> UseConsistentObjectLiteralsOptions {
    UseConsistentObjectLiteralsOptions::new(ObjectLiteralSyntax::Explicit)
}

fn shorthand() -> UseConsistentObjectLiteralsOptions {
    UseConsistentObjectLiteralsOptions::new(ObjectLiteralSyntax::Shorthand)
}

fn property(name: &str, value: PropertyValue) -> ObjectMember {
    ObjectMember::Property { name: name.to_string(), value }
}

#[test]
fn options_default_to_explicit() {
    assert_eq!(ObjectLiteralSyntax::default(), ObjectLiteralSyntax::Explicit);
    assert_eq!(UseConsistentObjectLiteralsOptions::default(), explicit());
    assert_eq!(UseConsistentObjectLiteralsOptions::default().syntax(), ObjectLiteralSyntax::Explicit);
    assert_eq!(shorthand().syntax(), ObjectLiteralSyntax::Shorthand);
}

#[test]
fn explicit_style_reports_shorthand_properties_and_methods() {
    let member = ObjectMember::Shorthand { name: "foo".to_string() };
    assert_eq!(UseConsistentObjectLiterals::run(&member, &explicit()), Some("foo".to_string()));
    let member = ObjectMember::Method { name: "bar".to_string() };
    assert_eq!(UseConsistentObjectLiterals::run(&member, &explicit()), Some("bar".to_string()));
}

#[test]
fn explicit_style_accepts_written_out_properties() {
    let member = property("foo", PropertyValue::Identifier { name: "foo".to_string() });
    assert_eq!(UseConsistentObjectLiterals::run(&member, &explicit()), None);
    let member = property("bar", PropertyValue::Function);
    assert_eq!(UseConsistentObjectLiterals::run(&member, &explicit()), None);
    assert_eq!(UseConsistentObjectLiterals::run(&ObjectMember::Other, &explicit()), None);
}

#[test]
fn shorthand_style_accepts_shorthand_properties_and_methods() {
    let member = ObjectMember::Shorthand { name: "foo".to_string() };
    assert_eq!(UseConsistentObjectLiterals::run(&member, &shorthand()), None);
    let member = ObjectMember::Method { name: "bar".to_string() };
    assert_eq!(UseConsistentObjectLiterals::run(&member, &shorthand()), None);
    assert_eq!(UseConsistentObjectLiterals::run(&ObjectMember::Other, &shorthand()), None);
}

#[test]
fn shorthand_style_reports_properties_that_repeat_their_name() {
    let member = property("foo", PropertyValue::Identifier { name: "foo".to_string() });
    assert_eq!(UseConsistentObjectLiterals::run(&member, &shorthand()), Some("foo".to_string()));
    let member = property("foo", PropertyValue::Call { callee: "foo".to_string() });
    assert_eq!(UseConsistentObjectLiterals::run(&member, &shorthand()), Some("foo".to_string()));
}

#[test]
fn shorthand_style_reports_function_valued_properties() {
    let member = property("bar", PropertyValue::Function);
    assert_eq!(UseConsistentObjectLiterals::run(&member, &shorthand()), Some("bar".to_string()));
    let member = property("bar", PropertyValue::Identifier { name: "function".to_string() });
    assert_eq!(UseConsistentObjectLiterals::run(&member, &shorthand()), Some("bar".to_string()));
}

#[test]
fn shorthand_style_accepts_properties_with_other_values() {
    let member = property("foo", PropertyValue::Identifier { name: "bar".to_string() });
    assert_eq!(UseConsistentObjectLiterals::run(&member, &shorthand()), None);
    let member = property("foo", PropertyValue::Call { callee: "make".to_string() });
    assert_eq!(UseConsistentObjectLiterals::run(&member, &shorthand()), None);
    let member = property("foo", PropertyValue::Other);
    assert_eq!(UseConsistentObjectLiterals::run(&member, &shorthand()), None);
    let member = property("", PropertyValue::Identifier { name: "".to_string() });
    assert_eq!(UseConsistentObjectLiterals::run(&member, &shorthand()), Some(String::new()));
}

#[test]
fn diagnostic_titles() {
    assert_eq!(
        UseConsistentObjectLiterals::diagnostic(&shorthand()),
        "Use shorthand object property syntax whenever possible."
    );
    assert_eq!(
        UseConsistentObjectLiterals::diagnostic(&explicit()),
        "Always use explicit object property assignment syntax."
    );
}
