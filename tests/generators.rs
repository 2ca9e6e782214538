use greet_gen::{
    add_greet, add_greet_from, greet, greet2, greet2_from, greet2_template, greet_derive,
    greet_derive_from, greet_from, greet_template, impl_block, Attr, Body, ConfigError, Declaration,
    GenError, MetaArg,
};

const PERSON: &str = "struct Person { name: String, age: u32, }";

fn person_impl(ident: &str, lit: &str) -> String {
    format!(
        "impl {} {{\n    fn greet(&self) {{\n        println!({}, name = self.name, age = self.age);\n    }}\n}}\n",
        ident, lit
    )
}

fn config_errors(r: Result<String, GenError>) -> Vec<ConfigError> {
    match r {
        Err(GenError::Config(e)) => e,
        other => panic!("expected a configuration error, got {:?}", other),
    }
}

#[test]
fn add_greet_keeps_struct_and_adds_method() {
    let out = add_greet(PERSON).unwrap();
    let expected = format!(
        "{}\n{}",
        PERSON,
        person_impl(
            "Person",
            "\"Hello, my name is {name} and I am {age} years old.\""
        )
    );
    assert_eq!(out, expected);
}

#[test]
fn add_greet_refuses_enum() {
    let r = add_greet("enum Shape { Circle, Square }");
    assert!(matches!(r, Err(GenError::OnlyStructs)));
}

#[test]
fn add_greet_refuses_union() {
    let r = add_greet("union U { a: u32, b: f32 }");
    assert!(matches!(r, Err(GenError::OnlyStructs)));
}

#[test]
fn add_greet_refuses_text_that_is_no_declaration() {
    assert!(matches!(add_greet("fn main() {}"), Err(GenError::Parse(_))));
    assert!(matches!(add_greet(""), Err(GenError::Parse(_))));
}

#[test]
fn greet_derive_adds_method_only() {
    let out = greet_derive("struct PerSon { name: String, age: u32 }").unwrap();
    assert_eq!(
        out,
        person_impl(
            "PerSon",
            "\"Hello, my name is {name} and I am {age} years old.\""
        )
    );
}

#[test]
fn greet_derive_does_not_ask_for_a_struct() {
    let out = greet_derive("enum E { A }").unwrap();
    assert!(out.starts_with("impl E {"));
}

#[test]
fn greet_attribute_keeps_item_and_uses_content() {
    let args = "content = \"Hello, my name is {name}  and I a {age} years old.\"";
    let out = greet(args, PERSON).unwrap();
    let expected = format!(
        "{}\n{}",
        PERSON,
        person_impl(
            "Person",
            "\"Hello, my name is {name}  and I a {age} years old.\""
        )
    );
    assert_eq!(out, expected);
}

#[test]
fn greet_attribute_escapes_quotes_in_template() {
    let out = greet("content = \"say \\\"hi\\\" {name}\"", PERSON).unwrap();
    assert!(out.ends_with(&person_impl("Person", "\"say \\\"hi\\\" {name}\"")));
}

#[test]
fn greet_attribute_missing_content() {
    let e = config_errors(greet("", PERSON));
    assert_eq!(e.len(), 1);
    assert!(matches!(&e[0], ConfigError::MissingField(k) if k == "content"));
}

#[test]
fn greet_attribute_unknown_option_and_missing_content() {
    let e = config_errors(greet("other = \"x\"", PERSON));
    assert_eq!(e.len(), 2);
    assert!(matches!(&e[0], ConfigError::UnknownField(k) if k == "other"));
    assert!(matches!(&e[1], ConfigError::MissingField(k) if k == "content"));
}

#[test]
fn greet_attribute_duplicate_content() {
    let e = config_errors(greet("content = \"a\", content = \"b\"", PERSON));
    assert_eq!(e.len(), 1);
    assert!(matches!(&e[0], ConfigError::DuplicateField(k) if k == "content"));
}

#[test]
fn greet_attribute_content_not_a_string() {
    let e = config_errors(greet("content = 3", PERSON));
    assert_eq!(e.len(), 1);
    assert!(matches!(&e[0], ConfigError::InvalidValue(k) if k == "content"));
}

#[test]
fn greet_attribute_bare_literal() {
    let e = config_errors(greet("\"x\"", PERSON));
    assert_eq!(e.len(), 2);
    assert!(matches!(&e[0], ConfigError::UnsupportedLiteral));
    assert!(matches!(&e[1], ConfigError::MissingField(k) if k == "content"));
}

#[test]
fn greet_attribute_unreadable_arguments() {
    assert!(matches!(greet("= =", PERSON), Err(GenError::InvalidArguments(_))));
}

#[test]
fn greet_attribute_bad_item() {
    assert!(matches!(greet("content = \"x\"", "let x = 1;"), Err(GenError::Parse(_))));
}

#[test]
fn greet2_reads_companion_attribute() {
    let item = "#[greet2(content = \"Hello, my name is {name}  and I a {age} years old.\")] struct Person { name: String, age: u32 }";
    let out = greet2(item).unwrap();
    assert_eq!(
        out,
        person_impl(
            "Person",
            "\"Hello, my name is {name}  and I a {age} years old.\""
        )
    );
}

#[test]
fn greet2_without_companion_attribute_is_structured_error() {
    let e = config_errors(greet2("#[derive(Debug)] struct Person { name: String, age: u32 }"));
    assert_eq!(e.len(), 1);
    assert!(matches!(&e[0], ConfigError::MissingField(k) if k == "content"));
}

#[test]
fn greet2_name_value_attribute_is_malformed() {
    let e = config_errors(greet2("#[greet2 = \"x\"] struct Person { name: String, age: u32 }"));
    assert_eq!(e.len(), 2);
    assert!(matches!(&e[0], ConfigError::MalformedAttribute));
    assert!(matches!(&e[1], ConfigError::MissingField(k) if k == "content"));
}

#[test]
fn greet2_content_in_two_attributes_is_duplicate() {
    let item = "#[greet2(content = \"a\")] #[greet2(content = \"b\")] struct P { name: String, age: u32 }";
    let e = config_errors(greet2(item));
    assert_eq!(e.len(), 1);
    assert!(matches!(&e[0], ConfigError::DuplicateField(k) if k == "content"));
}

#[test]
fn generators_repeat_their_output() {
    assert_eq!(add_greet(PERSON).unwrap(), add_greet(PERSON).unwrap());
    assert_eq!(greet_derive(PERSON).unwrap(), greet_derive(PERSON).unwrap());
    let args = "content = \"Hi {name}\"";
    assert_eq!(greet(args, PERSON).unwrap(), greet(args, PERSON).unwrap());
    let item = "#[greet2(content = \"Hi {name}\")] struct P { name: String, age: u32 }";
    assert_eq!(greet2(item).unwrap(), greet2(item).unwrap());
}

#[test]
fn add_greet_keeps_visibility_attributes_and_generics() {
    let item = "#[derive(Debug)] pub struct P<T> { pub name: T, age: u32 }";
    let out = add_greet(item).unwrap();
    assert!(out.starts_with(&format!("{}\n", item)));
    assert!(out.ends_with("age = self.age);\n    }\n}\n"));
}

fn decl(ident: &str, body: Body, attrs: Vec<Attr>) -> Result<Declaration, String> {
    Ok(Declaration { ident: ident.to_string(), body, attrs })
}

fn content(t: &str) -> MetaArg {
    MetaArg::Named { key: "content".to_string(), value: Some(t.to_string()) }
}

#[test]
fn impl_block_text() {
    assert_eq!(impl_block("P", "\"x\""), person_impl("P", "\"x\""));
}

#[test]
fn add_greet_from_struct() {
    let d = decl("Person", Body::Struct(vec!["name : String".to_string()]), vec![]);
    let out = add_greet_from("struct Person { name: String }", &d, "\"T\"").unwrap();
    assert_eq!(out, format!("struct Person {{ name: String }}\n{}", person_impl("Person", "\"T\"")));
}

#[test]
fn add_greet_from_enum_and_unreadable() {
    let d = decl("Shape", Body::Enum, vec![]);
    assert!(matches!(add_greet_from("enum Shape { A }", &d, "\"T\""), Err(GenError::OnlyStructs)));
    let d = decl("U", Body::Union, vec![]);
    assert!(matches!(add_greet_from("union U { a: u8 }", &d, "\"T\""), Err(GenError::OnlyStructs)));
    let bad: Result<Declaration, String> = Err("expected `struct`".to_string());
    assert!(matches!(add_greet_from("x", &bad, "\"T\""), Err(GenError::Parse(m)) if m == "expected `struct`"));
}

#[test]
fn greet_derive_from_any_declaration() {
    let d = decl("E", Body::Enum, vec![]);
    assert_eq!(greet_derive_from(&d, "\"T\"").unwrap(), person_impl("E", "\"T\""));
    let bad: Result<Declaration, String> = Err("oops".to_string());
    assert!(matches!(greet_derive_from(&bad, "\"T\""), Err(GenError::Parse(m)) if m == "oops"));
}

#[test]
fn greet_template_from_read_arguments() {
    assert_eq!(greet_template(&Ok(vec![content("Hi {name}")])).unwrap(), "Hi {name}");
    let r = greet_template(&Err("unexpected token".to_string()));
    assert!(matches!(r, Err(GenError::InvalidArguments(m)) if m == "unexpected token"));
    let e = config_errors(greet_template(&Ok(vec![])));
    assert!(matches!(&e[..], [ConfigError::MissingField(k)] if k == "content"));
}

#[test]
fn greet_from_template_and_declaration() {
    let d = decl("P", Body::Struct(vec![]), vec![]);
    let out = greet_from(Ok("Hi".to_string()), "struct P {}", &d, "\"Hi\"").unwrap();
    assert_eq!(out, format!("struct P {{}}\n{}", person_impl("P", "\"Hi\"")));
    let r = greet_from(Err(GenError::OnlyStructs), "struct P {}", &d, "");
    assert!(matches!(r, Err(GenError::OnlyStructs)));
    let bad: Result<Declaration, String> = Err("m".to_string());
    let r = greet_from(Ok("Hi".to_string()), "??", &bad, "\"Hi\"");
    assert!(matches!(r, Err(GenError::Parse(m)) if m == "m"));
}

fn attr(path: &str, args: Option<&str>) -> Attr {
    Attr { path: path.to_string(), args: args.map(|a| a.to_string()) }
}

#[test]
fn greet2_template_reads_only_greet2_attributes() {
    let attrs = vec![attr("derive", Some("Debug")), attr("greet2", Some("content = \"Hi\""))];
    let reads = vec![Ok(vec![MetaArg::Literal]), Ok(vec![content("Hi")])];
    assert_eq!(greet2_template(&attrs, &reads).unwrap(), "Hi");
}

#[test]
fn greet2_template_errors() {
    let attrs = vec![attr("greet2", None), attr("greet2", Some("??"))];
    let reads = vec![Ok(vec![content("ignored")]), Err("bad".to_string())];
    let e = config_errors(greet2_template(&attrs, &reads));
    assert_eq!(e.len(), 3);
    assert!(matches!(&e[0], ConfigError::MalformedAttribute));
    assert!(matches!(&e[1], ConfigError::MalformedAttribute));
    assert!(matches!(&e[2], ConfigError::MissingField(k) if k == "content"));
    let e = config_errors(greet2_template(&vec![], &vec![]));
    assert!(matches!(&e[..], [ConfigError::MissingField(k)] if k == "content"));
}

#[test]
fn greet2_from_declaration_and_template() {
    let d = decl("P", Body::Struct(vec![]), vec![]);
    assert_eq!(greet2_from(&d, Ok("Hi".to_string()), "\"Hi\"").unwrap(), person_impl("P", "\"Hi\""));
    let r = greet2_from(&d, Err(GenError::Config(vec![])), "");
    assert!(matches!(r, Err(GenError::Config(_))));
    let bad: Result<Declaration, String> = Err("m".to_string());
    assert!(matches!(greet2_from(&bad, Ok("Hi".to_string()), ""), Err(GenError::Parse(_))));
}
