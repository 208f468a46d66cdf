//! The encoder driven end to end through `encode`, one value per test.

use json_fmt::model::Value;
use json_fmt::ser::encode;

fn s(t: &str) -> String {
    String::from(t)
}

fn string_value(t: &str) -> Value {
    Value::Str(s(t))
}

fn record(name: &str, fields: Vec<(&str, Value)>) -> Value {
    Value::Record(s(name), fields.into_iter().map(|(k, v)| (s(k), v)).collect())
}

#[test]
fn array() {
    let v = Value::Array(vec![Value::I32(0), Value::I32(1), Value::I32(2)]);
    assert_eq!(encode(&v), "[0,1,2]");
}

#[test]
fn bool() {
    assert_eq!(encode(&Value::Bool(true)), "true");
}

#[test]
fn enum_() {
    let boolean = Value::UnitVariant(s("Type"), s("boolean"));
    let number = Value::UnitVariant(s("Type"), s("number"));

    assert_eq!(encode(&boolean), r#""boolean""#);

    assert_eq!(encode(&number), r#""number""#);
}

#[test]
fn str() {
    assert_eq!(encode(&string_value("hello")), r#""hello""#);
    assert_eq!(encode(&string_value("")), r#""""#);

    // Characters unescaped if possible
    assert_eq!(encode(&string_value("√§")), r#""√§""#);
    assert_eq!(encode(&string_value("‡ß¨")), r#""‡ß¨""#);
    assert_eq!(encode(&string_value("‚Ñù")), r#""‚Ñù""#); // 3 byte character
    assert_eq!(encode(&string_value("üí£")), r#""üí£""#); // 4 byte character

    // " and \ must be escaped
    assert_eq!(encode(&string_value("foo\"bar")), r#""foo\"bar""#);
    assert_eq!(encode(&string_value("foo\\bar")), r#""foo\\bar""#);

    // \b, \t, \n, \f, \r must be escaped in their two-character escaping
    assert_eq!(encode(&string_value(" \u{8} ")), r#"" \b ""#);
    assert_eq!(encode(&string_value(" \u{9} ")), r#"" \t ""#);
    assert_eq!(encode(&string_value(" \u{A} ")), r#"" \n ""#);
    assert_eq!(encode(&string_value(" \u{C} ")), r#"" \f ""#);
    assert_eq!(encode(&string_value(" \u{D} ")), r#"" \r ""#);

    // U+0000 through U+001F is escaped using six-character \u00xx sequences
    assert_eq!(encode(&string_value(" \u{00} ")), r#"" \u0000 ""#);
    assert_eq!(encode(&string_value(" \u{01} ")), r#"" \u0001 ""#);
    assert_eq!(encode(&string_value(" \u{07} ")), r#"" \u0007 ""#);
    assert_eq!(encode(&string_value(" \u{0e} ")), r#"" \u000e ""#);
    assert_eq!(encode(&string_value(" \u{1D} ")), r#"" \u001d ""#);
    assert_eq!(encode(&string_value(" \u{1f} ")), r#"" \u001f ""#);
}

#[test]
fn struct_bool() {
    let led = record("Led", vec![("led", Value::Bool(true))]);
    assert_eq!(encode(&led), r#"{"led":true}"#);
}

#[test]
fn struct_i8() {
    let t = |v: i8| record("Temperature", vec![("temperature", Value::I8(v))]);

    assert_eq!(encode(&t(127)), r#"{"temperature":127}"#);

    assert_eq!(encode(&t(20)), r#"{"temperature":20}"#);

    assert_eq!(encode(&t(-17)), r#"{"temperature":-17}"#);

    assert_eq!(encode(&t(-128)), r#"{"temperature":-128}"#);
}

#[test]
fn struct_f32() {
    // Floats enter the data model as pre-formatted byte tokens; ryu gives
    // the shortest round-trip digits.
    let t = |v: f32| {
        let mut buffer = ryu::Buffer::new();
        let token = buffer.format(v).as_bytes().to_vec();
        record("Temperature", vec![("temperature", Value::Bytes(token))])
    };

    assert_eq!(encode(&t(-20.)), r#"{"temperature":-20.0}"#);

    assert_eq!(encode(&t(-20345.)), r#"{"temperature":-20345.0}"#);

    assert_eq!(encode(&t(-2.3456789012345e-23)), r#"{"temperature":-2.3456788e-23}"#);
}

#[test]
fn struct_option() {
    let some = record(
        "Property",
        vec![(
            "description",
            Value::Present(Box::new(string_value("An ambient temperature sensor"))),
        )],
    );
    assert_eq!(encode(&some), r#"{"description":"An ambient temperature sensor"}"#);

    let none = record("Property", vec![("description", Value::Absent)]);
    assert_eq!(encode(&none), r#"{"description":null}"#);
}

#[test]
fn struct_u8() {
    let t = record("Temperature", vec![("temperature", Value::U8(20))]);
    assert_eq!(encode(&t), r#"{"temperature":20}"#);
}

#[test]
fn struct_() {
    let empty = record("Empty", vec![]);
    assert_eq!(encode(&empty), r#"{}"#);

    let two = record("Tuple", vec![("a", Value::Bool(true)), ("b", Value::Bool(false))]);
    assert_eq!(encode(&two), r#"{"a":true,"b":false}"#);
}

#[test]
fn test_unit() {
    let a = Value::Unit;
    assert_eq!(encode(&a), r#"null"#);
}

#[test]
fn test_newtype_struct() {
    let a = Value::NewtypeRecord(s("A"), Box::new(Value::U32(54)));
    assert_eq!(encode(&a), r#"54"#);
}

#[test]
fn test_newtype_variant() {
    let a = Value::NewtypeVariant(s("A"), s("A"), Box::new(Value::U32(54)));

    assert_eq!(encode(&a), r#"{"A":54}"#);
}

#[test]
fn test_struct_variant() {
    let a = Value::VariantRecord(
        s("A"),
        s("A"),
        vec![(s("x"), Value::U32(54)), (s("y"), Value::U16(720))],
    );

    assert_eq!(encode(&a), r#"{"A":{"x":54,"y":720}}"#);
}

#[test]
fn test_serialize_bytes() {
    let simple_decimal = |v: f32| Value::Bytes(format!("{:.2}", v).into_bytes());

    let sd1 = simple_decimal(1.55555);
    assert_eq!(encode(&sd1), r#"1.56"#);

    let sd2 = simple_decimal(0.000);
    assert_eq!(encode(&sd2), r#"0.00"#);

    let sd3 = simple_decimal(22222.777777);
    assert_eq!(encode(&sd3), r#"22222.78"#);
}
