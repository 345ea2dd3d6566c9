use serde::ser::SerializeStruct;
use throw::{Error, ErrorPoint, KvPair, StructuredError, ThrowContextValues};

type Result<T, E> = std::result::Result<T, Error<E>>;

fn assert_matches(expected: &str, actual: &str) {
    let expected = expected.replace("    ", "\t");
    let re = regex::Regex::new(&expected).expect("expected hardcoded regex to compile");
    assert!(
        re.is_match(actual),
        "expected error to match regex `\n{}\n`, but found `\n{}\n`",
        expected,
        actual
    );
}

fn here(line: u32, column: u32) -> ErrorPoint {
    ErrorPoint::__construct(line, column, "exceptions_work", "tests/exceptions_work.rs")
}

fn in_mod_test(line: u32, column: u32) -> ErrorPoint {
    ErrorPoint::__construct(line, column, "exceptions_work::mod_test", "tests/exceptions_work.rs")
}

fn shown<E: std::fmt::Display>(error: &Error<E>) -> String {
    error.render(&error.error().to_string())
}

fn shown_debug<E: std::fmt::Debug>(error: &Error<E>) -> String {
    error.render(&format!("{:?}", error.error()))
}

fn throw_static_message() -> Result<(), &'static str> {
    Err(Error::new("hi").propagate(here(22, 5)))
}

fn throw1() -> Result<(), ()> {
    Err(Error::new(()).propagate(here(26, 5)))
}

fn throw2() -> Result<(), ()> {
    match throw1() {
        Ok(v) => v,
        Err(e) => return Err(e.transform().propagate(here(30, 5))),
    }
    Ok(())
}

fn throw3() -> Result<(), ()> {
    match throw2() {
        Ok(v) => v,
        Err(e) => return Err(e.transform().propagate(here(35, 5))),
    }
    Ok(())
}

fn throw_with_context1() -> Result<(), &'static str> {
    let mut me = Error::new("Error with context");
    me.add_context("code", 78);
    me.add_context("application", "rust_core");
    Err(me.propagate(here(40, 5)))
}

fn throw_with_context2() -> Result<(), &'static str> {
    match throw_with_context1() {
        Ok(v) => v,
        Err(e) => {
            let mut me = e.transform().propagate(here(44, 5));
            me.add_context("project_secret", "omega");
            return Err(me);
        },
    }
    Ok(())
}

fn throw_with_context3() -> Result<(), &'static str> {
    match throw_with_context2() {
        Ok(v) => v,
        Err(e) => {
            let mut me = e.transform().propagate(here(49, 5));
            me.add_context("score", ThrowContextValues::Float64(0.75f64.to_string()));
            me.add_context("height", 948);
            return Err(me);
        },
    }
    Ok(())
}

fn gives_ok() -> Result<&'static str, &'static str> {
    Ok("ok")
}

fn throws_ok() -> Result<&'static str, &'static str> {
    let ok_msg = match gives_ok() {
        Ok(v) => v,
        Err(e) => return Err(e.transform().propagate(here(58, 18))),
    };
    Ok(ok_msg)
}

fn mod_test_throws() -> Result<(), &'static str> {
    Err(Error::new("ahhhh").propagate(in_mod_test(66, 9)))
}

fn throws_into() -> Result<(), String> {
    let r: std::result::Result<(), &'static str> = Err("some static string");
    match r {
        Ok(v) => v,
        Err(e) => return Err(Error::new(e.into()).propagate(here(71, 5))),
    }
    Ok(())
}

fn throws_into_key_value() -> Result<(), String> {
    let r: std::result::Result<(), &'static str> = Err("some static string");
    match r {
        Ok(v) => v,
        Err(e) => {
            let mut me = Error::new(e.into());
            me.add_context("key", "value");
            return Err(me.propagate(here(76, 5)));
        },
    }
    Ok(())
}

fn throws_into_multiple_key_value_pairs() -> Result<(), String> {
    let r: std::result::Result<(), &'static str> = Err("some static string");
    match r {
        Ok(v) => v,
        Err(e) => {
            let mut me = Error::new(e.into());
            me.add_context("key", "value");
            me.add_context("key2", "value2");
            me.add_context("key3", "value3");
            me.add_context("key4", "value4");
            return Err(me.propagate(here(81, 5)));
        },
    }
    Ok(())
}

struct JsonValue<'a>(&'a ThrowContextValues);

impl<'a> serde::Serialize for JsonValue<'a> {
    fn serialize<S: serde::Serializer>(&self, s: S) -> std::result::Result<S::Ok, S::Error> {
        match self.0 {
            ThrowContextValues::Bool(x) => s.serialize_bool(*x),
            ThrowContextValues::Int8(x) => s.serialize_i8(*x),
            ThrowContextValues::Uint8(x) => s.serialize_u8(*x),
            ThrowContextValues::Int16(x) => s.serialize_i16(*x),
            ThrowContextValues::Uint16(x) => s.serialize_u16(*x),
            ThrowContextValues::Int32(x) => s.serialize_i32(*x),
            ThrowContextValues::Uint32(x) => s.serialize_u32(*x),
            ThrowContextValues::Int64(x) => s.serialize_i64(*x),
            ThrowContextValues::Uint64(x) => s.serialize_u64(*x),
            ThrowContextValues::Float32(t) => s.serialize_f32(t.parse().unwrap()),
            ThrowContextValues::Float64(t) => s.serialize_f64(t.parse().unwrap()),
            ThrowContextValues::String(t) => s.serialize_str(t),
            ThrowContextValues::StaticStr(t) => s.serialize_str(t),
        }
    }
}

struct JsonPoint<'a>(&'a ErrorPoint);

impl<'a> serde::Serialize for JsonPoint<'a> {
    fn serialize<S: serde::Serializer>(&self, s: S) -> std::result::Result<S::Ok, S::Error> {
        let mut st = s.serialize_struct("ErrorPoint", 4)?;
        st.serialize_field("line", &self.0.line())?;
        st.serialize_field("column", &self.0.column())?;
        st.serialize_field("module_path", self.0.module())?;
        st.serialize_field("file", self.0.file())?;
        st.end()
    }
}

struct JsonKv<'a>(&'a KvPair);

impl<'a> serde::Serialize for JsonKv<'a> {
    fn serialize<S: serde::Serializer>(&self, s: S) -> std::result::Result<S::Ok, S::Error> {
        let mut st = s.serialize_struct("KvPair", 2)?;
        st.serialize_field("key", self.0.key())?;
        st.serialize_field("value", &JsonValue(self.0.value()))?;
        st.end()
    }
}

struct JsonError<'a>(&'a StructuredError);

impl<'a> serde::Serialize for JsonError<'a> {
    fn serialize<S: serde::Serializer>(&self, s: S) -> std::result::Result<S::Ok, S::Error> {
        let points: Vec<JsonPoint> = self.0.points.iter().map(JsonPoint).collect();
        let context: Vec<JsonKv> = self.0.context.iter().map(JsonKv).collect();
        let mut st = s.serialize_struct("Error", 3)?;
        st.serialize_field("points", &points)?;
        st.serialize_field("context", &context)?;
        st.serialize_field("error", self.0.error.as_str())?;
        st.end()
    }
}

fn to_json<E: std::fmt::Display>(error: &Error<E>) -> String {
    let structured = error.to_structured(&error.error().to_string());
    serde_json::to_string(&JsonError(&structured)).unwrap()
}

#[test]
fn exceptions_work_test_static_message() {
    let error = throw_static_message().unwrap_err();
    assert_eq!(*error.error(), "hi");
    assert_matches(
        r#"Error: hi
    at [0-9]+:[0-9] in exceptions_work \([a-z/._-]+\)"#,
        &shown(&error),
    );
    assert_eq!("hi".to_owned(), error.into_origin());
}

#[test]
fn serialize_json() {
    let error = throw_with_context3().unwrap_err();
    let json = to_json(&error);
    assert_eq!(
        r#"{"points":[{"line":40,"column":5,"module_path":"exceptions_work","file":"tests/exceptions_work.rs"},{"line":44,"column":5,"module_path":"exceptions_work","file":"tests/exceptions_work.rs"},{"line":49,"column":5,"module_path":"exceptions_work","file":"tests/exceptions_work.rs"}],"context":[{"key":"code","value":78},{"key":"application","value":"rust_core"},{"key":"project_secret","value":"omega"},{"key":"score","value":0.75},{"key":"height","value":948}],"error":"Error with context"}"#,
        json
    );
}

#[test]
fn test_throw_with_context() {
    let error = throw_with_context1().unwrap_err();
    assert_eq!(error.get_context().len(), 2);

    let error2 = throw_with_context3().unwrap_err();
    assert_eq!(error2.get_context().len(), 5);

    assert_matches(
        r#"Error: "Error with context"
    height: 948
	score: 0.75
	project_secret: omega
	application: rust_core
	code: 78
    at [0-9]+:[0-9] in exceptions_work \([a-z/._-]+\)
    at [0-9]+:[0-9] in exceptions_work \([a-z/._-]+\)
    at [0-9]+:[0-9] in exceptions_work \([a-z/._-]+\)"#,
        &shown_debug(&error2),
    );
}

#[test]
fn exceptions_work_test_multiple_throws() {
    let error = throw3().unwrap_err();
    assert_eq!(error.error(), &());
    assert_eq!(error.error(), error.original_error());
    assert_matches(
        r#"Error: \(\)
    at [0-9]+:[0-9] in exceptions_work \([a-z/._-]+\)
    at [0-9]+:[0-9] in exceptions_work \([a-z/._-]+\)
    at [0-9]+:[0-9] in exceptions_work \([a-z/._-]+\)"#,
        &shown_debug(&error),
    );
}

#[test]
fn exceptions_work_test_returns_ok() {
    let ok = throws_ok().unwrap();
    assert_eq!(ok, "ok");
}

#[test]
fn exceptions_work_test_mod_throw() {
    let error = mod_test_throws().unwrap_err();
    assert_matches(
        r#"Error: ahhhh
    at [0-9]+:[0-9] in exceptions_work::mod_test \([a-z/._-]+\)"#,
        &shown(&error),
    );
}

#[test]
fn exceptions_work_test_throws_into() {
    let error = throws_into().unwrap_err();
    assert_matches(
        r#"Error: some static string
    at [0-9]+:[0-9] in exceptions_work \([a-z/._-]+\)"#,
        &shown(&error),
    )
}

#[test]
fn test_throws_into_key_value() {
    let error = throws_into_key_value().unwrap_err();
    assert_matches(
        r#"Error: some static string
    key: value
    at [0-9]+:[0-9] in exceptions_work \([a-z/._-]+\)"#,
        &shown(&error),
    )
}

#[test]
fn test_throws_into_multiple_key_value_pairs() {
    let error = throws_into_multiple_key_value_pairs().unwrap_err();
    assert_matches(
        r#"Error: some static string
    key4: value4
    key3: value3
    key2: value2
    key: value
    at [0-9]+:[0-9] in exceptions_work \([a-z/._-]+\)"#,
        &shown(&error),
    )
}

#[test]
fn structured_form_round_trips_through_json() {
    let error = throw_with_context3().unwrap_err();
    let json = to_json(&error);
    let parsed: serde_json::Value = serde_json::from_str(&json).unwrap();
    let points = parsed["points"].as_array().unwrap();
    assert_eq!(points.len(), error.points().len());
    for (p, q) in points.iter().zip(error.points()) {
        assert_eq!(p["line"].as_u64().unwrap(), q.line() as u64);
        assert_eq!(p["column"].as_u64().unwrap(), q.column() as u64);
        assert_eq!(p["file"].as_str().unwrap(), q.file());
    }
    let context = parsed["context"].as_array().unwrap();
    assert_eq!(context.len(), error.get_context().len());
    for (c, kv) in context.iter().zip(error.get_context()) {
        assert_eq!(c["key"].as_str().unwrap(), kv.key());
        assert_eq!(c["value"].to_string().trim_matches('"'), kv.value().to_string());
    }
    assert_eq!(parsed["error"].as_str().unwrap(), error.error().to_string());
}
