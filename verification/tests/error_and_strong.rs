use core::fmt;

use knuckles::error::{ApiError, OnMissing};
use knuckles::Strong;

#[test]
fn test_on_missing() {
    let a: Option<i64> = None;

    match a.on_missing("a") {
        Ok(_) => assert!(false),
        Err(e) => assert_eq!(e.message(), "Missing optional attribute a."),
    }

    let a = Some(42);

    match a.on_missing("a") {
        Ok(n) => assert_eq!(n, 42),
        Err(_) => assert!(false),
    }
}

#[test]
fn missing_attribute_compares_by_name() {
    let a: Option<i64> = None;
    assert_eq!(
        a.on_missing("scan_status"),
        Err(ApiError::MissingAttribute("scan_status".to_owned())),
    );
}

struct MyString(String);

impl MyString {
    fn unchecked(value: impl Into<String>) -> MyString {
        MyString(value.into())
    }
}

impl Strong<String> for MyString {
    fn get(self) -> String {
        self.0
    }

    fn get_ref(&self) -> &String {
        &self.0
    }
}

impl fmt::Display for MyString {
    fn fmt(&self, fmt: &mut fmt::Formatter) -> fmt::Result {
        fmt.write_str(&self.0)
    }
}

#[test]
fn test_my_string() {
    let a = MyString::unchecked("abc");

    assert_eq!(a.get_ref(), "abc");
    assert_eq!(a.get(), "abc");
}

#[test]
fn test_fmt_my_string() {
    let a = MyString::unchecked("abc");

    assert_eq!(format!("{a}"), "abc");
}

struct MyI64(i64);

impl MyI64 {
    fn unchecked(value: impl Into<i64>) -> MyI64 {
        MyI64(value.into())
    }
}

impl Strong<i64> for MyI64 {
    fn get(self) -> i64 {
        self.0
    }

    fn get_ref(&self) -> &i64 {
        &self.0
    }
}

#[test]
fn test_my_i64() {
    let a = MyI64::unchecked(42);

    assert_eq!(a.get(), 42);
}
