use std::borrow::Cow;
use std::fmt;

use serde::de::{self, Deserialize, Deserializer, Visitor};
use tendermint_proto::serializers::cow_str::CowStr;

/// Reads a JSON string into a `CowStr`, through the library's choices
/// between borrowing and copying.
struct CowStrVisitor;

impl<'de> Visitor<'de> for CowStrVisitor {
    type Value = CowStr<'de>;

    fn expecting(&self, formatter: &mut fmt::Formatter<'_>) -> fmt::Result {
        formatter.write_str("a string")
    }

    fn visit_borrowed_str<E: de::Error>(self, value: &'de str) -> Result<Self::Value, E> {
        Ok(CowStr::from_borrowed_str(value))
    }

    fn visit_str<E: de::Error>(self, value: &str) -> Result<Self::Value, E> {
        Ok(CowStr::from_transient_str(value))
    }

    fn visit_string<E: de::Error>(self, value: String) -> Result<Self::Value, E> {
        Ok(CowStr::from_string(value))
    }
}

struct Borrowed(u32);

impl<'de> Deserialize<'de> for Borrowed {
    fn deserialize<D: Deserializer<'de>>(deserializer: D) -> Result<Self, D::Error> {
        let s = deserializer.deserialize_str(CowStrVisitor)?;
        assert!(s.is_borrowed());
        let value = s.as_str().parse().unwrap();
        assert!(matches!(s.into_inner(), Cow::Borrowed("2")));
        Ok(Borrowed(value))
    }
}

struct Owned(u32);

impl<'de> Deserialize<'de> for Owned {
    fn deserialize<D: Deserializer<'de>>(deserializer: D) -> Result<Self, D::Error> {
        let s = deserializer.deserialize_str(CowStrVisitor)?;
        assert!(!s.is_borrowed());
        let value = s.as_str().parse().unwrap();
        assert!(matches!(s.into_inner(), Cow::Owned(ref o) if o == "2"));
        Ok(Owned(value))
    }
}

#[test]
fn borrowed() {
    let v = serde_json::from_str::<Borrowed>("\"2\"").unwrap();
    assert_eq!(v.0, 2);
}

#[test]
fn owned() {
    let json_value = serde_json::from_str::<serde_json::Value>("\"2\"").unwrap();
    let v = serde_json::from_value::<Owned>(json_value).unwrap();
    assert_eq!(v.0, 2);
}

#[test]
fn cow_str_keeps_text() {
    let s = CowStr::from_transient_str("héllo");
    assert_eq!(s.as_str(), "héllo");
    assert!(!s.is_borrowed());
    let s = CowStr::from_string("x".to_string());
    assert_eq!(s.into_inner(), "x");
    let b = CowStr::from_borrowed_str("y");
    assert!(b.is_borrowed());
    assert_eq!(b.as_str(), "y");
}

#[test]
fn cow_str_conversions_keep_borrowing() {
    let c: Cow<'_, str> = Cow::Borrowed("abc");
    let back: Cow<'_, str> = CowStr::from(c.clone()).into();
    assert!(matches!(back, Cow::Borrowed("abc")));
    assert!(matches!(CowStr::new(c).into_inner(), Cow::Borrowed("abc")));
    let o: Cow<'_, str> = Cow::Owned("xyz".to_string());
    assert!(matches!(CowStr::from(o).into_inner(), Cow::Owned(ref s) if s == "xyz"));
}
