use pgtypes::{Kind, Other, Type, WrongType};

#[test]
fn from_oid_finds_builtins() {
    assert_eq!(Type::from_oid(16), Some(Type::Bool));
    assert_eq!(Type::from_oid(23), Some(Type::Int4));
    assert_eq!(Type::from_oid(1009), Some(Type::TextArray));
    assert_eq!(Type::from_oid(3904), Some(Type::Int4Range));
    assert_eq!(Type::from_oid(3838), Some(Type::EventTrigger));
}

#[test]
fn from_oid_unknown_is_none() {
    assert_eq!(Type::from_oid(0), None);
    assert_eq!(Type::from_oid(1), None);
    assert_eq!(Type::from_oid(99999), None);
    assert_eq!(Type::from_oid(u32::MAX), None);
}

#[test]
fn from_oid_of_oid_is_identity() {
    for oid in 0u32..5000 {
        if let Some(t) = Type::from_oid(oid) {
            assert_eq!(t.oid(), oid);
            assert_eq!(Type::from_oid(t.oid()), Some(t.clone()));
        }
    }
}

#[test]
fn builtin_count_is_complete() {
    let n = (0u32..5000).filter(|o| Type::from_oid(*o).is_some()).count();
    assert_eq!(n, 156);
}

#[test]
fn builtin_accessors() {
    assert_eq!(Type::Int4.oid(), 23);
    assert_eq!(Type::Int4.name(), "int4");
    assert_eq!(Type::Int4.schema(), "pg_catalog");
    assert_eq!(Type::Int4.kind(), Kind::Simple);
    assert_eq!(Type::Int4Array.kind(), Kind::Array(Type::Int4));
    assert_eq!(Type::Int2Vector.kind(), Kind::Array(Type::Int2));
    assert_eq!(Type::TsRange.kind(), Kind::Range(Type::Timestamp));
    assert_eq!(Type::Char.name(), "char");
    assert_eq!(Type::JsonbArray.oid(), 3807);
}

#[test]
fn other_descriptor_accessors() {
    let o = Other::new("hstore".to_string(), 16_400, Kind::Simple, "public".to_string());
    assert_eq!(o.name(), "hstore");
    assert_eq!(o.oid(), 16_400);
    assert_eq!(*o.kind(), Kind::Simple);
    assert_eq!(o.schema(), "public");
    let t = Type::Other(o.clone());
    assert_eq!(t.oid(), 16_400);
    assert_eq!(t.name(), "hstore");
    assert_eq!(t.schema(), "public");
    assert_eq!(t.kind(), Kind::Simple);
    assert_eq!(t.clone(), t);
}

#[test]
fn other_with_array_kind() {
    let elem = Type::Other(Other::new("mood".to_string(), 20_000, Kind::Simple, "app".to_string()));
    let arr = Other::new("_mood".to_string(), 20_001, Kind::Array(elem.clone()), "app".to_string());
    assert_eq!(*arr.kind(), Kind::Array(elem));
}

#[test]
fn other_equality_is_structural() {
    let a = Other::new("e".to_string(), 1, Kind::Simple, "s".to_string());
    let b = Other::new("e".to_string(), 1, Kind::Simple, "s".to_string());
    let c = Other::new("e".to_string(), 2, Kind::Simple, "s".to_string());
    assert_eq!(a, b);
    assert_ne!(a, c);
}

#[test]
fn display_omits_catalog_schema() {
    assert_eq!(Type::Int4.to_display_string(), "int4");
    let p = Type::Other(Other::new("mood".to_string(), 1, Kind::Simple, "public".to_string()));
    assert_eq!(p.to_display_string(), "mood");
    let c = Type::Other(Other::new("mood".to_string(), 1, Kind::Simple, "pg_catalog".to_string()));
    assert_eq!(c.to_display_string(), "mood");
}

#[test]
fn display_keeps_other_schema() {
    let t = Type::Other(Other::new("mood".to_string(), 1, Kind::Simple, "app".to_string()));
    assert_eq!(t.to_display_string(), "app.mood");
    let u = Type::Other(Other::new("mood".to_string(), 1, Kind::Simple, "Public".to_string()));
    assert_eq!(u.to_display_string(), "Public.mood");
}

#[test]
fn wrong_type_message() {
    let w = WrongType::new(Type::Int4);
    assert_eq!(
        w.to_display_string(),
        "cannot convert to or from a Postgres value of type `int4`"
    );
    assert_eq!(w.description(), "cannot convert to or from a Postgres value");
}

#[test]
fn separate_descriptors_with_equal_fields_are_equal() {
    let elem = || Type::Other(Other::new("mood".to_string(), 9, Kind::Simple, "app".to_string()));
    let a = Other::new("_mood".to_string(), 10, Kind::Array(elem()), "app".to_string());
    let b = Other::new("_mood".to_string(), 10, Kind::Array(elem()), "app".to_string());
    assert!(a == b);
    assert_eq!(Type::Other(a.clone()), Type::Other(b));
    let c = Other::new("_mood".to_string(), 10, Kind::Range(elem()), "app".to_string());
    assert!(a != c);
    let d = Other::new("_mood".to_string(), 10, Kind::Array(elem()), "public".to_string());
    assert!(a != d);
    let e = Other::new("_Mood".to_string(), 10, Kind::Array(elem()), "app".to_string());
    assert!(a != e);
}

#[test]
fn builtin_and_other_types_differ() {
    let o = Type::Other(Other::new("int4".to_string(), 23, Kind::Simple, "pg_catalog".to_string()));
    assert_ne!(o, Type::Int4);
    assert_ne!(Type::Int4, Type::Int8);
    assert_eq!(Kind::Array(Type::Int4), Kind::Array(Type::Int4));
    assert_ne!(Kind::Array(Type::Int4), Kind::Range(Type::Int4));
}
