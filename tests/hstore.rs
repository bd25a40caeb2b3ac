use pgtypes::hstore::downcast;
use pgtypes::{
    from_sql_checked, ConversionError, Error, HstoreMap, IsNull, Kind, Other, SessionInfo, ToSql,
    Type, WrongType,
};

fn hstore() -> Type {
    Type::Other(Other::new("hstore".to_string(), 16_400, Kind::Simple, "public".to_string()))
}

fn encode(m: &HstoreMap) -> (Result<IsNull, Error>, Vec<u8>) {
    let params: Vec<(String, String)> = Vec::new();
    let ctx = SessionInfo::new(&params);
    let mut out = Vec::new();
    let r = m.to_sql_checked(&hstore(), &mut out, &ctx);
    (r, out)
}

fn decode(raw: &[u8]) -> Result<HstoreMap, Error> {
    let params: Vec<(String, String)> = Vec::new();
    let ctx = SessionInfo::new(&params);
    from_sql_checked::<HstoreMap>(&hstore(), Some(raw), &ctx)
}

fn same(a: &HstoreMap, b: &HstoreMap) -> bool {
    if a.len() != b.len() {
        return false;
    }
    (0..a.len()).all(|i| {
        let (k, v) = a.entry(i);
        b.get(k) == Some(v)
    })
}

#[test]
fn empty_map_round_trip() {
    let m = HstoreMap::new();
    let (r, out) = encode(&m);
    assert_eq!(r, Ok(IsNull::No));
    assert_eq!(out, vec![0, 0, 0, 0]);
    let d = decode(&out).unwrap();
    assert_eq!(d.len(), 0);
}

#[test]
fn absent_value_round_trip() {
    let mut m = HstoreMap::new();
    m.insert("k".to_string(), None);
    let (r, out) = encode(&m);
    assert_eq!(r, Ok(IsNull::No));
    assert_eq!(
        out,
        vec![0, 0, 0, 1, 0, 0, 0, 1, b'k', 0xFF, 0xFF, 0xFF, 0xFF]
    );
    let d = decode(&out).unwrap();
    assert!(same(&m, &d));
    assert_eq!(d.get("k"), Some(None));
}

#[test]
fn empty_key_round_trip() {
    let mut m = HstoreMap::new();
    m.insert(String::new(), Some("v".to_string()));
    let (r, out) = encode(&m);
    assert_eq!(r, Ok(IsNull::No));
    assert_eq!(out, vec![0, 0, 0, 1, 0, 0, 0, 0, 0, 0, 0, 1, b'v']);
    let d = decode(&out).unwrap();
    assert!(same(&m, &d));
    assert_eq!(d.get(""), Some(Some("v")));
}

#[test]
fn several_entries_round_trip() {
    let mut m = HstoreMap::new();
    m.insert("a".to_string(), Some("1".to_string()));
    m.insert("ключ".to_string(), Some("значение".to_string()));
    m.insert("none".to_string(), None);
    m.insert("".to_string(), Some(String::new()));
    let (r, out) = encode(&m);
    assert_eq!(r, Ok(IsNull::No));
    let d = decode(&out).unwrap();
    assert_eq!(d.len(), 4);
    assert!(same(&m, &d));
}

#[test]
fn insert_replaces_value() {
    let mut m = HstoreMap::new();
    m.insert("a".to_string(), Some("1".to_string()));
    m.insert("a".to_string(), Some("2".to_string()));
    assert_eq!(m.len(), 1);
    assert_eq!(m.get("a"), Some(Some("2")));
    assert_eq!(m.get("b"), None);
}

#[test]
fn duplicate_wire_keys_keep_last() {
    let raw = vec![
        0, 0, 0, 2, 0, 0, 0, 1, b'a', 0, 0, 0, 1, b'1', 0, 0, 0, 1, b'a', 0, 0, 0, 1, b'2',
    ];
    let d = decode(&raw).unwrap();
    assert_eq!(d.len(), 1);
    assert_eq!(d.get("a"), Some(Some("2")));
}

#[test]
fn negative_count_is_empty() {
    let d = decode(&[0xFF, 0xFF, 0xFF, 0xFF]).unwrap();
    assert_eq!(d.len(), 0);
}

#[test]
fn truncated_entry_fails() {
    assert_eq!(
        decode(&[0, 0, 0, 1, 0, 0, 0, 5, b'a']).err(),
        Some(Error::Conversion(ConversionError::Truncated))
    );
    assert_eq!(
        decode(&[0, 0, 0]).err(),
        Some(Error::Conversion(ConversionError::Truncated))
    );
    assert_eq!(
        decode(&[0, 0, 0, 1, 0, 0, 0, 1, b'a']).err(),
        Some(Error::Conversion(ConversionError::Truncated))
    );
}

#[test]
fn negative_key_length_fails() {
    assert_eq!(
        decode(&[0, 0, 0, 1, 0xFF, 0xFF, 0xFF, 0xFF]).err(),
        Some(Error::Conversion(ConversionError::InvalidLength))
    );
}

#[test]
fn invalid_utf8_key_fails() {
    assert_eq!(
        decode(&[0, 0, 0, 1, 0, 0, 0, 1, 0xFF, 0xFF, 0xFF, 0xFF, 0xFF]).err(),
        Some(Error::Conversion(ConversionError::InvalidUtf8))
    );
}

#[test]
fn oversized_length_fails() {
    assert_eq!(downcast(5), Ok(5));
    assert_eq!(downcast(i32::MAX as usize), Ok(i32::MAX));
    assert_eq!(
        downcast(i32::MAX as usize + 1),
        Err(Error::Conversion(ConversionError::TooLarge))
    );
}

#[test]
fn hstore_accepts_by_name() {
    let m = HstoreMap::new();
    let params: Vec<(String, String)> = Vec::new();
    let ctx = SessionInfo::new(&params);
    let mut out = Vec::new();
    assert_eq!(
        m.to_sql_checked(&Type::Text, &mut out, &ctx),
        Err(Error::WrongType(WrongType(Type::Text)))
    );
    assert!(out.is_empty());
    assert!(<HstoreMap as ToSql>::accepts(&hstore()));
}
