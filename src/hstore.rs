//! The composite representation: a map from text keys to optional text
//! values, in the layout of the key/value extension type.

use vstd::prelude::*;
use vstd::slice::{slice_subrange, slice_to_vec};
use vstd::utf8::*;

use crate::bytes::{
    be_bytes, be_value, lemma_be_bytes_len, lemma_be_round_trip, lemma_byte_caps, read_be, write_be,
};
use crate::codec::{truncated, was_null, FromSql, ToSql};
use crate::error::{ConversionError, Error, IsNull, WasNull};
use crate::primitive::{append_bytes, string_from_utf8};
use crate::session::SessionInfo;
use crate::text::str_eq;
use crate::types::Type;

verus! {

/// One entry as characters: a key and a value that may be absent.
pub type EntryView = (Seq<char>, Option<Seq<char>>);

pub open spec fn opt_view(v: Option<String>) -> Option<Seq<char>> {
    match v {
        Some(s) => Some(s@),
        None => None,
    }
}

pub open spec fn entry_view(e: (String, Option<String>)) -> EntryView {
    (e.0@, opt_view(e.1))
}

/// The map that inserting the entries of `s` in order gives: a later entry
/// replaces an earlier one of the same key.
pub open spec fn to_map(s: Seq<EntryView>) -> Map<Seq<char>, Option<Seq<char>>>
    decreases s.len(),
{
    if s.len() == 0 {
        Map::empty()
    } else {
        to_map(s.drop_last()).insert(s.last().0, s.last().1)
    }
}

/// No two entries of `s` share a key.
pub open spec fn keys_unique(s: Seq<EntryView>) -> bool {
    forall|i: int, j: int| 0 <= i < s.len() && 0 <= j < s.len() && i != j ==> s[i].0 != s[j].0
}

pub proof fn lemma_to_map_dom(s: Seq<EntryView>)
    ensures
        to_map(s).dom().finite(),
        forall|k: Seq<char>|
            #![trigger to_map(s).dom().contains(k)]
            to_map(s).dom().contains(k) <==> exists|i: int| 0 <= i < s.len() && s[i].0 == k,
    decreases s.len(),
{
    if s.len() > 0 {
        let p = s.drop_last();
        lemma_to_map_dom(p);
        assert forall|k: Seq<char>| to_map(s).dom().contains(k) <==> exists|i: int|
            0 <= i < s.len() && s[i].0 == k by {
            if to_map(p).dom().contains(k) {
                let i = choose|i: int| 0 <= i < p.len() && p[i].0 == k;
                assert(s[i].0 == k);
            }
            if exists|i: int| 0 <= i < s.len() && s[i].0 == k {
                let i = choose|i: int| 0 <= i < s.len() && s[i].0 == k;
                if i < s.len() - 1 {
                    assert(p[i].0 == k);
                }
            }
        }
    }
}

/// With distinct keys the map has one key per entry.
pub proof fn lemma_to_map_len(s: Seq<EntryView>)
    requires
        keys_unique(s),
    ensures
        to_map(s).dom().len() == s.len(),
    decreases s.len(),
{
    if s.len() > 0 {
        let p = s.drop_last();
        lemma_to_map_len(p);
        lemma_to_map_dom(p);
        if to_map(p).dom().contains(s.last().0) {
            let i = choose|i: int| 0 <= i < p.len() && p[i].0 == s.last().0;
            assert(s[i].0 == s[s.len() - 1].0);
        }
    }
}

/// Replacing the value of an entry with distinct keys is an insertion into
/// the map.
pub proof fn lemma_to_map_update(s: Seq<EntryView>, i: int, v: Option<Seq<char>>)
    requires
        keys_unique(s),
        0 <= i < s.len(),
    ensures
        to_map(s.update(i, (s[i].0, v))) == to_map(s).insert(s[i].0, v),
    decreases s.len(),
{
    let k = s[i].0;
    let t = s.update(i, (k, v));
    if i == s.len() - 1 {
        assert(t.drop_last() =~= s.drop_last());
        assert(to_map(t) =~= to_map(s).insert(k, v));
    } else {
        let p = s.drop_last();
        assert(t.drop_last() =~= p.update(i, (k, v)));
        lemma_to_map_update(p, i, v);
        assert(s.last().0 != k);
        assert(to_map(t) =~= to_map(s).insert(k, v));
    }
}

/// A map from text keys to optional text values. Entries keep the order in
/// which their keys were first inserted.
pub struct HstoreMap {
    entries: Vec<(String, Option<String>)>,
}

impl View for HstoreMap {
    type V = Map<Seq<char>, Option<Seq<char>>>;

    open spec fn view(&self) -> Map<Seq<char>, Option<Seq<char>>> {
        to_map(self.entries_spec())
    }
}

impl HstoreMap {
    /// The entries, in order.
    pub closed spec fn entries_spec(self) -> Seq<EntryView> {
        self.entries@.map_values(|e: (String, Option<String>)| entry_view(e))
    }

    #[verifier::type_invariant]
    closed spec fn inv(self) -> bool {
        keys_unique(self.entries_spec())
    }

    /// An empty map.
    pub fn new() -> (r: HstoreMap)
        ensures
            r.entries_spec() == Seq::<EntryView>::empty(),
            r@ == Map::<Seq<char>, Option<Seq<char>>>::empty(),
    {
        let r = HstoreMap { entries: Vec::new() };
        assert(r.entries_spec() =~= Seq::<EntryView>::empty());
        r
    }

    /// The number of entries.
    pub fn len(&self) -> (r: usize)
        ensures
            r == self.entries_spec().len(),
            r == self@.dom().len(),
    {
        proof {
            use_type_invariant(self);
            lemma_to_map_len(self.entries_spec());
        }
        self.entries.len()
    }

    /// The key and value of the `i`-th entry.
    pub fn entry(&self, i: usize) -> (r: (&str, Option<&str>))
        requires
            i < self.entries_spec().len(),
        ensures
            r.0@ == self.entries_spec()[i as int].0,
            r.1 is Some <==> self.entries_spec()[i as int].1 is Some,
            r.1 matches Some(v) ==> self.entries_spec()[i as int].1 == Some(v@),
    {
        let e = &self.entries[i];
        let v = match &e.1 {
            Some(s) => Some(s.as_str()),
            None => None,
        };
        (e.0.as_str(), v)
    }

    /// The position of the entry with key `key`, if any.
    fn find(&self, key: &str) -> (r: Option<usize>)
        ensures
            r matches Some(i) ==> i < self.entries_spec().len() && self.entries_spec()[i as int].0
                == key@,
            r is None ==> forall|i: int|
                0 <= i < self.entries_spec().len() ==> self.entries_spec()[i].0 != key@,
    {
        let mut i: usize = 0;
        while i < self.entries.len()
            invariant
                i <= self.entries@.len(),
                forall|j: int| 0 <= j < i ==> self.entries_spec()[j].0 != key@,
            decreases self.entries@.len() - i,
        {
            if str_eq(self.entries[i].0.as_str(), key) {
                return Some(i);
            }
            i += 1;
        }
        None
    }

    /// The value stored under `key`: `None` when the key is not there.
    pub fn get(&self, key: &str) -> (r: Option<Option<&str>>)
        ensures
            r is Some <==> self@.contains_key(key@),
            r matches Some(v) ==> opt_view_str(v) == self@[key@],
    {
        proof {
            use_type_invariant(self);
            lemma_to_map_dom(self.entries_spec());
        }
        match self.find(key) {
            Some(i) => {
                proof {
                    lemma_entry_value(self.entries_spec(), i as int);
                }
                let (_, v) = self.entry(i);
                Some(v)
            },
            None => None,
        }
    }

    /// Sets the value of `key`, replacing the value that it had.
    pub fn insert(&mut self, key: String, value: Option<String>)
        ensures
            final(self)@ == old(self)@.insert(key@, opt_view(value)),
            old(self)@.contains_key(key@) ==> final(self).entries_spec().len() == old(
                self,
            ).entries_spec().len(),
            !old(self)@.contains_key(key@) ==> final(self).entries_spec() == old(
                self,
            ).entries_spec().push((key@, opt_view(value))),
    {
        proof {
            use_type_invariant(&*self);
            lemma_to_map_dom(self.entries_spec());
        }
        let ghost s = self.entries_spec();
        let ghost e = (key@, opt_view(value));
        let found = self.find(key.as_str());
        let mut entries = Vec::new();
        std::mem::swap(&mut entries, &mut self.entries);
        assert(entries@.map_values(|e: (String, Option<String>)| entry_view(e)) == s);
        match found {
            Some(i) => {
                proof {
                    lemma_to_map_update(s, i as int, e.1);
                }
                entries.set(i, (key, value));
                assert(entries@.map_values(|e: (String, Option<String>)| entry_view(e)) =~= s.update(
                    i as int,
                    e,
                ));
            },
            None => {
                entries.push((key, value));
                assert(entries@.map_values(|e: (String, Option<String>)| entry_view(e)) =~= s.push(e));
                assert(s.push(e).drop_last() =~= s);
            },
        }
        self.entries = entries;
    }
}

pub open spec fn opt_view_str(v: Option<&str>) -> Option<Seq<char>> {
    match v {
        Some(s) => Some(s@),
        None => None,
    }
}

/// With distinct keys, the map holds the value of each entry under its key.
pub proof fn lemma_entry_value(s: Seq<EntryView>, i: int)
    requires
        keys_unique(s),
        0 <= i < s.len(),
    ensures
        to_map(s)[s[i].0] == s[i].1,
    decreases s.len(),
{
    if i < s.len() - 1 {
        let p = s.drop_last();
        lemma_entry_value(p, i);
        assert(s.last().0 != s[i].0);
    }
}

/// The payload of one entry: the key's byte length and bytes, then the
/// value's byte length and bytes, or `-1` for an absent value.
pub open spec fn entry_bytes(e: EntryView) -> Seq<u8> {
    let k = encode_utf8(e.0);
    be_bytes(k.len(), 4) + k + match e.1 {
        None => be_bytes(0xFFFF_FFFF, 4),
        Some(v) => be_bytes(encode_utf8(v).len(), 4) + encode_utf8(v),
    }
}

/// The payloads of the entries of `s`, one after the other.
pub open spec fn entries_bytes(s: Seq<EntryView>) -> Seq<u8>
    decreases s.len(),
{
    if s.len() == 0 {
        Seq::empty()
    } else {
        entry_bytes(s[0]) + entries_bytes(s.drop_first())
    }
}

/// Whether the lengths of an entry fit in signed 32-bit fields.
pub open spec fn entry_fits(e: EntryView) -> bool {
    &&& encode_utf8(e.0).len() <= i32::MAX
    &&& e.1 matches Some(v) ==> encode_utf8(v).len() <= i32::MAX
}

/// Whether the count and every length fit in signed 32-bit fields.
pub open spec fn entries_fit(s: Seq<EntryView>) -> bool {
    &&& s.len() <= i32::MAX
    &&& forall|i: int| 0 <= i < s.len() ==> entry_fits(#[trigger] s[i])
}

/// What encoding the entries `s` gives: the entry count, then the entries;
/// or a conversion error when a count or length does not fit.
pub open spec fn hstore_encoding(s: Seq<EntryView>) -> Result<Option<Seq<u8>>, Error> {
    if entries_fit(s) {
        Ok(Some(be_bytes(s.len(), 4) + entries_bytes(s)))
    } else {
        Err(Error::Conversion(ConversionError::TooLarge))
    }
}

pub proof fn lemma_entries_bytes_push(s: Seq<EntryView>, e: EntryView)
    ensures
        entries_bytes(s.push(e)) == entries_bytes(s) + entry_bytes(e),
    decreases s.len(),
{
    if s.len() == 0 {
        let t = s.push(e);
        assert(t.drop_first() =~= Seq::<EntryView>::empty());
        assert(t[0] == e);
        assert(entries_bytes(t) == entry_bytes(e) + entries_bytes(t.drop_first()));
        assert(entries_bytes(t) =~= entries_bytes(s) + entry_bytes(e));
    } else {
        let t = s.push(e);
        assert(t.drop_first() =~= s.drop_first().push(e));
        assert(t[0] == s[0]);
        lemma_entries_bytes_push(s.drop_first(), e);
        assert(entries_bytes(t) =~= entries_bytes(s) + entry_bytes(e));
    }
}

/// A length or count as a signed 32-bit field, or an error when it does
/// not fit.
pub fn downcast(len: usize) -> (r: Result<i32, Error>)
    ensures
        len <= i32::MAX ==> r == Ok::<i32, Error>(len as i32),
        len > i32::MAX ==> r == Err::<i32, Error>(Error::Conversion(ConversionError::TooLarge)),
{
    if len > i32::MAX as usize {
        Err(Error::Conversion(ConversionError::TooLarge))
    } else {
        Ok(len as i32)
    }
}

/// Whether the map representation converts to or from `ty`: the key/value
/// extension type, by name.
pub open spec fn is_hstore_type(ty: Type) -> bool {
    ty matches Type::Other(o) && o.spec_name() == "hstore"@
}

fn hstore_accepts(ty: &Type) -> (r: bool)
    ensures
        r == is_hstore_type(*ty),
{
    match ty {
        Type::Other(o) => str_eq(o.name(), "hstore"),
        _ => false,
    }
}

impl HstoreMap {
    /// Whether every count and length fits, checked before anything is
    /// written.
    fn check_sizes(&self) -> (r: Result<(), Error>)
        ensures
            r is Ok <==> entries_fit(self.entries_spec()),
            r is Err ==> r == Err::<(), Error>(Error::Conversion(ConversionError::TooLarge)),
    {
        let ghost s = self.entries_spec();
        let n = self.entries.len();
        if let Err(e) = downcast(n) {
            return Err(e);
        }
        let mut i: usize = 0;
        while i < n
            invariant
                n == self.entries@.len(),
                s == self.entries_spec(),
                n <= i32::MAX,
                i <= n,
                forall|j: int| 0 <= j < i ==> entry_fits(#[trigger] s[j]),
            decreases n - i,
        {
            let e = &self.entries[i];
            assert(s[i as int] == entry_view(self.entries@[i as int]));
            if let Err(x) = downcast(e.0.as_str().as_bytes().len()) {
                return Err(x);
            }
            if let Some(v) = &e.1 {
                if let Err(x) = downcast(v.as_str().as_bytes().len()) {
                    return Err(x);
                }
            }
            assert(entry_fits(s[i as int]));
            i += 1;
        }
        Ok(())
    }

    fn write_entries(&self, out: &mut Vec<u8>)
        ensures
            final(out)@ == old(out)@ + entries_bytes(self.entries_spec()),
    {
        let ghost s = self.entries_spec();
        let ghost before = out@;
        let n = self.entries.len();
        let mut i: usize = 0;
        assert(s.take(0) =~= Seq::<EntryView>::empty());
        while i < n
            invariant
                n == self.entries@.len(),
                s == self.entries_spec(),
                i <= n,
                out@ == before + entries_bytes(s.take(i as int)),
            decreases n - i,
        {
            let e = &self.entries[i];
            let ghost ev = s[i as int];
            assert(ev == entry_view(self.entries@[i as int]));
            let ghost start = out@;
            let kb = e.0.as_str().as_bytes();
            write_be(kb.len() as u64, 4, out);
            append_bytes(out, kb);
            match &e.1 {
                None => write_be(0xFFFF_FFFF, 4, out),
                Some(v) => {
                    let vb = v.as_str().as_bytes();
                    write_be(vb.len() as u64, 4, out);
                    append_bytes(out, vb);
                },
            }
            assert(out@ =~= start + entry_bytes(ev));
            proof {
                lemma_entries_bytes_push(s.take(i as int), ev);
                assert(s.take(i + 1) =~= s.take(i as int).push(ev));
            }
            i += 1;
        }
        assert(s.take(n as int) =~= s);
    }
}

impl ToSql for HstoreMap {
    open spec fn accepts_spec(ty: Type) -> bool {
        is_hstore_type(ty)
    }

    open spec fn encoding(&self) -> Result<Option<Seq<u8>>, Error> {
        hstore_encoding(self.entries_spec())
    }

    fn accepts(ty: &Type) -> (r: bool) {
        hstore_accepts(ty)
    }

    fn to_sql(&self, ty: &Type, out: &mut Vec<u8>, ctx: &SessionInfo) -> (r: Result<IsNull, Error>) {
        if let Err(e) = self.check_sizes() {
            return Err(e);
        }
        let ghost before = out@;
        write_be(self.entries.len() as u64, 4, out);
        self.write_entries(out);
        assert(out@ =~= before + (be_bytes(self.entries_spec().len(), 4) + entries_bytes(
            self.entries_spec(),
        )));
        Ok(IsNull::No)
    }
}

/// The first four bytes of `b` as a signed 32-bit number.
pub open spec fn be_i32(b: Seq<u8>) -> i32 {
    be_value(b.take(4)) as u32 as i32
}

/// Text of `len` bytes at the front of `b`, and what follows it.
pub open spec fn parse_text(b: Seq<u8>, len: nat) -> Result<(Seq<char>, Seq<u8>), Error> {
    if b.len() < len {
        truncated()
    } else if !valid_utf8(b.take(len as int)) {
        Err(Error::Conversion(ConversionError::InvalidUtf8))
    } else {
        Ok((decode_utf8(b.take(len as int)), b.skip(len as int)))
    }
}

/// One entry at the front of `b`, and what follows it. A negative value
/// length stands for an absent value; a negative key length is malformed.
pub open spec fn parse_entry(b: Seq<u8>) -> Result<(EntryView, Seq<u8>), Error> {
    if b.len() < 4 {
        truncated()
    } else if be_i32(b) < 0 {
        Err(Error::Conversion(ConversionError::InvalidLength))
    } else {
        match parse_text(b.skip(4), be_i32(b) as nat) {
            Err(e) => Err(e),
            Ok(kr) => {
                let rest = kr.1;
                if rest.len() < 4 {
                    truncated()
                } else if be_i32(rest) < 0 {
                    Ok(((kr.0, None), rest.skip(4)))
                } else {
                    match parse_text(rest.skip(4), be_i32(rest) as nat) {
                        Err(e) => Err(e),
                        Ok(vr) => Ok(((kr.0, Some(vr.0)), vr.1)),
                    }
                }
            },
        }
    }
}

/// `n` entries at the front of `b`.
pub open spec fn parse_entries(b: Seq<u8>, n: nat) -> Result<Seq<EntryView>, Error>
    decreases n,
{
    if n == 0 {
        Ok(Seq::empty())
    } else {
        match parse_entry(b) {
            Err(e) => Err(e),
            Ok(er) => match parse_entries(er.1, (n - 1) as nat) {
                Err(e) => Err(e),
                Ok(s) => Ok(seq![er.0] + s),
            },
        }
    }
}

/// The entries of a payload: a signed 32-bit count, then that many
/// entries; a negative count stands for none. Bytes after the last entry
/// are not read.
pub open spec fn parse_hstore(b: Seq<u8>) -> Result<Seq<EntryView>, Error> {
    if b.len() < 4 {
        truncated()
    } else {
        parse_entries(b.skip(4), if be_i32(b) < 0 { 0 } else { be_i32(b) as nat })
    }
}

pub open spec fn prepend(a: Seq<EntryView>, r: Result<Seq<EntryView>, Error>) -> Result<
    Seq<EntryView>,
    Error,
> {
    match r {
        Ok(s) => Ok(a + s),
        Err(e) => Err(e),
    }
}

fn read_i32_at(raw: &[u8], pos: usize) -> (r: i32)
    requires
        pos + 4 <= raw@.len(),
    ensures
        r == be_i32(raw@.skip(pos as int)),
{
    let w = slice_subrange(raw, pos, raw.len());
    let u = read_be(w, 4);
    proof {
        assert(w@.take(4) =~= raw@.skip(pos as int).take(4));
    }
    #[verifier::truncate] ((#[verifier::truncate] (u as u32)) as i32)
}

fn read_text_at(raw: &[u8], pos: usize, len: usize) -> (r: Result<(String, usize), Error>)
    requires
        pos <= raw@.len(),
    ensures
        match parse_text(raw@.skip(pos as int), len as nat) {
            Ok(tr) => r is Ok && r->Ok_0.0@ == tr.0 && r->Ok_0.1 <= raw@.len() && raw@.skip(
                r->Ok_0.1 as int,
            ) == tr.1,
            Err(e) => r == Err::<(String, usize), Error>(e),
        },
{
    if raw.len() - pos < len {
        return Err(Error::Conversion(ConversionError::Truncated));
    }
    let bytes = slice_to_vec(slice_subrange(raw, pos, pos + len));
    assert(bytes@ =~= raw@.skip(pos as int).take(len as int));
    match string_from_utf8(bytes) {
        Some(s) => {
            assert(raw@.skip((pos + len) as int) =~= raw@.skip(pos as int).skip(len as int));
            Ok((s, pos + len))
        },
        None => Err(Error::Conversion(ConversionError::InvalidUtf8)),
    }
}

fn read_entry(raw: &[u8], pos: usize) -> (r: Result<((String, Option<String>), usize), Error>)
    requires
        pos <= raw@.len(),
    ensures
        match parse_entry(raw@.skip(pos as int)) {
            Ok(er) => r is Ok && entry_view(r->Ok_0.0) == er.0 && r->Ok_0.1 <= raw@.len()
                && raw@.skip(r->Ok_0.1 as int) == er.1,
            Err(e) => r == Err::<((String, Option<String>), usize), Error>(e),
        },
{
    let ghost b = raw@.skip(pos as int);
    if raw.len() - pos < 4 {
        return Err(Error::Conversion(ConversionError::Truncated));
    }
    let klen = read_i32_at(raw, pos);
    if klen < 0 {
        return Err(Error::Conversion(ConversionError::InvalidLength));
    }
    assert(b.skip(4) =~= raw@.skip(pos + 4));
    let (key, after_key) = match read_text_at(raw, pos + 4, klen as usize) {
        Ok(x) => x,
        Err(e) => {
            return Err(e);
        },
    };
    if raw.len() - after_key < 4 {
        return Err(Error::Conversion(ConversionError::Truncated));
    }
    let vlen = read_i32_at(raw, after_key);
    assert(raw@.skip(after_key as int).skip(4) =~= raw@.skip(after_key + 4));
    if vlen < 0 {
        return Ok(((key, None), after_key + 4));
    }
    match read_text_at(raw, after_key + 4, vlen as usize) {
        Ok((val, after_value)) => Ok(((key, Some(val)), after_value)),
        Err(e) => Err(e),
    }
}

impl FromSql for HstoreMap {
    open spec fn accepts_spec(ty: Type) -> bool {
        is_hstore_type(ty)
    }

    open spec fn decodes(bytes: Seq<u8>, r: Result<HstoreMap, Error>) -> bool {
        match parse_hstore(bytes) {
            Ok(s) => r matches Ok(m) && m@ == to_map(s),
            Err(e) => r == Err::<HstoreMap, Error>(e),
        }
    }

    open spec fn decodes_null(r: Result<HstoreMap, Error>) -> bool {
        r == was_null::<HstoreMap>()
    }

    fn accepts(ty: &Type) -> (r: bool) {
        hstore_accepts(ty)
    }

    fn from_sql(ty: &Type, raw: &[u8], ctx: &SessionInfo) -> (r: Result<HstoreMap, Error>) {
        if raw.len() < 4 {
            return Err(Error::Conversion(ConversionError::Truncated));
        }
        let count = read_i32_at(raw, 0);
        assert(raw@.skip(0) =~= raw@);
        let n: usize = if count < 0 {
            0
        } else {
            count as usize
        };
        let mut map = HstoreMap::new();
        let mut pos: usize = 4;
        let mut i: usize = 0;
        let ghost acc: Seq<EntryView> = Seq::empty();
        assert(prepend(acc, parse_entries(raw@.skip(4), n as nat)) =~= parse_hstore(raw@)) by {
            match parse_entries(raw@.skip(4), n as nat) {
                Ok(s) => assert(acc + s =~= s),
                Err(_) => {},
            }
        }
        while i < n
            invariant
                i <= n,
                pos <= raw@.len(),
                parse_hstore(raw@) == prepend(acc, parse_entries(raw@.skip(pos as int), (n - i) as nat)),
                map@ == to_map(acc),
            decreases n - i,
        {
            match read_entry(raw, pos) {
                Err(e) => {
                    return Err(e);
                },
                Ok((kv, p)) => {
                    let ghost ev = entry_view(kv);
                    let ghost m = (n - i) as nat;
                    let ghost rest = raw@.skip(p as int);
                    proof {
                        match parse_entries(rest, (m - 1) as nat) {
                            Ok(s) => assert(acc + (seq![ev] + s) =~= acc.push(ev) + s),
                            Err(_) => {},
                        }
                        assert(acc.push(ev).drop_last() =~= acc);
                    }
                    let (k, v) = kv;
                    map.insert(k, v);
                    proof {
                        acc = acc.push(ev);
                    }
                    pos = p;
                    i += 1;
                },
            }
        }
        assert(acc + Seq::<EntryView>::empty() =~= acc);
        Ok(map)
    }

    fn from_sql_null(ty: &Type, ctx: &SessionInfo) -> (r: Result<HstoreMap, Error>) {
        Err(Error::WasNull(WasNull))
    }
}

proof fn lemma_be_i32_of_len(n: nat, rest: Seq<u8>)
    requires
        n <= i32::MAX,
    ensures
        be_i32(be_bytes(n, 4) + rest) == n,
        (be_bytes(n, 4) + rest).len() >= 4,
        (be_bytes(n, 4) + rest).skip(4) == rest,
{
    lemma_byte_caps();
    lemma_be_bytes_len(n, 4);
    lemma_be_round_trip(n, 4);
    let b = be_bytes(n, 4) + rest;
    assert(b.take(4) =~= be_bytes(n, 4));
    assert(b.skip(4) =~= rest);
}

proof fn lemma_be_i32_of_absent(rest: Seq<u8>)
    ensures
        be_i32(be_bytes(0xFFFF_FFFF, 4) + rest) < 0,
        (be_bytes(0xFFFF_FFFF, 4) + rest).len() >= 4,
        (be_bytes(0xFFFF_FFFF, 4) + rest).skip(4) == rest,
{
    lemma_byte_caps();
    lemma_be_bytes_len(0xFFFF_FFFF, 4);
    lemma_be_round_trip(0xFFFF_FFFF, 4);
    let b = be_bytes(0xFFFF_FFFF, 4) + rest;
    assert(b.take(4) =~= be_bytes(0xFFFF_FFFF, 4));
    assert(b.skip(4) =~= rest);
    let x: u32 = 0xFFFF_FFFF;
    assert((x as i32) < 0) by (bit_vector)
        requires
            x == 0xFFFF_FFFFu32,
    ;
}

proof fn lemma_parse_text_of(t: Seq<char>, rest: Seq<u8>)
    ensures
        parse_text(encode_utf8(t) + rest, encode_utf8(t).len()) == Ok::<(Seq<char>, Seq<u8>), Error>(
            (t, rest),
        ),
{
    let b = encode_utf8(t) + rest;
    assert(b.take(encode_utf8(t).len() as int) =~= encode_utf8(t));
    assert(b.skip(encode_utf8(t).len() as int) =~= rest);
    encode_utf8_valid_utf8(t);
    encode_utf8_decode_utf8(t);
}

proof fn lemma_parse_entry_of(e: EntryView, rest: Seq<u8>)
    requires
        entry_fits(e),
    ensures
        parse_entry(entry_bytes(e) + rest) == Ok::<(EntryView, Seq<u8>), Error>((e, rest)),
{
    let k = encode_utf8(e.0);
    let tail = match e.1 {
        None => be_bytes(0xFFFF_FFFF, 4),
        Some(v) => be_bytes(encode_utf8(v).len(), 4) + encode_utf8(v),
    } + rest;
    let b = entry_bytes(e) + rest;
    assert(b =~= be_bytes(k.len(), 4) + (k + tail));
    lemma_be_i32_of_len(k.len(), k + tail);
    lemma_parse_text_of(e.0, tail);
    match e.1 {
        None => {
            lemma_be_i32_of_absent(rest);
        },
        Some(v) => {
            let vb = encode_utf8(v);
            assert(tail =~= be_bytes(vb.len(), 4) + (vb + rest));
            lemma_be_i32_of_len(vb.len(), vb + rest);
            lemma_parse_text_of(v, rest);
        },
    }
}

proof fn lemma_parse_entries_of(s: Seq<EntryView>, rest: Seq<u8>)
    requires
        forall|i: int| 0 <= i < s.len() ==> entry_fits(#[trigger] s[i]),
    ensures
        parse_entries(entries_bytes(s) + rest, s.len()) == Ok::<Seq<EntryView>, Error>(s),
    decreases s.len(),
{
    if s.len() == 0 {
        assert(parse_entries(entries_bytes(s) + rest, 0) == Ok::<Seq<EntryView>, Error>(Seq::empty()));
        assert(s =~= Seq::<EntryView>::empty());
    } else {
        let t = s.drop_first();
        assert(forall|i: int| 0 <= i < t.len() ==> #[trigger] t[i] == s[i + 1]);
        assert(entries_bytes(s) + rest =~= entry_bytes(s[0]) + (entries_bytes(t) + rest));
        assert(entry_fits(s[0]));
        lemma_parse_entry_of(s[0], entries_bytes(t) + rest);
        lemma_parse_entries_of(t, rest);
        assert(seq![s[0]] + t =~= s);
    }
}

/// Decoding the payload that a sequence of entries encodes to gives the
/// same entries back.
pub proof fn lemma_hstore_round_trip(s: Seq<EntryView>)
    requires
        entries_fit(s),
    ensures
        hstore_encoding(s) == Ok::<Option<Seq<u8>>, Error>(
            Some(be_bytes(s.len(), 4) + entries_bytes(s)),
        ),
        parse_hstore(be_bytes(s.len(), 4) + entries_bytes(s)) == Ok::<Seq<EntryView>, Error>(s),
{
    lemma_be_i32_of_len(s.len(), entries_bytes(s));
    lemma_parse_entries_of(s, Seq::empty());
    assert(entries_bytes(s) + Seq::<u8>::empty() =~= entries_bytes(s));
}

/// A map that encodes without error decodes to the same map.
pub proof fn lemma_map_round_trip(m: HstoreMap, r: Result<HstoreMap, Error>)
    requires
        m.encoding() is Ok,
        m.encoding()->Ok_0 matches Some(b) && <HstoreMap as FromSql>::decodes(b, r),
    ensures
        r matches Ok(d) && d@ == m@,
{
    lemma_hstore_round_trip(m.entries_spec());
}

/// A map with a key, or a value, whose bytes do not fit in a signed 32-bit
/// length fails to encode with a conversion error.
pub proof fn lemma_oversized_entry(s: Seq<EntryView>, i: int)
    requires
        0 <= i < s.len(),
        encode_utf8(s[i].0).len() > i32::MAX || (s[i].1 matches Some(v) && encode_utf8(v).len()
            > i32::MAX),
    ensures
        hstore_encoding(s) == Err::<Option<Seq<u8>>, Error>(
            Error::Conversion(ConversionError::TooLarge),
        ),
{
    assert(!entry_fits(s[i]));
}

} // verus!
