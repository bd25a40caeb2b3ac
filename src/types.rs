//! The identity of wire types: the built-in catalog and descriptors for the
//! types that are not in it.

use std::sync::Arc;
use vstd::prelude::*;
use vstd::std_specs::cmp::PartialEqSpec;

use crate::text::str_eq;

verus! {

/// A numeric type identifier assigned by the server.
pub type Oid = u32;

/// The structural kind of a type.
#[derive(Debug, Eq)]
pub enum Kind {
    /// A simple type like `VARCHAR` or `INTEGER`.
    Simple,
    /// An array type along with the type of its elements.
    Array(Type),
    /// A range type along with the type of its elements.
    Range(Type),
}

/// A server type: a built-in one, or a descriptor of one that is not built in.
#[derive(Debug, Eq)]
pub enum Type {
    /// BOOL - boolean, 'true'/'false'
    Bool,
    /// BYTEA - variable-length string, binary values escaped
    Bytea,
    /// "char" - single character
    Char,
    /// NAME - 63-byte type for storing system identifiers
    Name,
    /// INT8/BIGINT - ~18 digit integer, 8-byte storage
    Int8,
    /// INT2/SMALLINT - -32 thousand to 32 thousand, 2-byte storage
    Int2,
    /// INT2VECTOR - array of int2, used in system tables
    Int2Vector,
    /// INT4/INT - -2 billion to 2 billion integer, 4-byte storage
    Int4,
    /// REGPROC - registered procedure
    Regproc,
    /// TEXT - variable-length string, no limit specified
    Text,
    /// OID - object identifier(oid), maximum 4 billion
    Oid,
    /// TID - (block, offset), physical location of tuple
    Tid,
    /// XID - transaction id
    Xid,
    /// CID - command identifier type, sequence in transaction id
    Cid,
    /// OIDVECTOR - array of oids, used in system tables
    OidVector,
    /// PG_TYPE
    PgType,
    /// PG_ATTRIBUTE
    PgAttribute,
    /// PG_PROC
    PgProc,
    /// PG_CLASS
    PgClass,
    /// JSON
    Json,
    /// XML - XML content
    Xml,
    /// XML[]
    XmlArray,
    /// PG_NODE_TREE - string representing an internal node tree
    PgNodeTree,
    /// JSON[]
    JsonArray,
    /// SMGR - storage manager
    Smgr,
    /// POINT - geometric point '(x, y)'
    Point,
    /// LSEG - geometric line segment '(pt1,pt2)'
    Lseg,
    /// PATH - geometric path '(pt1,...)'
    Path,
    /// BOX - geometric box '(lower left,upper right)'
    Box,
    /// POLYGON - geometric polygon '(pt1,...)'
    Polygon,
    /// LINE - geometric line
    Line,
    /// LINE[]
    LineArray,
    /// CIDR - network IP address/netmask, network address
    Cidr,
    /// CIDR[]
    CidrArray,
    /// FLOAT4/REAL - single-precision floating point number, 4-byte storage
    Float4,
    /// FLOAT8/DOUBLE PRECISION - double-precision floating point number, 8-byte storage
    Float8,
    /// ABSTIME - absolute, limited-range date and time (Unix system time)
    Abstime,
    /// RELTIME - relative, limited-range date and time (Unix delta time)
    Reltime,
    /// TINTERVAL - (abstime,abstime), time interval
    Tinterval,
    /// UNKNOWN
    Unknown,
    /// CIRCLE - geometric circle '(center,radius)'
    Circle,
    /// CIRCLE[]
    CircleArray,
    /// MONEY - monetary amounts, $d,ddd.cc
    Money,
    /// MONEY[]
    MoneyArray,
    /// MACADDR - XX:XX:XX:XX:XX:XX, MAC address
    Macaddr,
    /// INET - IP address/netmask, host address, netmask optional
    Inet,
    /// BOOL[]
    BoolArray,
    /// BYTEA[]
    ByteaArray,
    /// "char"[]
    CharArray,
    /// NAME[]
    NameArray,
    /// INT2[]
    Int2Array,
    /// INT2VECTOR[]
    Int2VectorArray,
    /// INT4[]
    Int4Array,
    /// REGPROC[]
    RegprocArray,
    /// TEXT[]
    TextArray,
    /// TID[]
    TidArray,
    /// XID[]
    XidArray,
    /// CID[]
    CidArray,
    /// OIDVECTOR[]
    OidVectorArray,
    /// BPCHAR[]
    BpcharArray,
    /// VARCHAR[]
    VarcharArray,
    /// INT8[]
    Int8Array,
    /// POINT[]
    PointArray,
    /// LSEG[]
    LsegArray,
    /// PATH[]
    PathArray,
    /// BOX[]
    BoxArray,
    /// FLOAT4[]
    Float4Array,
    /// FLOAT8[]
    Float8Array,
    /// ABSTIME[]
    AbstimeArray,
    /// RELTIME[]
    ReltimeArray,
    /// TINTERVAL[]
    TintervalArray,
    /// POLYGON[]
    PolygonArray,
    /// OID[]
    OidArray,
    /// ACLITEM - access control list
    Aclitem,
    /// ACLITEM[]
    AclitemArray,
    /// MACADDR[]
    MacaddrArray,
    /// INET[]
    InetArray,
    /// BPCHAR - char(length), blank-padded string, fixed storage length
    Bpchar,
    /// VARCHAR - varchar(length), non-blank-padded string, variable storage length
    Varchar,
    /// DATE - date
    Date,
    /// TIME - time of day
    Time,
    /// TIMESTAMP - date and time
    Timestamp,
    /// TIMESTAMP[]
    TimestampArray,
    /// DATE[]
    DateArray,
    /// TIME[]
    TimeArray,
    /// TIMESTAMPTZ - date and time with time zone
    TimestampTZ,
    /// TIMESTAMPTZ[]
    TimestampTZArray,
    /// INTERVAL - @ &lt;number&gt; &lt;units&gt;, time interval
    Interval,
    /// INTERVAL[]
    IntervalArray,
    /// NUMERIC[]
    NumericArray,
    /// CSTRING[]
    CstringArray,
    /// TIMETZ - time of day with time zone
    Timetz,
    /// TIMETZ[]
    TimetzArray,
    /// BIT - fixed-length bit string
    Bit,
    /// BIT[]
    BitArray,
    /// VARBIT - variable-length bit string
    Varbit,
    /// VARBIT[]
    VarbitArray,
    /// NUMERIC - numeric(precision, decimal), arbitrary precision number
    Numeric,
    /// REFCURSOR - reference to cursor (portal name)
    Refcursor,
    /// REFCURSOR[]
    RefcursorArray,
    /// REGPROCEDURE - registered procedure (with args)
    Regprocedure,
    /// REGOPER - registered operator
    Regoper,
    /// REGOPERATOR - registered operator (with args)
    Regoperator,
    /// REGCLASS - registered class
    Regclass,
    /// REGTYPE - registered type
    Regtype,
    /// REGPROCEDURE[]
    RegprocedureArray,
    /// REGOPER[]
    RegoperArray,
    /// REGOPERATOR[]
    RegoperatorArray,
    /// REGCLASS[]
    RegclassArray,
    /// REGTYPE[]
    RegtypeArray,
    /// RECORD
    Record,
    /// CSTRING
    Cstring,
    /// ANY
    Any,
    /// ANYARRAY
    AnyArray,
    /// VOID
    Void,
    /// TRIGGER
    Trigger,
    /// LANGUAGE_HANDLER
    LanguageHandler,
    /// INTERNAL
    Internal,
    /// OPAQUE
    Opaque,
    /// ANYELEMENT
    Anyelement,
    /// RECORD[]
    RecordArray,
    /// ANYNONARRAY
    Anynonarray,
    /// TXID_SNAPSHOT[]
    TxidSnapshotArray,
    /// UUID - UUID datatype
    Uuid,
    /// TXID_SNAPSHOT - txid snapshot
    TxidSnapshot,
    /// UUID[]
    UuidArray,
    /// FDW_HANDLER
    FdwHandler,
    /// PG_LSN - PostgreSQL LSN datatype
    PgLsn,
    /// PG_LSN[]
    PgLsnArray,
    /// ANYENUM
    Anyenum,
    /// TSVECTOR - text representation for text search
    Tsvector,
    /// TSQUERY - query representation for text search
    Tsquery,
    /// GTSVECTOR - GiST index internal text representation for text search
    Gtsvector,
    /// TSVECTOR[]
    TsvectorArray,
    /// GTSVECTOR[]
    GtsvectorArray,
    /// TSQUERY[]
    TsqueryArray,
    /// REGCONFIG - registered text search configuration
    Regconfig,
    /// REGCONFIG[]
    RegconfigArray,
    /// REGDICTIONARY - registered text search dictionary
    Regdictionary,
    /// REGDICTIONARY[]
    RegdictionaryArray,
    /// JSONB
    Jsonb,
    /// ANYRANGE
    Anyrange,
    /// JSONB[]
    JsonbArray,
    /// INT4RANGE - range of integers
    Int4Range,
    /// INT4RANGE[]
    Int4RangeArray,
    /// NUMRANGE - range of numerics
    NumRange,
    /// NUMRANGE[]
    NumRangeArray,
    /// TSRANGE - range of timestamps without time zone
    TsRange,
    /// TSRANGE[]
    TsRangeArray,
    /// TSTZRANGE - range of timestamps with time zone
    TstzRange,
    /// TSTZRANGE[]
    TstzRangeArray,
    /// DATERANGE - range of dates
    DateRange,
    /// DATERANGE[]
    DateRangeArray,
    /// INT8RANGE - range of bigints
    Int8Range,
    /// INT8RANGE[]
    Int8RangeArray,
    /// EVENT_TRIGGER
    EventTrigger,
    /// An unknown type.
    Other(Other),
}

impl Type {
    /// The row of the built-in catalog that describes this type: its OID,
    /// name and kind. Meaningful for built-in types only.
    pub open spec fn catalog(self) -> (u32, Seq<char>, Kind) {
        match self {
            Type::Bool => (16, "bool"@, Kind::Simple),
            Type::Bytea => (17, "bytea"@, Kind::Simple),
            Type::Char => (18, "char"@, Kind::Simple),
            Type::Name => (19, "name"@, Kind::Simple),
            Type::Int8 => (20, "int8"@, Kind::Simple),
            Type::Int2 => (21, "int2"@, Kind::Simple),
            Type::Int2Vector => (22, "int2vector"@, Kind::Array(Type::Int2)),
            Type::Int4 => (23, "int4"@, Kind::Simple),
            Type::Regproc => (24, "regproc"@, Kind::Simple),
            Type::Text => (25, "text"@, Kind::Simple),
            Type::Oid => (26, "oid"@, Kind::Simple),
            Type::Tid => (27, "tid"@, Kind::Simple),
            Type::Xid => (28, "xid"@, Kind::Simple),
            Type::Cid => (29, "cid"@, Kind::Simple),
            Type::OidVector => (30, "oidvector"@, Kind::Array(Type::Oid)),
            Type::PgType => (71, "pg_type"@, Kind::Simple),
            Type::PgAttribute => (75, "pg_attribute"@, Kind::Simple),
            Type::PgProc => (81, "pg_proc"@, Kind::Simple),
            Type::PgClass => (83, "pg_class"@, Kind::Simple),
            Type::Json => (114, "json"@, Kind::Simple),
            Type::Xml => (142, "xml"@, Kind::Simple),
            Type::XmlArray => (143, "_xml"@, Kind::Array(Type::Xml)),
            Type::PgNodeTree => (194, "pg_node_tree"@, Kind::Simple),
            Type::JsonArray => (199, "_json"@, Kind::Array(Type::Json)),
            Type::Smgr => (210, "smgr"@, Kind::Simple),
            Type::Point => (600, "point"@, Kind::Simple),
            Type::Lseg => (601, "lseg"@, Kind::Simple),
            Type::Path => (602, "path"@, Kind::Simple),
            Type::Box => (603, "box"@, Kind::Simple),
            Type::Polygon => (604, "polygon"@, Kind::Simple),
            Type::Line => (628, "line"@, Kind::Simple),
            Type::LineArray => (629, "_line"@, Kind::Array(Type::Line)),
            Type::Cidr => (650, "cidr"@, Kind::Simple),
            Type::CidrArray => (651, "_cidr"@, Kind::Array(Type::Cidr)),
            Type::Float4 => (700, "float4"@, Kind::Simple),
            Type::Float8 => (701, "float8"@, Kind::Simple),
            Type::Abstime => (702, "abstime"@, Kind::Simple),
            Type::Reltime => (703, "reltime"@, Kind::Simple),
            Type::Tinterval => (704, "tinterval"@, Kind::Simple),
            Type::Unknown => (705, "unknown"@, Kind::Simple),
            Type::Circle => (718, "circle"@, Kind::Simple),
            Type::CircleArray => (719, "_circle"@, Kind::Array(Type::Circle)),
            Type::Money => (790, "money"@, Kind::Simple),
            Type::MoneyArray => (791, "_money"@, Kind::Array(Type::Money)),
            Type::Macaddr => (829, "macaddr"@, Kind::Simple),
            Type::Inet => (869, "inet"@, Kind::Simple),
            Type::BoolArray => (1000, "_bool"@, Kind::Array(Type::Bool)),
            Type::ByteaArray => (1001, "_bytea"@, Kind::Array(Type::Bytea)),
            Type::CharArray => (1002, "_char"@, Kind::Array(Type::Char)),
            Type::NameArray => (1003, "_name"@, Kind::Array(Type::Name)),
            Type::Int2Array => (1005, "_int2"@, Kind::Array(Type::Int2)),
            Type::Int2VectorArray => (1006, "_int2vector"@, Kind::Array(Type::Int2Vector)),
            Type::Int4Array => (1007, "_int4"@, Kind::Array(Type::Int4)),
            Type::RegprocArray => (1008, "_regproc"@, Kind::Array(Type::Regproc)),
            Type::TextArray => (1009, "_text"@, Kind::Array(Type::Text)),
            Type::TidArray => (1010, "_tid"@, Kind::Array(Type::Tid)),
            Type::XidArray => (1011, "_xid"@, Kind::Array(Type::Xid)),
            Type::CidArray => (1012, "_cid"@, Kind::Array(Type::Cid)),
            Type::OidVectorArray => (1013, "_oidvector"@, Kind::Array(Type::OidVector)),
            Type::BpcharArray => (1014, "_bpchar"@, Kind::Array(Type::Bpchar)),
            Type::VarcharArray => (1015, "_varchar"@, Kind::Array(Type::Varchar)),
            Type::Int8Array => (1016, "_int8"@, Kind::Array(Type::Int8)),
            Type::PointArray => (1017, "_point"@, Kind::Array(Type::Point)),
            Type::LsegArray => (1018, "_lseg"@, Kind::Array(Type::Lseg)),
            Type::PathArray => (1019, "_path"@, Kind::Array(Type::Path)),
            Type::BoxArray => (1020, "_box"@, Kind::Array(Type::Box)),
            Type::Float4Array => (1021, "_float4"@, Kind::Array(Type::Float4)),
            Type::Float8Array => (1022, "_float8"@, Kind::Array(Type::Float8)),
            Type::AbstimeArray => (1023, "_abstime"@, Kind::Array(Type::Abstime)),
            Type::ReltimeArray => (1024, "_reltime"@, Kind::Array(Type::Reltime)),
            Type::TintervalArray => (1025, "_tinterval"@, Kind::Array(Type::Tinterval)),
            Type::PolygonArray => (1027, "_polygon"@, Kind::Array(Type::Polygon)),
            Type::OidArray => (1028, "_oid"@, Kind::Array(Type::Oid)),
            Type::Aclitem => (1033, "aclitem"@, Kind::Simple),
            Type::AclitemArray => (1034, "_aclitem"@, Kind::Array(Type::Aclitem)),
            Type::MacaddrArray => (1040, "_macaddr"@, Kind::Array(Type::Macaddr)),
            Type::InetArray => (1041, "_inet"@, Kind::Array(Type::Inet)),
            Type::Bpchar => (1042, "bpchar"@, Kind::Simple),
            Type::Varchar => (1043, "varchar"@, Kind::Simple),
            Type::Date => (1082, "date"@, Kind::Simple),
            Type::Time => (1083, "time"@, Kind::Simple),
            Type::Timestamp => (1114, "timestamp"@, Kind::Simple),
            Type::TimestampArray => (1115, "_timestamp"@, Kind::Array(Type::Timestamp)),
            Type::DateArray => (1182, "_date"@, Kind::Array(Type::Date)),
            Type::TimeArray => (1183, "_time"@, Kind::Array(Type::Time)),
            Type::TimestampTZ => (1184, "timestamptz"@, Kind::Simple),
            Type::TimestampTZArray => (1185, "_timestamptz"@, Kind::Array(Type::TimestampTZ)),
            Type::Interval => (1186, "interval"@, Kind::Simple),
            Type::IntervalArray => (1187, "_interval"@, Kind::Array(Type::Interval)),
            Type::NumericArray => (1231, "_numeric"@, Kind::Array(Type::Numeric)),
            Type::CstringArray => (1263, "_cstring"@, Kind::Array(Type::Cstring)),
            Type::Timetz => (1266, "timetz"@, Kind::Simple),
            Type::TimetzArray => (1270, "_timetz"@, Kind::Array(Type::Timetz)),
            Type::Bit => (1560, "bit"@, Kind::Simple),
            Type::BitArray => (1561, "_bit"@, Kind::Array(Type::Bit)),
            Type::Varbit => (1562, "varbit"@, Kind::Simple),
            Type::VarbitArray => (1563, "_varbit"@, Kind::Array(Type::Varbit)),
            Type::Numeric => (1700, "numeric"@, Kind::Simple),
            Type::Refcursor => (1790, "refcursor"@, Kind::Simple),
            Type::RefcursorArray => (2201, "_refcursor"@, Kind::Array(Type::Refcursor)),
            Type::Regprocedure => (2202, "regprocedure"@, Kind::Simple),
            Type::Regoper => (2203, "regoper"@, Kind::Simple),
            Type::Regoperator => (2204, "regoperator"@, Kind::Simple),
            Type::Regclass => (2205, "regclass"@, Kind::Simple),
            Type::Regtype => (2206, "regtype"@, Kind::Simple),
            Type::RegprocedureArray => (2207, "_regprocedure"@, Kind::Array(Type::Regprocedure)),
            Type::RegoperArray => (2208, "_regoper"@, Kind::Array(Type::Regoper)),
            Type::RegoperatorArray => (2209, "_regoperator"@, Kind::Array(Type::Regoperator)),
            Type::RegclassArray => (2210, "_regclass"@, Kind::Array(Type::Regclass)),
            Type::RegtypeArray => (2211, "_regtype"@, Kind::Array(Type::Regtype)),
            Type::Record => (2249, "record"@, Kind::Simple),
            Type::Cstring => (2275, "cstring"@, Kind::Simple),
            Type::Any => (2276, "any"@, Kind::Simple),
            Type::AnyArray => (2277, "anyarray"@, Kind::Array(Type::Any)),
            Type::Void => (2278, "void"@, Kind::Simple),
            Type::Trigger => (2279, "trigger"@, Kind::Simple),
            Type::LanguageHandler => (2280, "language_handler"@, Kind::Simple),
            Type::Internal => (2281, "internal"@, Kind::Simple),
            Type::Opaque => (2282, "opaque"@, Kind::Simple),
            Type::Anyelement => (2283, "anyelement"@, Kind::Simple),
            Type::RecordArray => (2287, "_record"@, Kind::Array(Type::Record)),
            Type::Anynonarray => (2776, "anynonarray"@, Kind::Simple),
            Type::TxidSnapshotArray => (2949, "_txid_snapshot"@, Kind::Array(Type::TxidSnapshot)),
            Type::Uuid => (2950, "uuid"@, Kind::Simple),
            Type::TxidSnapshot => (2970, "txid_snapshot"@, Kind::Simple),
            Type::UuidArray => (2951, "_uuid"@, Kind::Array(Type::Uuid)),
            Type::FdwHandler => (3115, "fdw_handler"@, Kind::Simple),
            Type::PgLsn => (3220, "pg_lsn"@, Kind::Simple),
            Type::PgLsnArray => (3221, "_pg_lsn"@, Kind::Array(Type::PgLsn)),
            Type::Anyenum => (3500, "anyenum"@, Kind::Simple),
            Type::Tsvector => (3614, "tsvector"@, Kind::Simple),
            Type::Tsquery => (3615, "tsquery"@, Kind::Simple),
            Type::Gtsvector => (3642, "gtsvector"@, Kind::Simple),
            Type::TsvectorArray => (3643, "_tsvector"@, Kind::Array(Type::Tsvector)),
            Type::GtsvectorArray => (3644, "_gtsvector"@, Kind::Array(Type::Gtsvector)),
            Type::TsqueryArray => (3645, "_tsquery"@, Kind::Array(Type::Tsquery)),
            Type::Regconfig => (3734, "regconfig"@, Kind::Simple),
            Type::RegconfigArray => (3735, "_regconfig"@, Kind::Array(Type::Regconfig)),
            Type::Regdictionary => (3769, "regdictionary"@, Kind::Simple),
            Type::RegdictionaryArray => (3770, "_regdictionary"@, Kind::Array(Type::Regdictionary)),
            Type::Jsonb => (3802, "jsonb"@, Kind::Simple),
            Type::Anyrange => (3831, "anyrange"@, Kind::Simple),
            Type::JsonbArray => (3807, "_jsonb"@, Kind::Array(Type::Jsonb)),
            Type::Int4Range => (3904, "int4range"@, Kind::Range(Type::Int4)),
            Type::Int4RangeArray => (3905, "_int4range"@, Kind::Array(Type::Int4Range)),
            Type::NumRange => (3906, "numrange"@, Kind::Range(Type::Numeric)),
            Type::NumRangeArray => (3907, "_numrange"@, Kind::Array(Type::NumRange)),
            Type::TsRange => (3908, "tsrange"@, Kind::Range(Type::Timestamp)),
            Type::TsRangeArray => (3909, "_tsrange"@, Kind::Array(Type::TsRange)),
            Type::TstzRange => (3910, "tstzrange"@, Kind::Range(Type::TimestampTZ)),
            Type::TstzRangeArray => (3911, "_tstzrange"@, Kind::Array(Type::TstzRange)),
            Type::DateRange => (3912, "daterange"@, Kind::Range(Type::Date)),
            Type::DateRangeArray => (3913, "_daterange"@, Kind::Array(Type::DateRange)),
            Type::Int8Range => (3926, "int8range"@, Kind::Range(Type::Int8)),
            Type::Int8RangeArray => (3927, "_int8range"@, Kind::Array(Type::Int8Range)),
            Type::EventTrigger => (3838, "event_trigger"@, Kind::Simple),
            Type::Other(_) => (0, Seq::empty(), Kind::Simple),
        }
    }

    /// The built-in type whose catalog OID is `oid`, if any.
    pub open spec fn catalog_lookup(oid: u32) -> Option<Type> {
        if exists|t: Type| t.is_builtin() && #[trigger] t.catalog().0 == oid {
            Some(choose|t: Type| t.is_builtin() && #[trigger] t.catalog().0 == oid)
        } else {
            None
        }
    }

    pub open spec fn is_builtin(self) -> bool {
        !(self is Other)
    }

    pub open spec fn spec_oid(self) -> u32 {
        match self {
            Type::Other(o) => o.spec_oid(),
            _ => self.catalog().0,
        }
    }

    pub open spec fn spec_name(self) -> Seq<char> {
        match self {
            Type::Other(o) => o.spec_name(),
            _ => self.catalog().1,
        }
    }

    pub open spec fn spec_kind(self) -> Kind {
        match self {
            Type::Other(o) => o.spec_kind(),
            _ => self.catalog().2,
        }
    }

    pub open spec fn spec_schema(self) -> Seq<char> {
        match self {
            Type::Other(o) => o.spec_schema(),
            _ => "pg_catalog"@,
        }
    }

    /// The catalog row of a built-in type.
    fn catalog_entry(&self) -> (r: (u32, &'static str, Kind))
        requires
            self.is_builtin(),
        ensures
            r.0 == self.catalog().0,
            r.1@ == self.catalog().1,
            r.2 == self.catalog().2,
    {
        match self {
            Type::Bool => (16, "bool", Kind::Simple),
            Type::Bytea => (17, "bytea", Kind::Simple),
            Type::Char => (18, "char", Kind::Simple),
            Type::Name => (19, "name", Kind::Simple),
            Type::Int8 => (20, "int8", Kind::Simple),
            Type::Int2 => (21, "int2", Kind::Simple),
            Type::Int2Vector => (22, "int2vector", Kind::Array(Type::Int2)),
            Type::Int4 => (23, "int4", Kind::Simple),
            Type::Regproc => (24, "regproc", Kind::Simple),
            Type::Text => (25, "text", Kind::Simple),
            Type::Oid => (26, "oid", Kind::Simple),
            Type::Tid => (27, "tid", Kind::Simple),
            Type::Xid => (28, "xid", Kind::Simple),
            Type::Cid => (29, "cid", Kind::Simple),
            Type::OidVector => (30, "oidvector", Kind::Array(Type::Oid)),
            Type::PgType => (71, "pg_type", Kind::Simple),
            Type::PgAttribute => (75, "pg_attribute", Kind::Simple),
            Type::PgProc => (81, "pg_proc", Kind::Simple),
            Type::PgClass => (83, "pg_class", Kind::Simple),
            Type::Json => (114, "json", Kind::Simple),
            Type::Xml => (142, "xml", Kind::Simple),
            Type::XmlArray => (143, "_xml", Kind::Array(Type::Xml)),
            Type::PgNodeTree => (194, "pg_node_tree", Kind::Simple),
            Type::JsonArray => (199, "_json", Kind::Array(Type::Json)),
            Type::Smgr => (210, "smgr", Kind::Simple),
            Type::Point => (600, "point", Kind::Simple),
            Type::Lseg => (601, "lseg", Kind::Simple),
            Type::Path => (602, "path", Kind::Simple),
            Type::Box => (603, "box", Kind::Simple),
            Type::Polygon => (604, "polygon", Kind::Simple),
            Type::Line => (628, "line", Kind::Simple),
            Type::LineArray => (629, "_line", Kind::Array(Type::Line)),
            Type::Cidr => (650, "cidr", Kind::Simple),
            Type::CidrArray => (651, "_cidr", Kind::Array(Type::Cidr)),
            Type::Float4 => (700, "float4", Kind::Simple),
            Type::Float8 => (701, "float8", Kind::Simple),
            Type::Abstime => (702, "abstime", Kind::Simple),
            Type::Reltime => (703, "reltime", Kind::Simple),
            Type::Tinterval => (704, "tinterval", Kind::Simple),
            Type::Unknown => (705, "unknown", Kind::Simple),
            Type::Circle => (718, "circle", Kind::Simple),
            Type::CircleArray => (719, "_circle", Kind::Array(Type::Circle)),
            Type::Money => (790, "money", Kind::Simple),
            Type::MoneyArray => (791, "_money", Kind::Array(Type::Money)),
            Type::Macaddr => (829, "macaddr", Kind::Simple),
            Type::Inet => (869, "inet", Kind::Simple),
            Type::BoolArray => (1000, "_bool", Kind::Array(Type::Bool)),
            Type::ByteaArray => (1001, "_bytea", Kind::Array(Type::Bytea)),
            Type::CharArray => (1002, "_char", Kind::Array(Type::Char)),
            Type::NameArray => (1003, "_name", Kind::Array(Type::Name)),
            Type::Int2Array => (1005, "_int2", Kind::Array(Type::Int2)),
            Type::Int2VectorArray => (1006, "_int2vector", Kind::Array(Type::Int2Vector)),
            Type::Int4Array => (1007, "_int4", Kind::Array(Type::Int4)),
            Type::RegprocArray => (1008, "_regproc", Kind::Array(Type::Regproc)),
            Type::TextArray => (1009, "_text", Kind::Array(Type::Text)),
            Type::TidArray => (1010, "_tid", Kind::Array(Type::Tid)),
            Type::XidArray => (1011, "_xid", Kind::Array(Type::Xid)),
            Type::CidArray => (1012, "_cid", Kind::Array(Type::Cid)),
            Type::OidVectorArray => (1013, "_oidvector", Kind::Array(Type::OidVector)),
            Type::BpcharArray => (1014, "_bpchar", Kind::Array(Type::Bpchar)),
            Type::VarcharArray => (1015, "_varchar", Kind::Array(Type::Varchar)),
            Type::Int8Array => (1016, "_int8", Kind::Array(Type::Int8)),
            Type::PointArray => (1017, "_point", Kind::Array(Type::Point)),
            Type::LsegArray => (1018, "_lseg", Kind::Array(Type::Lseg)),
            Type::PathArray => (1019, "_path", Kind::Array(Type::Path)),
            Type::BoxArray => (1020, "_box", Kind::Array(Type::Box)),
            Type::Float4Array => (1021, "_float4", Kind::Array(Type::Float4)),
            Type::Float8Array => (1022, "_float8", Kind::Array(Type::Float8)),
            Type::AbstimeArray => (1023, "_abstime", Kind::Array(Type::Abstime)),
            Type::ReltimeArray => (1024, "_reltime", Kind::Array(Type::Reltime)),
            Type::TintervalArray => (1025, "_tinterval", Kind::Array(Type::Tinterval)),
            Type::PolygonArray => (1027, "_polygon", Kind::Array(Type::Polygon)),
            Type::OidArray => (1028, "_oid", Kind::Array(Type::Oid)),
            Type::Aclitem => (1033, "aclitem", Kind::Simple),
            Type::AclitemArray => (1034, "_aclitem", Kind::Array(Type::Aclitem)),
            Type::MacaddrArray => (1040, "_macaddr", Kind::Array(Type::Macaddr)),
            Type::InetArray => (1041, "_inet", Kind::Array(Type::Inet)),
            Type::Bpchar => (1042, "bpchar", Kind::Simple),
            Type::Varchar => (1043, "varchar", Kind::Simple),
            Type::Date => (1082, "date", Kind::Simple),
            Type::Time => (1083, "time", Kind::Simple),
            Type::Timestamp => (1114, "timestamp", Kind::Simple),
            Type::TimestampArray => (1115, "_timestamp", Kind::Array(Type::Timestamp)),
            Type::DateArray => (1182, "_date", Kind::Array(Type::Date)),
            Type::TimeArray => (1183, "_time", Kind::Array(Type::Time)),
            Type::TimestampTZ => (1184, "timestamptz", Kind::Simple),
            Type::TimestampTZArray => (1185, "_timestamptz", Kind::Array(Type::TimestampTZ)),
            Type::Interval => (1186, "interval", Kind::Simple),
            Type::IntervalArray => (1187, "_interval", Kind::Array(Type::Interval)),
            Type::NumericArray => (1231, "_numeric", Kind::Array(Type::Numeric)),
            Type::CstringArray => (1263, "_cstring", Kind::Array(Type::Cstring)),
            Type::Timetz => (1266, "timetz", Kind::Simple),
            Type::TimetzArray => (1270, "_timetz", Kind::Array(Type::Timetz)),
            Type::Bit => (1560, "bit", Kind::Simple),
            Type::BitArray => (1561, "_bit", Kind::Array(Type::Bit)),
            Type::Varbit => (1562, "varbit", Kind::Simple),
            Type::VarbitArray => (1563, "_varbit", Kind::Array(Type::Varbit)),
            Type::Numeric => (1700, "numeric", Kind::Simple),
            Type::Refcursor => (1790, "refcursor", Kind::Simple),
            Type::RefcursorArray => (2201, "_refcursor", Kind::Array(Type::Refcursor)),
            Type::Regprocedure => (2202, "regprocedure", Kind::Simple),
            Type::Regoper => (2203, "regoper", Kind::Simple),
            Type::Regoperator => (2204, "regoperator", Kind::Simple),
            Type::Regclass => (2205, "regclass", Kind::Simple),
            Type::Regtype => (2206, "regtype", Kind::Simple),
            Type::RegprocedureArray => (2207, "_regprocedure", Kind::Array(Type::Regprocedure)),
            Type::RegoperArray => (2208, "_regoper", Kind::Array(Type::Regoper)),
            Type::RegoperatorArray => (2209, "_regoperator", Kind::Array(Type::Regoperator)),
            Type::RegclassArray => (2210, "_regclass", Kind::Array(Type::Regclass)),
            Type::RegtypeArray => (2211, "_regtype", Kind::Array(Type::Regtype)),
            Type::Record => (2249, "record", Kind::Simple),
            Type::Cstring => (2275, "cstring", Kind::Simple),
            Type::Any => (2276, "any", Kind::Simple),
            Type::AnyArray => (2277, "anyarray", Kind::Array(Type::Any)),
            Type::Void => (2278, "void", Kind::Simple),
            Type::Trigger => (2279, "trigger", Kind::Simple),
            Type::LanguageHandler => (2280, "language_handler", Kind::Simple),
            Type::Internal => (2281, "internal", Kind::Simple),
            Type::Opaque => (2282, "opaque", Kind::Simple),
            Type::Anyelement => (2283, "anyelement", Kind::Simple),
            Type::RecordArray => (2287, "_record", Kind::Array(Type::Record)),
            Type::Anynonarray => (2776, "anynonarray", Kind::Simple),
            Type::TxidSnapshotArray => (2949, "_txid_snapshot", Kind::Array(Type::TxidSnapshot)),
            Type::Uuid => (2950, "uuid", Kind::Simple),
            Type::TxidSnapshot => (2970, "txid_snapshot", Kind::Simple),
            Type::UuidArray => (2951, "_uuid", Kind::Array(Type::Uuid)),
            Type::FdwHandler => (3115, "fdw_handler", Kind::Simple),
            Type::PgLsn => (3220, "pg_lsn", Kind::Simple),
            Type::PgLsnArray => (3221, "_pg_lsn", Kind::Array(Type::PgLsn)),
            Type::Anyenum => (3500, "anyenum", Kind::Simple),
            Type::Tsvector => (3614, "tsvector", Kind::Simple),
            Type::Tsquery => (3615, "tsquery", Kind::Simple),
            Type::Gtsvector => (3642, "gtsvector", Kind::Simple),
            Type::TsvectorArray => (3643, "_tsvector", Kind::Array(Type::Tsvector)),
            Type::GtsvectorArray => (3644, "_gtsvector", Kind::Array(Type::Gtsvector)),
            Type::TsqueryArray => (3645, "_tsquery", Kind::Array(Type::Tsquery)),
            Type::Regconfig => (3734, "regconfig", Kind::Simple),
            Type::RegconfigArray => (3735, "_regconfig", Kind::Array(Type::Regconfig)),
            Type::Regdictionary => (3769, "regdictionary", Kind::Simple),
            Type::RegdictionaryArray => (3770, "_regdictionary", Kind::Array(Type::Regdictionary)),
            Type::Jsonb => (3802, "jsonb", Kind::Simple),
            Type::Anyrange => (3831, "anyrange", Kind::Simple),
            Type::JsonbArray => (3807, "_jsonb", Kind::Array(Type::Jsonb)),
            Type::Int4Range => (3904, "int4range", Kind::Range(Type::Int4)),
            Type::Int4RangeArray => (3905, "_int4range", Kind::Array(Type::Int4Range)),
            Type::NumRange => (3906, "numrange", Kind::Range(Type::Numeric)),
            Type::NumRangeArray => (3907, "_numrange", Kind::Array(Type::NumRange)),
            Type::TsRange => (3908, "tsrange", Kind::Range(Type::Timestamp)),
            Type::TsRangeArray => (3909, "_tsrange", Kind::Array(Type::TsRange)),
            Type::TstzRange => (3910, "tstzrange", Kind::Range(Type::TimestampTZ)),
            Type::TstzRangeArray => (3911, "_tstzrange", Kind::Array(Type::TstzRange)),
            Type::DateRange => (3912, "daterange", Kind::Range(Type::Date)),
            Type::DateRangeArray => (3913, "_daterange", Kind::Array(Type::DateRange)),
            Type::Int8Range => (3926, "int8range", Kind::Range(Type::Int8)),
            Type::Int8RangeArray => (3927, "_int8range", Kind::Array(Type::Int8Range)),
            Type::EventTrigger => (3838, "event_trigger", Kind::Simple),
            Type::Other(_) => (0, "", Kind::Simple),
        }
    }

    /// Returns the built-in `Type` that has the provided `Oid`, if any.
    pub fn from_oid(oid: Oid) -> (r: Option<Type>)
        ensures
            r == Type::catalog_lookup(oid),
            r matches Some(t) ==> t.is_builtin() && t.spec_oid() == oid,
            r is None ==> forall|t: Type| #[trigger] t.is_builtin() ==> t.spec_oid() != oid,
    {
        let r = match oid {
            16 => Some(Type::Bool),
            17 => Some(Type::Bytea),
            18 => Some(Type::Char),
            19 => Some(Type::Name),
            20 => Some(Type::Int8),
            21 => Some(Type::Int2),
            22 => Some(Type::Int2Vector),
            23 => Some(Type::Int4),
            24 => Some(Type::Regproc),
            25 => Some(Type::Text),
            26 => Some(Type::Oid),
            27 => Some(Type::Tid),
            28 => Some(Type::Xid),
            29 => Some(Type::Cid),
            30 => Some(Type::OidVector),
            71 => Some(Type::PgType),
            75 => Some(Type::PgAttribute),
            81 => Some(Type::PgProc),
            83 => Some(Type::PgClass),
            114 => Some(Type::Json),
            142 => Some(Type::Xml),
            143 => Some(Type::XmlArray),
            194 => Some(Type::PgNodeTree),
            199 => Some(Type::JsonArray),
            210 => Some(Type::Smgr),
            600 => Some(Type::Point),
            601 => Some(Type::Lseg),
            602 => Some(Type::Path),
            603 => Some(Type::Box),
            604 => Some(Type::Polygon),
            628 => Some(Type::Line),
            629 => Some(Type::LineArray),
            650 => Some(Type::Cidr),
            651 => Some(Type::CidrArray),
            700 => Some(Type::Float4),
            701 => Some(Type::Float8),
            702 => Some(Type::Abstime),
            703 => Some(Type::Reltime),
            704 => Some(Type::Tinterval),
            705 => Some(Type::Unknown),
            718 => Some(Type::Circle),
            719 => Some(Type::CircleArray),
            790 => Some(Type::Money),
            791 => Some(Type::MoneyArray),
            829 => Some(Type::Macaddr),
            869 => Some(Type::Inet),
            1000 => Some(Type::BoolArray),
            1001 => Some(Type::ByteaArray),
            1002 => Some(Type::CharArray),
            1003 => Some(Type::NameArray),
            1005 => Some(Type::Int2Array),
            1006 => Some(Type::Int2VectorArray),
            1007 => Some(Type::Int4Array),
            1008 => Some(Type::RegprocArray),
            1009 => Some(Type::TextArray),
            1010 => Some(Type::TidArray),
            1011 => Some(Type::XidArray),
            1012 => Some(Type::CidArray),
            1013 => Some(Type::OidVectorArray),
            1014 => Some(Type::BpcharArray),
            1015 => Some(Type::VarcharArray),
            1016 => Some(Type::Int8Array),
            1017 => Some(Type::PointArray),
            1018 => Some(Type::LsegArray),
            1019 => Some(Type::PathArray),
            1020 => Some(Type::BoxArray),
            1021 => Some(Type::Float4Array),
            1022 => Some(Type::Float8Array),
            1023 => Some(Type::AbstimeArray),
            1024 => Some(Type::ReltimeArray),
            1025 => Some(Type::TintervalArray),
            1027 => Some(Type::PolygonArray),
            1028 => Some(Type::OidArray),
            1033 => Some(Type::Aclitem),
            1034 => Some(Type::AclitemArray),
            1040 => Some(Type::MacaddrArray),
            1041 => Some(Type::InetArray),
            1042 => Some(Type::Bpchar),
            1043 => Some(Type::Varchar),
            1082 => Some(Type::Date),
            1083 => Some(Type::Time),
            1114 => Some(Type::Timestamp),
            1115 => Some(Type::TimestampArray),
            1182 => Some(Type::DateArray),
            1183 => Some(Type::TimeArray),
            1184 => Some(Type::TimestampTZ),
            1185 => Some(Type::TimestampTZArray),
            1186 => Some(Type::Interval),
            1187 => Some(Type::IntervalArray),
            1231 => Some(Type::NumericArray),
            1263 => Some(Type::CstringArray),
            1266 => Some(Type::Timetz),
            1270 => Some(Type::TimetzArray),
            1560 => Some(Type::Bit),
            1561 => Some(Type::BitArray),
            1562 => Some(Type::Varbit),
            1563 => Some(Type::VarbitArray),
            1700 => Some(Type::Numeric),
            1790 => Some(Type::Refcursor),
            2201 => Some(Type::RefcursorArray),
            2202 => Some(Type::Regprocedure),
            2203 => Some(Type::Regoper),
            2204 => Some(Type::Regoperator),
            2205 => Some(Type::Regclass),
            2206 => Some(Type::Regtype),
            2207 => Some(Type::RegprocedureArray),
            2208 => Some(Type::RegoperArray),
            2209 => Some(Type::RegoperatorArray),
            2210 => Some(Type::RegclassArray),
            2211 => Some(Type::RegtypeArray),
            2249 => Some(Type::Record),
            2275 => Some(Type::Cstring),
            2276 => Some(Type::Any),
            2277 => Some(Type::AnyArray),
            2278 => Some(Type::Void),
            2279 => Some(Type::Trigger),
            2280 => Some(Type::LanguageHandler),
            2281 => Some(Type::Internal),
            2282 => Some(Type::Opaque),
            2283 => Some(Type::Anyelement),
            2287 => Some(Type::RecordArray),
            2776 => Some(Type::Anynonarray),
            2949 => Some(Type::TxidSnapshotArray),
            2950 => Some(Type::Uuid),
            2970 => Some(Type::TxidSnapshot),
            2951 => Some(Type::UuidArray),
            3115 => Some(Type::FdwHandler),
            3220 => Some(Type::PgLsn),
            3221 => Some(Type::PgLsnArray),
            3500 => Some(Type::Anyenum),
            3614 => Some(Type::Tsvector),
            3615 => Some(Type::Tsquery),
            3642 => Some(Type::Gtsvector),
            3643 => Some(Type::TsvectorArray),
            3644 => Some(Type::GtsvectorArray),
            3645 => Some(Type::TsqueryArray),
            3734 => Some(Type::Regconfig),
            3735 => Some(Type::RegconfigArray),
            3769 => Some(Type::Regdictionary),
            3770 => Some(Type::RegdictionaryArray),
            3802 => Some(Type::Jsonb),
            3831 => Some(Type::Anyrange),
            3807 => Some(Type::JsonbArray),
            3904 => Some(Type::Int4Range),
            3905 => Some(Type::Int4RangeArray),
            3906 => Some(Type::NumRange),
            3907 => Some(Type::NumRangeArray),
            3908 => Some(Type::TsRange),
            3909 => Some(Type::TsRangeArray),
            3910 => Some(Type::TstzRange),
            3911 => Some(Type::TstzRangeArray),
            3912 => Some(Type::DateRange),
            3913 => Some(Type::DateRangeArray),
            3926 => Some(Type::Int8Range),
            3927 => Some(Type::Int8RangeArray),
            3838 => Some(Type::EventTrigger),
            _ => None,
        };
        proof {
            if r is Some {
                assert(r->Some_0.is_builtin() && r->Some_0.catalog().0 == oid);
                let c = choose|c: Type| c.is_builtin() && #[trigger] c.catalog().0 == oid;
                lemma_catalog_injective(r->Some_0, c);
            }
        }
        r
    }

}
impl Type {
    /// Returns the OID of the `Type`.
    pub fn oid(&self) -> (r: Oid)
        ensures
            r == self.spec_oid(),
    {
        match self {
            Type::Other(o) => o.oid(),
            _ => self.catalog_entry().0,
        }
    }

    /// Returns the name of this type.
    pub fn name(&self) -> (r: &str)
        ensures
            r@ == self.spec_name(),
    {
        match self {
            Type::Other(o) => o.name(),
            _ => self.catalog_entry().1,
        }
    }

    /// Returns the kind of this type.
    pub fn kind(&self) -> (r: Kind)
        ensures
            r == self.spec_kind(),
    {
        match self {
            Type::Other(o) => o.kind().clone(),
            _ => self.catalog_entry().2,
        }
    }

    /// Returns the schema of this type.
    pub fn schema(&self) -> (r: &str)
        ensures
            r@ == self.spec_schema(),
    {
        match self {
            Type::Other(o) => o.schema(),
            _ => "pg_catalog",
        }
    }

    /// The text that names this type to a reader: `schema.name`, where the
    /// schema is left out when it is `public` or `pg_catalog`.
    pub open spec fn spec_display(self) -> Seq<char> {
        if self.spec_schema() == "public"@ || self.spec_schema() == "pg_catalog"@ {
            self.spec_name()
        } else {
            self.spec_schema() + "."@ + self.spec_name()
        }
    }

    /// Renders the type as `schema.name`, without the schema when it is
    /// `public` or `pg_catalog`.
    pub fn to_display_string(&self) -> (r: String)
        ensures
            r@ == self.spec_display(),
            self.spec_schema() == "public"@ || self.spec_schema() == "pg_catalog"@ ==> r@
                == self.spec_name(),
            !(self.spec_schema() == "public"@ || self.spec_schema() == "pg_catalog"@) ==> r@
                == self.spec_schema() + "."@ + self.spec_name(),
    {
        let schema = self.schema();
        let name = self.name();
        if str_eq(schema, "public") || str_eq(schema, "pg_catalog") {
            name.to_owned()
        } else {
            schema.to_owned().concat(".").concat(name)
        }
    }
}

/// No two built-in types share a catalog OID.
#[verifier::rlimit(100)]
pub proof fn lemma_catalog_injective(a: Type, b: Type)
    requires
        a.is_builtin(),
        b.is_builtin(),
        a.catalog().0 == b.catalog().0,
    ensures
        a == b,
{
}

/// Every built-in type is found again from its own OID.
pub proof fn lemma_from_oid_of_oid(t: Type)
    requires
        t.is_builtin(),
    ensures
        Type::catalog_lookup(t.spec_oid()) == Some(t),
{
    let c = choose|c: Type| c.is_builtin() && #[trigger] c.catalog().0 == t.spec_oid();
    lemma_catalog_injective(t, c);
}

impl Clone for Type {
    fn clone(&self) -> (r: Type)
        ensures
            r == *self,
    {
        match self {
            Type::Other(o) => Type::Other(o.clone()),
            _ => {
                proof {
                    lemma_from_oid_of_oid(*self);
                }
                match Type::from_oid(self.oid()) {
                    Some(t) => t,
                    None => Type::Bool,
                }
            },
        }
    }
}

impl Clone for Kind {
    fn clone(&self) -> (r: Kind)
        ensures
            r == *self,
    {
        match self {
            Kind::Simple => Kind::Simple,
            Kind::Array(t) => Kind::Array(t.clone()),
            Kind::Range(t) => Kind::Range(t.clone()),
        }
    }
}

#[derive(Debug)]
struct OtherInner {
    name: String,
    oid: Oid,
    kind: Kind,
    schema: String,
}

/// Information about a type that is not in the built-in catalog: an enum,
/// a domain, a composite or an extension's type.
///
/// Clones share one descriptor.
#[derive(Debug)]
pub struct Other(Arc<OtherInner>);

/// Relies on `Arc::clone`: the new handle points at the same allocation, so
/// it holds the same descriptor.
#[verifier::external_body]
fn share(a: &Arc<OtherInner>) -> (r: Arc<OtherInner>)
    ensures
        r == *a,
{
    Arc::clone(a)
}

impl Clone for Other {
    fn clone(&self) -> (r: Other)
        ensures
            r == *self,
    {
        Other(share(&self.0))
    }
}

impl Other {
    pub closed spec fn spec_name(self) -> Seq<char> {
        self.0.name@
    }

    pub closed spec fn spec_oid(self) -> u32 {
        self.0.oid
    }

    pub closed spec fn spec_kind(self) -> Kind {
        self.0.kind
    }

    pub closed spec fn spec_schema(self) -> Seq<char> {
        self.0.schema@
    }

    /// Makes a fresh descriptor; nothing is shared with earlier ones of the
    /// same OID.
    pub fn new(name: String, oid: Oid, kind: Kind, schema: String) -> (r: Other)
        ensures
            r.spec_name() == name@,
            r.spec_oid() == oid,
            r.spec_kind() == kind,
            r.spec_schema() == schema@,
    {
        Other(Arc::new(OtherInner { name, oid, kind, schema }))
    }

    /// The name of the type.
    pub fn name(&self) -> (r: &str)
        ensures
            r@ == self.spec_name(),
    {
        self.0.name.as_str()
    }

    /// The OID of this type.
    pub fn oid(&self) -> (r: Oid)
        ensures
            r == self.spec_oid(),
    {
        self.0.oid
    }

    /// The kind of this type.
    pub fn kind(&self) -> (r: &Kind)
        ensures
            *r == self.spec_kind(),
    {
        &self.0.kind
    }

    /// The schema of this type.
    pub fn schema(&self) -> (r: &str)
        ensures
            r@ == self.spec_schema(),
    {
        self.0.schema.as_str()
    }
}

/// Whether two kinds are the same: the same shape, over element types that
/// are the same.
pub closed spec fn kind_eq(a: Kind, b: Kind) -> bool
    decreases a,
{
    match (a, b) {
        (Kind::Simple, Kind::Simple) => true,
        (Kind::Array(x), Kind::Array(y)) => type_eq(x, y),
        (Kind::Range(x), Kind::Range(y)) => type_eq(x, y),
        _ => false,
    }
}

/// Whether two types are the same: the same built-in type, or descriptors
/// whose names, OIDs, kinds and schemas are the same.
pub closed spec fn type_eq(a: Type, b: Type) -> bool
    decreases a,
{
    match (a, b) {
        (Type::Other(x), Type::Other(y)) => x.0.name@ == y.0.name@ && x.0.oid == y.0.oid && kind_eq(
            x.0.kind,
            y.0.kind,
        ) && x.0.schema@ == y.0.schema@,
        (Type::Other(_), _) => false,
        (_, Type::Other(_)) => false,
        _ => a == b,
    }
}

/// Whether two descriptors are the same: equal names, OIDs, kinds and
/// schemas. Separate descriptors can be the same.
pub open spec fn other_eq(a: Other, b: Other) -> bool {
    &&& a.spec_name() == b.spec_name()
    &&& a.spec_oid() == b.spec_oid()
    &&& kind_eq(a.spec_kind(), b.spec_kind())
    &&& a.spec_schema() == b.spec_schema()
}

/// Kinds and types compare by shape, and descriptors by their fields.
pub proof fn lemma_eq_unfold(a: Type, b: Type, k: Kind, l: Kind)
    ensures
        type_eq(a, b) == match (a, b) {
            (Type::Other(x), Type::Other(y)) => other_eq(x, y),
            (Type::Other(_), _) => false,
            (_, Type::Other(_)) => false,
            _ => a == b,
        },
        kind_eq(k, l) == match (k, l) {
            (Kind::Simple, Kind::Simple) => true,
            (Kind::Array(x), Kind::Array(y)) => type_eq(x, y),
            (Kind::Range(x), Kind::Range(y)) => type_eq(x, y),
            _ => false,
        },
{
}

/// Every kind is the same as itself.
pub proof fn lemma_kind_eq_refl(k: &Kind)
    ensures
        kind_eq(*k, *k),
    decreases *k,
{
    match k {
        Kind::Array(x) => lemma_type_eq_refl(x),
        Kind::Range(x) => lemma_type_eq_refl(x),
        Kind::Simple => {},
    }
}

/// Every type is the same as itself.
pub proof fn lemma_type_eq_refl(a: &Type)
    ensures
        type_eq(*a, *a),
    decreases *a,
{
    match a {
        Type::Other(o) => lemma_kind_eq_refl(&o.0.kind),
        _ => {},
    }
}

/// Two descriptors made from equal names, OIDs, kinds and schemas are the
/// same, though each call of `Other::new` makes a separate one.
pub proof fn lemma_other_eq_of_fields(a: Other, b: Other)
    requires
        a.spec_name() == b.spec_name(),
        a.spec_oid() == b.spec_oid(),
        a.spec_kind() == b.spec_kind(),
        a.spec_schema() == b.spec_schema(),
    ensures
        a.eq_spec(&b),
{
    lemma_kind_eq_refl(&a.0.kind);
}

fn kind_eq_exec(a: &Kind, b: &Kind) -> (r: bool)
    ensures
        r == kind_eq(*a, *b),
    decreases *a,
{
    match (a, b) {
        (Kind::Simple, Kind::Simple) => true,
        (Kind::Array(x), Kind::Array(y)) => type_eq_exec(x, y),
        (Kind::Range(x), Kind::Range(y)) => type_eq_exec(x, y),
        _ => false,
    }
}

fn type_eq_exec(a: &Type, b: &Type) -> (r: bool)
    ensures
        r == type_eq(*a, *b),
    decreases *a,
{
    match (a, b) {
        (Type::Other(x), Type::Other(y)) => {
            str_eq(x.0.name.as_str(), y.0.name.as_str()) && x.0.oid == y.0.oid && kind_eq_exec(
                &x.0.kind,
                &y.0.kind,
            ) && str_eq(x.0.schema.as_str(), y.0.schema.as_str())
        },
        (Type::Other(_), _) => false,
        (_, Type::Other(_)) => false,
        _ => {
            proof {
                lemma_from_oid_of_oid(*a);
                lemma_from_oid_of_oid(*b);
            }
            a.oid() == b.oid()
        },
    }
}

impl PartialEq for Kind {
    fn eq(&self, other: &Kind) -> (r: bool) {
        kind_eq_exec(self, other)
    }
}

impl vstd::std_specs::cmp::PartialEqSpecImpl for Kind {
    open spec fn obeys_eq_spec() -> bool {
        true
    }

    open spec fn eq_spec(&self, other: &Kind) -> bool {
        kind_eq(*self, *other)
    }
}

impl PartialEq for Type {
    fn eq(&self, other: &Type) -> (r: bool) {
        type_eq_exec(self, other)
    }
}

impl vstd::std_specs::cmp::PartialEqSpecImpl for Type {
    open spec fn obeys_eq_spec() -> bool {
        true
    }

    open spec fn eq_spec(&self, other: &Type) -> bool {
        type_eq(*self, *other)
    }
}

impl PartialEq for Other {
    fn eq(&self, other: &Other) -> (r: bool) {
        proof {
            lemma_eq_unfold(Type::Other(*self), Type::Other(*other), Kind::Simple, Kind::Simple);
        }
        type_eq_exec(&Type::Other(self.clone()), &Type::Other(other.clone()))
    }
}

impl Eq for Other {

}

impl vstd::std_specs::cmp::PartialEqSpecImpl for Other {
    open spec fn obeys_eq_spec() -> bool {
        true
    }

    open spec fn eq_spec(&self, other: &Other) -> bool {
        other_eq(*self, *other)
    }
}

} // verus!
