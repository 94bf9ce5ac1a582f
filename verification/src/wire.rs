//! The wire shape of one JSON object: a list of named raw values, as the
//! JSON tokenizer hands them over, and the coercion rules that turn the
//! upstream service's irregular encodings into typed values.

use vstd::prelude::*;
use vstd::string::*;
use crate::model::QueryError;
use crate::numbers::{parse_i32, parse_i32_spec};
use crate::strings::str_eq;

verus! {

/// One raw JSON value: missing, null, a boolean, an integral number, or a
/// string. This is all the upstream service ever sends inside a record.
#[derive(Debug, Clone, PartialEq)]
pub enum RawValue {
    Absent,
    Null,
    Bool(bool),
    Int(i64),
    Str(String),
}

/// The mathematical value of a [`RawValue`].
pub ghost enum RawValueV {
    Absent,
    Null,
    Bool(bool),
    Int(int),
    Str(Seq<char>),
}

impl View for RawValue {
    type V = RawValueV;

    open spec fn view(&self) -> RawValueV {
        match self {
            RawValue::Absent => RawValueV::Absent,
            RawValue::Null => RawValueV::Null,
            RawValue::Bool(b) => RawValueV::Bool(*b),
            RawValue::Int(i) => RawValueV::Int(*i as int),
            RawValue::Str(s) => RawValueV::Str(s@),
        }
    }
}

/// One named field of a wire record.
#[derive(Debug, Clone, PartialEq)]
pub struct WireField {
    pub name: String,
    pub value: RawValue,
}

/// The mathematical value of a [`WireField`].
pub ghost struct WireFieldV {
    pub name: Seq<char>,
    pub value: RawValueV,
}

impl View for WireField {
    type V = WireFieldV;

    open spec fn view(&self) -> WireFieldV {
        WireFieldV { name: self.name@, value: self.value@ }
    }
}

/// The mathematical values of a whole record.
pub open spec fn record_view(rec: Seq<WireField>) -> Seq<WireFieldV> {
    rec.map_values(|f: WireField| f@)
}

/// The value of the first field with the given name, or `Absent` when no
/// field has it.
pub open spec fn lookup(rec: Seq<WireFieldV>, name: Seq<char>) -> RawValueV
    decreases rec.len(),
{
    if rec.len() == 0 {
        RawValueV::Absent
    } else if rec[0].name == name {
        rec[0].value
    } else {
        lookup(rec.drop_first(), name)
    }
}

proof fn lemma_lookup_at(rec: Seq<WireFieldV>, name: Seq<char>, j: int)
    requires
        0 <= j <= rec.len(),
        forall|k: int| 0 <= k < j ==> (#[trigger] rec[k]).name != name,
        j < rec.len() ==> rec[j].name == name,
    ensures
        j < rec.len() ==> lookup(rec, name) == rec[j].value,
        j == rec.len() ==> lookup(rec, name) == RawValueV::Absent,
    decreases j,
{
    if rec.len() == 0 {
    } else if j == 0 {
    } else {
        let tail = rec.drop_first();
        assert(forall|k: int| 0 <= k < tail.len() ==> #[trigger] tail[k] == rec[k + 1]);
        lemma_lookup_at(tail, name, j - 1);
    }
}

/// A borrowed view of the field named `name`, or `None` when it is absent.
fn field_at<'a>(rec: &'a Vec<WireField>, name: &str) -> (r: Option<&'a RawValue>)
    ensures
        match r {
            Some(v) => lookup(record_view(rec@), name@) == v@,
            None => lookup(record_view(rec@), name@) == RawValueV::Absent,
        },
{
    let ghost rv = record_view(rec@);
    proof {
        assert(forall|k: int| 0 <= k < rec@.len() ==> #[trigger] rv[k] == rec@[k]@);
    }
    let n = rec.len();
    let mut j: usize = 0;
    while j < n && !str_eq(rec[j].name.as_str(), name)
        invariant
            j <= n,
            n == rec.len(),
            rv == record_view(rec@),
            forall|k: int| 0 <= k < rec@.len() ==> #[trigger] rv[k] == rec@[k]@,
            forall|k: int| 0 <= k < j ==> (#[trigger] rv[k]).name != name@,
        decreases n - j,
    {
        j = j + 1;
    }
    if j < n {
        proof {
            lemma_lookup_at(rv, name@, j as int);
        }
        Some(&rec[j].value)
    } else {
        proof {
            lemma_lookup_at(rv, name@, n as int);
        }
        None
    }
}

/// A decode error naming the field that failed.
fn parse_error(name: &str) -> (e: QueryError)
    ensures
        e is ParseError,
{
    let mut m = String::from_str("invalid or missing field: ");
    m.append(name);
    QueryError::ParseError(m)
}

/// A required string field: anything but a string is refused.
pub open spec fn spec_req_string(v: RawValueV) -> Option<Seq<char>> {
    match v {
        RawValueV::Str(s) => Some(s),
        _ => None,
    }
}

/// An optional string field: a missing field or a null reads as no value.
pub open spec fn spec_opt_string(v: RawValueV) -> Option<Option<Seq<char>>> {
    match v {
        RawValueV::Absent => Some(None),
        RawValueV::Null => Some(None),
        RawValueV::Str(s) => Some(Some(s)),
        _ => None,
    }
}

/// An optional string field where the service writes an empty string to
/// mean "no value": the empty string reads as an explicit absence.
pub open spec fn spec_empty_as_none(v: RawValueV) -> Option<Option<Seq<char>>> {
    match v {
        RawValueV::Null => Some(None),
        RawValueV::Str(s) => if s.len() == 0 {
            Some(None)
        } else {
            Some(Some(s))
        },
        _ => None,
    }
}

/// A count sent as a JSON number.
pub open spec fn spec_plain_i32(v: RawValueV) -> Option<int> {
    match v {
        RawValueV::Int(i) => if i32::MIN <= i <= i32::MAX {
            Some(i)
        } else {
            None
        },
        _ => None,
    }
}

/// A count sent as a JSON string of digits.
pub open spec fn spec_str_i32(v: RawValueV) -> Option<int> {
    match v {
        RawValueV::Str(s) => parse_i32_spec(s),
        _ => None,
    }
}

/// A tolerated count: the upstream value is unreliable, so anything that is
/// not an in-range number reads as zero instead of failing the record.
pub open spec fn spec_tolerated_i32(v: RawValueV) -> int {
    match v {
        RawValueV::Int(i) => if i32::MIN <= i <= i32::MAX {
            i
        } else {
            0
        },
        _ => 0,
    }
}

/// A tolerated optional count: anything that is not an in-range number
/// reads as no value instead of failing the record.
pub open spec fn spec_tolerated_opt_i32(v: RawValueV) -> Option<int> {
    match v {
        RawValueV::Int(i) => if i32::MIN <= i <= i32::MAX {
            Some(i)
        } else {
            None
        },
        _ => None,
    }
}

/// An optional code sent as a JSON string of digits, or null for no value.
pub open spec fn spec_opt_str_i32(v: RawValueV) -> Option<Option<int>> {
    match v {
        RawValueV::Null => Some(None),
        RawValueV::Str(s) => match parse_i32_spec(s) {
            Some(n) => Some(Some(n)),
            None => None,
        },
        _ => None,
    }
}

/// A toggle sent as the number zero or one.
pub open spec fn spec_bool_from_int(v: RawValueV) -> Option<bool> {
    match v {
        RawValueV::Int(i) => if i == 0 {
            Some(false)
        } else if i == 1 {
            Some(true)
        } else {
            None
        },
        _ => None,
    }
}

/// Read a required string field.
pub fn req_string(rec: &Vec<WireField>, name: &str) -> (r: Result<String, QueryError>)
    ensures
        r is Ok <==> spec_req_string(lookup(record_view(rec@), name@)) is Some,
        r is Ok ==> spec_req_string(lookup(record_view(rec@), name@)) == Some(r->Ok_0@),
        r is Err ==> r->Err_0 is ParseError,
{
    match field_at(rec, name) {
        Some(RawValue::Str(s)) => Ok(s.clone()),
        _ => Err(parse_error(name)),
    }
}

/// Read an optional string field (missing or null means no value).
pub fn opt_string(rec: &Vec<WireField>, name: &str) -> (r: Result<Option<String>, QueryError>)
    ensures
        r is Ok <==> spec_opt_string(lookup(record_view(rec@), name@)) is Some,
        r is Ok ==> spec_opt_string(lookup(record_view(rec@), name@))
            == Some(crate::model::opt_str_view(r->Ok_0)),
        r is Err ==> r->Err_0 is ParseError,
{
    match field_at(rec, name) {
        None => Ok(None),
        Some(RawValue::Absent) => Ok(None),
        Some(RawValue::Null) => Ok(None),
        Some(RawValue::Str(s)) => Ok(Some(s.clone())),
        Some(_) => Err(parse_error(name)),
    }
}

/// Read an optional string field where an empty string means no value.
pub fn empty_as_none(rec: &Vec<WireField>, name: &str) -> (r: Result<Option<String>, QueryError>)
    ensures
        r is Ok <==> spec_empty_as_none(lookup(record_view(rec@), name@)) is Some,
        r is Ok ==> spec_empty_as_none(lookup(record_view(rec@), name@))
            == Some(crate::model::opt_str_view(r->Ok_0)),
        r is Err ==> r->Err_0 is ParseError,
{
    match field_at(rec, name) {
        Some(RawValue::Null) => Ok(None),
        Some(RawValue::Str(s)) => {
            if s.as_str().unicode_len() == 0 {
                proof {
                    assert(s@ =~= Seq::<char>::empty());
                }
                Ok(None)
            } else {
                Ok(Some(s.clone()))
            }
        },
        _ => Err(parse_error(name)),
    }
}

/// Read a count sent as a JSON number.
pub fn plain_i32(rec: &Vec<WireField>, name: &str) -> (r: Result<i32, QueryError>)
    ensures
        r is Ok <==> spec_plain_i32(lookup(record_view(rec@), name@)) is Some,
        r is Ok ==> spec_plain_i32(lookup(record_view(rec@), name@)) == Some(r->Ok_0 as int),
        r is Err ==> r->Err_0 is ParseError,
{
    match field_at(rec, name) {
        Some(RawValue::Int(i)) => {
            let i = *i;
            if -2147483648i64 <= i && i <= 2147483647i64 {
                Ok(i as i32)
            } else {
                Err(parse_error(name))
            }
        },
        _ => Err(parse_error(name)),
    }
}

/// Read a count sent as a JSON string of digits.
pub fn str_i32(rec: &Vec<WireField>, name: &str) -> (r: Result<i32, QueryError>)
    ensures
        r is Ok <==> spec_str_i32(lookup(record_view(rec@), name@)) is Some,
        r is Ok ==> spec_str_i32(lookup(record_view(rec@), name@)) == Some(r->Ok_0 as int),
        r is Err ==> r->Err_0 is ParseError,
{
    match field_at(rec, name) {
        Some(RawValue::Str(s)) => match parse_i32(s.as_str()) {
            Some(v) => Ok(v),
            None => Err(parse_error(name)),
        },
        _ => Err(parse_error(name)),
    }
}

/// Read a tolerated count: never fails, defaults to zero.
pub fn tolerated_i32(rec: &Vec<WireField>, name: &str) -> (r: i32)
    ensures
        r as int == spec_tolerated_i32(lookup(record_view(rec@), name@)),
{
    match field_at(rec, name) {
        Some(RawValue::Int(i)) => {
            let i = *i;
            if -2147483648i64 <= i && i <= 2147483647i64 {
                i as i32
            } else {
                0
            }
        },
        _ => 0,
    }
}

/// Read a tolerated optional count: never fails, defaults to no value.
pub fn tolerated_opt_i32(rec: &Vec<WireField>, name: &str) -> (r: Option<i32>)
    ensures
        crate::model::opt_int_view(r) == spec_tolerated_opt_i32(lookup(record_view(rec@), name@)),
{
    match field_at(rec, name) {
        Some(RawValue::Int(i)) => {
            let i = *i;
            if -2147483648i64 <= i && i <= 2147483647i64 {
                Some(i as i32)
            } else {
                None
            }
        },
        _ => None,
    }
}

/// Read an optional code sent as a string of digits or null.
pub fn opt_str_i32(rec: &Vec<WireField>, name: &str) -> (r: Result<Option<i32>, QueryError>)
    ensures
        r is Ok <==> spec_opt_str_i32(lookup(record_view(rec@), name@)) is Some,
        r is Ok ==> spec_opt_str_i32(lookup(record_view(rec@), name@))
            == Some(crate::model::opt_int_view(r->Ok_0)),
        r is Err ==> r->Err_0 is ParseError,
{
    match field_at(rec, name) {
        Some(RawValue::Null) => Ok(None),
        Some(RawValue::Str(s)) => match parse_i32(s.as_str()) {
            Some(v) => Ok(Some(v)),
            None => Err(parse_error(name)),
        },
        _ => Err(parse_error(name)),
    }
}

/// Read a toggle sent as the number zero or one.
pub fn bool_from_int(rec: &Vec<WireField>, name: &str) -> (r: Result<bool, QueryError>)
    ensures
        r is Ok <==> spec_bool_from_int(lookup(record_view(rec@), name@)) is Some,
        r is Ok ==> spec_bool_from_int(lookup(record_view(rec@), name@)) == Some(r->Ok_0),
        r is Err ==> r->Err_0 is ParseError,
{
    match field_at(rec, name) {
        Some(RawValue::Int(i)) => {
            let i = *i;
            if i == 0 {
                Ok(false)
            } else if i == 1 {
                Ok(true)
            } else {
                Err(parse_error(name))
            }
        },
        _ => Err(parse_error(name)),
    }
}

} // verus!
