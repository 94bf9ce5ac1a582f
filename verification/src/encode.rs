//! The outbound wire form of the search filters: thirteen named fields in a
//! fixed order, text filters as strings, toggles as the integers zero and
//! one, the language as its two-letter code. A symmetric decode checks
//! round trips.

use vstd::prelude::*;
use vstd::string::*;
use crate::model::{language_code, language_of, Language, QueryError, SearchOptions, SearchOptionsV};
use crate::strings::str_eq;
use crate::wire::{record_view, spec_bool_from_int, spec_req_string, RawValue, RawValueV, WireField, WireFieldV};

verus! {

/// A toggle's wire value: one for on, zero for off.
pub open spec fn bool_wire(b: bool) -> int {
    if b {
        1
    } else {
        0
    }
}

/// The wire record a search filter serializes to. The ninth field's name,
/// `OnleyNTUST`, is the upstream service's own frozen spelling: reproducing
/// it exactly is part of the wire contract, not a local naming choice.
pub open spec fn spec_encode_options(o: SearchOptionsV) -> Seq<WireFieldV> {
    seq![
        WireFieldV { name: "Semester"@, value: RawValueV::Str(o.semester) },
        WireFieldV { name: "CourseNo"@, value: RawValueV::Str(o.course_no) },
        WireFieldV { name: "CourseName"@, value: RawValueV::Str(o.course_name) },
        WireFieldV { name: "CourseTeacher"@, value: RawValueV::Str(o.course_teacher) },
        WireFieldV { name: "Dimension"@, value: RawValueV::Str(o.dimension) },
        WireFieldV { name: "CourseNotes"@, value: RawValueV::Str(o.course_notes) },
        WireFieldV { name: "ForeignLanguage"@, value: RawValueV::Int(bool_wire(o.foreign_language)) },
        WireFieldV { name: "OnlyGeneral"@, value: RawValueV::Int(bool_wire(o.only_general)) },
        WireFieldV { name: "OnleyNTUST"@, value: RawValueV::Int(bool_wire(o.only_ntust)) },
        WireFieldV { name: "OnlyMaster"@, value: RawValueV::Int(bool_wire(o.only_master)) },
        WireFieldV { name: "OnlyUnderGraduate"@, value: RawValueV::Int(bool_wire(o.only_under_graduate)) },
        WireFieldV { name: "OnlyNode"@, value: RawValueV::Int(bool_wire(o.only_node)) },
        WireFieldV { name: "Language"@, value: RawValueV::Str(language_code(o.language)) },
    ]
}

/// Serialize a search filter to its wire record.
pub fn encode_search_options(o: &SearchOptions) -> (r: Vec<WireField>)
    ensures
        record_view(r@) == spec_encode_options(o@),
{
    let mut out: Vec<WireField> = Vec::new();
    out.push(WireField {
        name: String::from_str("Semester"),
        value: RawValue::Str(o.semester.clone()),
    });
    out.push(WireField {
        name: String::from_str("CourseNo"),
        value: RawValue::Str(o.course_no.clone()),
    });
    out.push(WireField {
        name: String::from_str("CourseName"),
        value: RawValue::Str(o.course_name.clone()),
    });
    out.push(WireField {
        name: String::from_str("CourseTeacher"),
        value: RawValue::Str(o.course_teacher.clone()),
    });
    out.push(WireField {
        name: String::from_str("Dimension"),
        value: RawValue::Str(o.dimension.clone()),
    });
    out.push(WireField {
        name: String::from_str("CourseNotes"),
        value: RawValue::Str(o.course_notes.clone()),
    });
    out.push(WireField {
        name: String::from_str("ForeignLanguage"),
        value: RawValue::Int(if o.foreign_language { 1 } else { 0 }),
    });
    out.push(WireField {
        name: String::from_str("OnlyGeneral"),
        value: RawValue::Int(if o.only_general { 1 } else { 0 }),
    });
    out.push(WireField {
        name: String::from_str("OnleyNTUST"),
        value: RawValue::Int(if o.only_ntust { 1 } else { 0 }),
    });
    out.push(WireField {
        name: String::from_str("OnlyMaster"),
        value: RawValue::Int(if o.only_master { 1 } else { 0 }),
    });
    out.push(WireField {
        name: String::from_str("OnlyUnderGraduate"),
        value: RawValue::Int(if o.only_under_graduate { 1 } else { 0 }),
    });
    out.push(WireField {
        name: String::from_str("OnlyNode"),
        value: RawValue::Int(if o.only_node { 1 } else { 0 }),
    });
    out.push(WireField {
        name: String::from_str("Language"),
        value: RawValue::Str(String::from_str(o.language.as_str())),
    });
    proof {
        assert(record_view(out@) =~= spec_encode_options(o@)) by {
            assert(forall|k: int| 0 <= k < out@.len()
                ==> #[trigger] record_view(out@)[k] == out@[k]@);
        }
    }
    out
}

/// What the symmetric decode reads from a wire record: exactly the thirteen
/// fields, under their frozen names, in the encoder's order.
pub open spec fn spec_decode_options(rec: Seq<WireFieldV>) -> Option<SearchOptionsV> {
    if rec.len() == 13 && rec[0].name == "Semester"@ && rec[1].name == "CourseNo"@
        && rec[2].name == "CourseName"@ && rec[3].name == "CourseTeacher"@
        && rec[4].name == "Dimension"@ && rec[5].name == "CourseNotes"@
        && rec[6].name == "ForeignLanguage"@ && rec[7].name == "OnlyGeneral"@
        && rec[8].name == "OnleyNTUST"@ && rec[9].name == "OnlyMaster"@
        && rec[10].name == "OnlyUnderGraduate"@ && rec[11].name == "OnlyNode"@
        && rec[12].name == "Language"@ {
        let semester = spec_req_string(rec[0].value);
        let course_no = spec_req_string(rec[1].value);
        let course_name = spec_req_string(rec[2].value);
        let course_teacher = spec_req_string(rec[3].value);
        let dimension = spec_req_string(rec[4].value);
        let course_notes = spec_req_string(rec[5].value);
        let foreign_language = spec_bool_from_int(rec[6].value);
        let only_general = spec_bool_from_int(rec[7].value);
        let only_ntust = spec_bool_from_int(rec[8].value);
        let only_master = spec_bool_from_int(rec[9].value);
        let only_under_graduate = spec_bool_from_int(rec[10].value);
        let only_node = spec_bool_from_int(rec[11].value);
        let language = match rec[12].value {
            RawValueV::Str(s) => language_of(s),
            _ => None,
        };
        if semester is Some && course_no is Some && course_name is Some
            && course_teacher is Some && dimension is Some && course_notes is Some
            && foreign_language is Some && only_general is Some && only_ntust is Some
            && only_master is Some && only_under_graduate is Some && only_node is Some
            && language is Some {
            Some(SearchOptionsV {
                semester: semester->0,
                course_no: course_no->0,
                course_name: course_name->0,
                course_teacher: course_teacher->0,
                dimension: dimension->0,
                course_notes: course_notes->0,
                foreign_language: foreign_language->0,
                only_general: only_general->0,
                only_ntust: only_ntust->0,
                only_master: only_master->0,
                only_under_graduate: only_under_graduate->0,
                only_node: only_node->0,
                language: language->0,
            })
        } else {
            None
        }
    } else {
        None
    }
}

/// Read the string at position `k`, checking the field's frozen name.
fn rec_string(rec: &Vec<WireField>, k: usize, name: &str) -> (r: Result<String, QueryError>)
    requires
        k < rec@.len(),
    ensures
        r is Ok <==> (record_view(rec@)[k as int].name == name@
            && spec_req_string(record_view(rec@)[k as int].value) is Some),
        r is Ok ==> spec_req_string(record_view(rec@)[k as int].value) == Some(r->Ok_0@),
        r is Err ==> r->Err_0 is ParseError,
{
    proof {
        assert(record_view(rec@)[k as int] == rec@[k as int]@);
    }
    if !str_eq(rec[k].name.as_str(), name) {
        let mut m = String::from_str("unexpected field in place of: ");
        m.append(name);
        return Err(QueryError::ParseError(m));
    }
    match &rec[k].value {
        RawValue::Str(s) => Ok(s.clone()),
        _ => {
            let mut m = String::from_str("expected a string field: ");
            m.append(name);
            Err(QueryError::ParseError(m))
        },
    }
}

/// Read the toggle at position `k`, checking the field's frozen name.
fn rec_bool(rec: &Vec<WireField>, k: usize, name: &str) -> (r: Result<bool, QueryError>)
    requires
        k < rec@.len(),
    ensures
        r is Ok <==> (record_view(rec@)[k as int].name == name@
            && spec_bool_from_int(record_view(rec@)[k as int].value) is Some),
        r is Ok ==> spec_bool_from_int(record_view(rec@)[k as int].value) == Some(r->Ok_0),
        r is Err ==> r->Err_0 is ParseError,
{
    proof {
        assert(record_view(rec@)[k as int] == rec@[k as int]@);
    }
    if !str_eq(rec[k].name.as_str(), name) {
        let mut m = String::from_str("unexpected field in place of: ");
        m.append(name);
        return Err(QueryError::ParseError(m));
    }
    match &rec[k].value {
        RawValue::Int(i) => {
            let i = *i;
            if i == 0 {
                Ok(false)
            } else if i == 1 {
                Ok(true)
            } else {
                let mut m = String::from_str("a toggle must be zero or one: ");
                m.append(name);
                Err(QueryError::ParseError(m))
            }
        },
        _ => {
            let mut m = String::from_str("expected a toggle field: ");
            m.append(name);
            Err(QueryError::ParseError(m))
        },
    }
}

/// Symmetric decode of a search filter's wire record, for checking round
/// trips: expects exactly the thirteen fields in the encoder's order.
pub fn decode_search_options(rec: &Vec<WireField>) -> (r: Result<SearchOptions, QueryError>)
    ensures
        r is Ok <==> spec_decode_options(record_view(rec@)) is Some,
        r is Ok ==> spec_decode_options(record_view(rec@)) == Some(r->Ok_0@),
        r is Err ==> r->Err_0 is ParseError,
{
    proof {
        assert(forall|k: int| 0 <= k < rec@.len()
            ==> #[trigger] record_view(rec@)[k] == rec@[k]@);
    }
    if rec.len() != 13 {
        return Err(QueryError::ParseError(String::from_str("expected thirteen fields")));
    }
    let semester = match rec_string(rec, 0, "Semester") {
        Ok(v) => v,
        Err(e) => return Err(e),
    };
    let course_no = match rec_string(rec, 1, "CourseNo") {
        Ok(v) => v,
        Err(e) => return Err(e),
    };
    let course_name = match rec_string(rec, 2, "CourseName") {
        Ok(v) => v,
        Err(e) => return Err(e),
    };
    let course_teacher = match rec_string(rec, 3, "CourseTeacher") {
        Ok(v) => v,
        Err(e) => return Err(e),
    };
    let dimension = match rec_string(rec, 4, "Dimension") {
        Ok(v) => v,
        Err(e) => return Err(e),
    };
    let course_notes = match rec_string(rec, 5, "CourseNotes") {
        Ok(v) => v,
        Err(e) => return Err(e),
    };
    let foreign_language = match rec_bool(rec, 6, "ForeignLanguage") {
        Ok(v) => v,
        Err(e) => return Err(e),
    };
    let only_general = match rec_bool(rec, 7, "OnlyGeneral") {
        Ok(v) => v,
        Err(e) => return Err(e),
    };
    let only_ntust = match rec_bool(rec, 8, "OnleyNTUST") {
        Ok(v) => v,
        Err(e) => return Err(e),
    };
    let only_master = match rec_bool(rec, 9, "OnlyMaster") {
        Ok(v) => v,
        Err(e) => return Err(e),
    };
    let only_under_graduate = match rec_bool(rec, 10, "OnlyUnderGraduate") {
        Ok(v) => v,
        Err(e) => return Err(e),
    };
    let only_node = match rec_bool(rec, 11, "OnlyNode") {
        Ok(v) => v,
        Err(e) => return Err(e),
    };
    if !str_eq(rec[12].name.as_str(), "Language") {
        return Err(QueryError::ParseError(String::from_str("expected the language field last")));
    }
    let language = match &rec[12].value {
        RawValue::Str(s) => match Language::from_str(s.as_str()) {
            Ok(l) => l,
            Err(_) => {
                return Err(QueryError::ParseError(String::from_str("unknown language code")));
            },
        },
        _ => {
            return Err(QueryError::ParseError(String::from_str("expected a language code")));
        },
    };
    Ok(SearchOptions {
        semester,
        course_no,
        course_name,
        course_teacher,
        dimension,
        course_notes,
        foreign_language,
        only_general,
        only_ntust,
        only_master,
        only_under_graduate,
        only_node,
        language,
    })
}

/// Round trip: the symmetric decode of an encoded search filter gives back
/// every filter field exactly, the frozen misspelled toggle included.
pub proof fn lemma_options_round_trip(o: SearchOptionsV)
    ensures
        spec_decode_options(spec_encode_options(o)) == Some(o),
{
    let enc = spec_encode_options(o);
    assert(enc.len() == 13);
    if o.language is En {
        reveal_strlit("zh");
        reveal_strlit("en");
        if "en"@ == "zh"@ {
            assert("en"@[0] == "zh"@[0]);
            assert(false);
        }
    }
}

} // verus!