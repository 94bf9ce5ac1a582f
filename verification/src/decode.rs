//! Decoding of upstream records into typed course values, field by field,
//! with the service's irregular encodings handled by one coercion layer:
//! numbers as strings, booleans as integers, empty strings as absence, and
//! two tolerated fields that default instead of failing.

use vstd::prelude::*;
use crate::model::{CourseDetails, CourseDetailsV, CourseInfo, CourseInfoV, QueryError};
use crate::wire::{
    bool_from_int, empty_as_none, lookup, opt_str_i32, opt_string, plain_i32, record_view,
    req_string, spec_empty_as_none, spec_opt_str_i32, spec_opt_string, spec_plain_i32,
    spec_req_string, spec_str_i32, spec_tolerated_i32, spec_tolerated_opt_i32, str_i32,
    tolerated_i32, tolerated_opt_i32, WireField,
};
use crate::numbers::{parse_decimal, parse_decimal_spec};
use crate::model::Decimal;

verus! {

/// The credit-point field: a decimal sent as a JSON string.
pub open spec fn spec_credit(v: crate::wire::RawValueV) -> Option<Decimal> {
    match v {
        crate::wire::RawValueV::Str(s) => parse_decimal_spec(s),
        _ => None,
    }
}

/// Read the credit-point field.
fn credit(rec: &Vec<WireField>, name: &str) -> (r: Result<Decimal, QueryError>)
    ensures
        r is Ok <==> spec_credit(lookup(record_view(rec@), name@)) is Some,
        r is Ok ==> spec_credit(lookup(record_view(rec@), name@)) == Some(r->Ok_0),
        r is Err ==> r->Err_0 is ParseError,
{
    match crate::wire::req_string(rec, name) {
        Ok(s) => match parse_decimal(s.as_str()) {
            Some(d) => Ok(d),
            None => Err(QueryError::ParseError(s)),
        },
        Err(e) => Err(e),
    }
}

/// What one search row decodes to, if anything: every field read with its
/// coercion rule, the whole row refused when any required field fails.
/// The two restriction counts are tolerated: they default to zero.
pub open spec fn spec_decode_info(rec: Seq<crate::wire::WireFieldV>) -> Option<CourseInfoV> {
    let semester = spec_req_string(lookup(rec, "Semester"@));
    let course_no = spec_req_string(lookup(rec, "CourseNo"@));
    let course_name = spec_req_string(lookup(rec, "CourseName"@));
    let course_teacher = spec_req_string(lookup(rec, "CourseTeacher"@));
    let dimension = spec_req_string(lookup(rec, "Dimension"@));
    let credit_point = spec_credit(lookup(rec, "CreditPoint"@));
    let require_option = spec_req_string(lookup(rec, "RequireOption"@));
    let all_year = spec_req_string(lookup(rec, "AllYear"@));
    let choose_student = spec_plain_i32(lookup(rec, "ChooseStudent"@));
    let restrict1 = spec_str_i32(lookup(rec, "Restrict1"@));
    let restrict2 = spec_str_i32(lookup(rec, "Restrict2"@));
    let three_student = spec_plain_i32(lookup(rec, "ThreeStudent"@));
    let all_student = spec_plain_i32(lookup(rec, "AllStudent"@));
    let nturestrict = spec_tolerated_i32(lookup(rec, "NTURestrict"@));
    let ntnurestrict = spec_tolerated_i32(lookup(rec, "NTNURestrict"@));
    let course_times = spec_req_string(lookup(rec, "CourseTimes"@));
    let practical_times = spec_req_string(lookup(rec, "PracticalTimes"@));
    let class_room_no = spec_opt_string(lookup(rec, "ClassRoomNo"@));
    let three_node = spec_opt_string(lookup(rec, "ThreeNode"@));
    let node = spec_opt_string(lookup(rec, "Node"@));
    let contents = spec_req_string(lookup(rec, "Contents"@));
    let ntu_people = spec_plain_i32(lookup(rec, "NTU_People"@));
    let ntnu_people = spec_plain_i32(lookup(rec, "NTNU_People"@));
    let abroad_people = spec_plain_i32(lookup(rec, "AbroadPeople"@));
    if semester is Some && course_no is Some && course_name is Some && course_teacher is Some
        && dimension is Some && credit_point is Some && require_option is Some
        && all_year is Some && choose_student is Some && restrict1 is Some && restrict2 is Some
        && three_student is Some && all_student is Some && course_times is Some
        && practical_times is Some && class_room_no is Some && three_node is Some
        && node is Some && contents is Some && ntu_people is Some && ntnu_people is Some
        && abroad_people is Some {
        Some(CourseInfoV {
            semester: semester->0,
            course_no: course_no->0,
            course_name: course_name->0,
            course_teacher: course_teacher->0,
            dimension: dimension->0,
            credit_point: credit_point->0,
            require_option: require_option->0,
            all_year: all_year->0,
            choose_student: choose_student->0,
            restrict1: restrict1->0,
            restrict2: restrict2->0,
            three_student: three_student->0,
            all_student: all_student->0,
            nturestrict: nturestrict,
            ntnurestrict: ntnurestrict,
            course_times: course_times->0,
            practical_times: practical_times->0,
            class_room_no: class_room_no->0,
            three_node: three_node->0,
            node: node->0,
            contents: contents->0,
            ntu_people: ntu_people->0,
            ntnu_people: ntnu_people->0,
            abroad_people: abroad_people->0,
        })
    } else {
        None
    }
}

/// Decode one search row.
pub fn decode_course_info(rec: &Vec<WireField>) -> (r: Result<CourseInfo, QueryError>)
    ensures
        r is Ok <==> spec_decode_info(record_view(rec@)) is Some,
        r is Ok ==> spec_decode_info(record_view(rec@)) == Some(r->Ok_0@),
        r is Err ==> r->Err_0 is ParseError,
{
    let semester = match req_string(rec, "Semester") {
        Ok(v) => v,
        Err(e) => return Err(e),
    };
    let course_no = match req_string(rec, "CourseNo") {
        Ok(v) => v,
        Err(e) => return Err(e),
    };
    let course_name = match req_string(rec, "CourseName") {
        Ok(v) => v,
        Err(e) => return Err(e),
    };
    let course_teacher = match req_string(rec, "CourseTeacher") {
        Ok(v) => v,
        Err(e) => return Err(e),
    };
    let dimension = match req_string(rec, "Dimension") {
        Ok(v) => v,
        Err(e) => return Err(e),
    };
    let credit_point = match credit(rec, "CreditPoint") {
        Ok(v) => v,
        Err(e) => return Err(e),
    };
    let require_option = match req_string(rec, "RequireOption") {
        Ok(v) => v,
        Err(e) => return Err(e),
    };
    let all_year = match req_string(rec, "AllYear") {
        Ok(v) => v,
        Err(e) => return Err(e),
    };
    let choose_student = match plain_i32(rec, "ChooseStudent") {
        Ok(v) => v,
        Err(e) => return Err(e),
    };
    let restrict1 = match str_i32(rec, "Restrict1") {
        Ok(v) => v,
        Err(e) => return Err(e),
    };
    let restrict2 = match str_i32(rec, "Restrict2") {
        Ok(v) => v,
        Err(e) => return Err(e),
    };
    let three_student = match plain_i32(rec, "ThreeStudent") {
        Ok(v) => v,
        Err(e) => return Err(e),
    };
    let all_student = match plain_i32(rec, "AllStudent") {
        Ok(v) => v,
        Err(e) => return Err(e),
    };
    let nturestrict = tolerated_i32(rec, "NTURestrict");
    let ntnurestrict = tolerated_i32(rec, "NTNURestrict");
    let course_times = match req_string(rec, "CourseTimes") {
        Ok(v) => v,
        Err(e) => return Err(e),
    };
    let practical_times = match req_string(rec, "PracticalTimes") {
        Ok(v) => v,
        Err(e) => return Err(e),
    };
    let class_room_no = match opt_string(rec, "ClassRoomNo") {
        Ok(v) => v,
        Err(e) => return Err(e),
    };
    let three_node = match opt_string(rec, "ThreeNode") {
        Ok(v) => v,
        Err(e) => return Err(e),
    };
    let node = match opt_string(rec, "Node") {
        Ok(v) => v,
        Err(e) => return Err(e),
    };
    let contents = match req_string(rec, "Contents") {
        Ok(v) => v,
        Err(e) => return Err(e),
    };
    let ntu_people = match plain_i32(rec, "NTU_People") {
        Ok(v) => v,
        Err(e) => return Err(e),
    };
    let ntnu_people = match plain_i32(rec, "NTNU_People") {
        Ok(v) => v,
        Err(e) => return Err(e),
    };
    let abroad_people = match plain_i32(rec, "AbroadPeople") {
        Ok(v) => v,
        Err(e) => return Err(e),
    };
    Ok(CourseInfo {
        semester,
        course_no,
        course_name,
        course_teacher,
        dimension,
        credit_point,
        require_option,
        all_year,
        choose_student,
        restrict1,
        restrict2,
        three_student,
        all_student,
        nturestrict,
        ntnurestrict,
        course_times,
        practical_times,
        class_room_no,
        three_node,
        node,
        contents,
        ntu_people,
        ntnu_people,
        abroad_people,
    })
}

/// What one details record decodes to, if anything. Counts arrive as digit
/// strings, the long text fields use an empty string to mean no value, and
/// the optional instruction codes arrive as digit strings or null.
/// The two restriction counts are tolerated: `NTURestrict` defaults to zero
/// and `NTNURestrict` to no value, instead of failing the record.
pub open spec fn spec_decode_details(rec: Seq<crate::wire::WireFieldV>) -> Option<CourseDetailsV> {
    let semester = spec_req_string(lookup(rec, "Semester"@));
    let course_no = spec_req_string(lookup(rec, "CourseNo"@));
    let course_name = spec_req_string(lookup(rec, "CourseName"@));
    let course_teacher = spec_req_string(lookup(rec, "CourseTeacher"@));
    let credit_point = spec_credit(lookup(rec, "CreditPoint"@));
    let course_times = spec_str_i32(lookup(rec, "CourseTimes"@));
    let practical_times = spec_str_i32(lookup(rec, "PracticalTimes"@));
    let require_option = spec_req_string(lookup(rec, "RequireOption"@));
    let all_year = spec_req_string(lookup(rec, "AllYear"@));
    let choose_student = spec_str_i32(lookup(rec, "ChooseStudent"@));
    let three_student = spec_str_i32(lookup(rec, "ThreeStudent"@));
    let all_student = spec_str_i32(lookup(rec, "AllStudent"@));
    let restrict1 = spec_str_i32(lookup(rec, "Restrict1"@));
    let restrict2 = spec_str_i32(lookup(rec, "Restrict2"@));
    let nturestrict = spec_tolerated_i32(lookup(rec, "NTURestrict"@));
    let ntnurestrict = spec_tolerated_opt_i32(lookup(rec, "NTNURestrict"@));
    let class_room_no = spec_empty_as_none(lookup(rec, "ClassRoomNo"@));
    let core_ability = spec_empty_as_none(lookup(rec, "CoreAbility"@));
    let course_url = spec_empty_as_none(lookup(rec, "CourseURL"@));
    let course_object = spec_empty_as_none(lookup(rec, "CourseObject"@));
    let course_content = spec_empty_as_none(lookup(rec, "CourseContent"@));
    let course_textbook = spec_empty_as_none(lookup(rec, "CourseTextbook"@));
    let course_refbook = spec_empty_as_none(lookup(rec, "CourseRefbook"@));
    let course_note = spec_empty_as_none(lookup(rec, "CourseNote"@));
    let course_grading = spec_empty_as_none(lookup(rec, "CourseGrading"@));
    let course_remark = spec_empty_as_none(lookup(rec, "CourseRemark"@));
    let instruction_1 = spec_opt_str_i32(lookup(rec, "Instruction_1"@));
    let instruction_2 = spec_opt_str_i32(lookup(rec, "Instruction_2"@));
    let instruction_3 = spec_opt_str_i32(lookup(rec, "Instruction_3"@));
    let instruction_4 = spec_opt_str_i32(lookup(rec, "Instruction_4"@));
    let instruction_other = spec_empty_as_none(lookup(rec, "Instruction_other"@));
    if semester is Some && course_no is Some && course_name is Some && course_teacher is Some
        && credit_point is Some && course_times is Some && practical_times is Some
        && require_option is Some && all_year is Some && choose_student is Some
        && three_student is Some && all_student is Some && restrict1 is Some
        && restrict2 is Some && class_room_no is Some && core_ability is Some
        && course_url is Some && course_object is Some && course_content is Some
        && course_textbook is Some && course_refbook is Some && course_note is Some
        && course_grading is Some && course_remark is Some && instruction_1 is Some
        && instruction_2 is Some && instruction_3 is Some && instruction_4 is Some
        && instruction_other is Some {
        Some(CourseDetailsV {
            semester: semester->0,
            course_no: course_no->0,
            course_name: course_name->0,
            course_teacher: course_teacher->0,
            credit_point: credit_point->0,
            course_times: course_times->0,
            practical_times: practical_times->0,
            require_option: require_option->0,
            all_year: all_year->0,
            choose_student: choose_student->0,
            three_student: three_student->0,
            all_student: all_student->0,
            restrict1: restrict1->0,
            restrict2: restrict2->0,
            nturestrict: nturestrict,
            ntnurestrict: ntnurestrict,
            class_room_no: class_room_no->0,
            core_ability: core_ability->0,
            course_url: course_url->0,
            course_object: course_object->0,
            course_content: course_content->0,
            course_textbook: course_textbook->0,
            course_refbook: course_refbook->0,
            course_note: course_note->0,
            course_grading: course_grading->0,
            course_remark: course_remark->0,
            instruction_1: instruction_1->0,
            instruction_2: instruction_2->0,
            instruction_3: instruction_3->0,
            instruction_4: instruction_4->0,
            instruction_other: instruction_other->0,
        })
    } else {
        None
    }
}

/// Decode one details record.
pub fn decode_course_details(rec: &Vec<WireField>) -> (r: Result<CourseDetails, QueryError>)
    ensures
        r is Ok <==> spec_decode_details(record_view(rec@)) is Some,
        r is Ok ==> spec_decode_details(record_view(rec@)) == Some(r->Ok_0@),
        r is Err ==> r->Err_0 is ParseError,
{
    let semester = match req_string(rec, "Semester") {
        Ok(v) => v,
        Err(e) => return Err(e),
    };
    let course_no = match req_string(rec, "CourseNo") {
        Ok(v) => v,
        Err(e) => return Err(e),
    };
    let course_name = match req_string(rec, "CourseName") {
        Ok(v) => v,
        Err(e) => return Err(e),
    };
    let course_teacher = match req_string(rec, "CourseTeacher") {
        Ok(v) => v,
        Err(e) => return Err(e),
    };
    let credit_point = match credit(rec, "CreditPoint") {
        Ok(v) => v,
        Err(e) => return Err(e),
    };
    let course_times = match str_i32(rec, "CourseTimes") {
        Ok(v) => v,
        Err(e) => return Err(e),
    };
    let practical_times = match str_i32(rec, "PracticalTimes") {
        Ok(v) => v,
        Err(e) => return Err(e),
    };
    let require_option = match req_string(rec, "RequireOption") {
        Ok(v) => v,
        Err(e) => return Err(e),
    };
    let all_year = match req_string(rec, "AllYear") {
        Ok(v) => v,
        Err(e) => return Err(e),
    };
    let choose_student = match str_i32(rec, "ChooseStudent") {
        Ok(v) => v,
        Err(e) => return Err(e),
    };
    let three_student = match str_i32(rec, "ThreeStudent") {
        Ok(v) => v,
        Err(e) => return Err(e),
    };
    let all_student = match str_i32(rec, "AllStudent") {
        Ok(v) => v,
        Err(e) => return Err(e),
    };
    let restrict1 = match str_i32(rec, "Restrict1") {
        Ok(v) => v,
        Err(e) => return Err(e),
    };
    let restrict2 = match str_i32(rec, "Restrict2") {
        Ok(v) => v,
        Err(e) => return Err(e),
    };
    let nturestrict = tolerated_i32(rec, "NTURestrict");
    let ntnurestrict = tolerated_opt_i32(rec, "NTNURestrict");
    let class_room_no = match empty_as_none(rec, "ClassRoomNo") {
        Ok(v) => v,
        Err(e) => return Err(e),
    };
    let core_ability = match empty_as_none(rec, "CoreAbility") {
        Ok(v) => v,
        Err(e) => return Err(e),
    };
    let course_url = match empty_as_none(rec, "CourseURL") {
        Ok(v) => v,
        Err(e) => return Err(e),
    };
    let course_object = match empty_as_none(rec, "CourseObject") {
        Ok(v) => v,
        Err(e) => return Err(e),
    };
    let course_content = match empty_as_none(rec, "CourseContent") {
        Ok(v) => v,
        Err(e) => return Err(e),
    };
    let course_textbook = match empty_as_none(rec, "CourseTextbook") {
        Ok(v) => v,
        Err(e) => return Err(e),
    };
    let course_refbook = match empty_as_none(rec, "CourseRefbook") {
        Ok(v) => v,
        Err(e) => return Err(e),
    };
    let course_note = match empty_as_none(rec, "CourseNote") {
        Ok(v) => v,
        Err(e) => return Err(e),
    };
    let course_grading = match empty_as_none(rec, "CourseGrading") {
        Ok(v) => v,
        Err(e) => return Err(e),
    };
    let course_remark = match empty_as_none(rec, "CourseRemark") {
        Ok(v) => v,
        Err(e) => return Err(e),
    };
    let instruction_1 = match opt_str_i32(rec, "Instruction_1") {
        Ok(v) => v,
        Err(e) => return Err(e),
    };
    let instruction_2 = match opt_str_i32(rec, "Instruction_2") {
        Ok(v) => v,
        Err(e) => return Err(e),
    };
    let instruction_3 = match opt_str_i32(rec, "Instruction_3") {
        Ok(v) => v,
        Err(e) => return Err(e),
    };
    let instruction_4 = match opt_str_i32(rec, "Instruction_4") {
        Ok(v) => v,
        Err(e) => return Err(e),
    };
    let instruction_other = match empty_as_none(rec, "Instruction_other") {
        Ok(v) => v,
        Err(e) => return Err(e),
    };
    Ok(CourseDetails {
        semester,
        course_no,
        course_name,
        course_teacher,
        credit_point,
        course_times,
        practical_times,
        require_option,
        all_year,
        choose_student,
        three_student,
        all_student,
        restrict1,
        restrict2,
        nturestrict,
        ntnurestrict,
        class_room_no,
        core_ability,
        course_url,
        course_object,
        course_content,
        course_textbook,
        course_refbook,
        course_note,
        course_grading,
        course_remark,
        instruction_1,
        instruction_2,
        instruction_3,
        instruction_4,
        instruction_other,
    })
}

/// The mathematical values of a list of wire records.
pub open spec fn records_view(rs: Seq<Vec<WireField>>) -> Seq<Seq<crate::wire::WireFieldV>> {
    rs.map_values(|r: Vec<WireField>| record_view(r@))
}

/// Decode every row of a search response. One failing row refuses the whole
/// response; otherwise each row decodes in place, so the result has exactly
/// one course per upstream row.
pub fn decode_course_infos(rows: &Vec<Vec<WireField>>) -> (r: Result<Vec<CourseInfo>, QueryError>)
    ensures
        r is Ok <==> (forall|k: int|
            0 <= k < rows@.len() ==> spec_decode_info(#[trigger] records_view(rows@)[k]) is Some),
        r is Ok ==> r->Ok_0@.len() == rows@.len(),
        r is Ok ==> forall|k: int|
            0 <= k < rows@.len()
                ==> Some((#[trigger] r->Ok_0@[k])@) == spec_decode_info(records_view(rows@)[k]),
        r is Err ==> r->Err_0 is ParseError,
{
    let ghost rv = records_view(rows@);
    proof {
        assert(forall|k: int| 0 <= k < rows@.len() ==> #[trigger] rv[k] == record_view(rows@[k]@));
    }
    let n = rows.len();
    let mut out: Vec<CourseInfo> = Vec::new();
    let mut i: usize = 0;
    while i < n
        invariant
            i <= n,
            n == rows.len(),
            rv == records_view(rows@),
            forall|k: int| 0 <= k < rows@.len() ==> #[trigger] rv[k] == record_view(rows@[k]@),
            out@.len() == i,
            forall|k: int| 0 <= k < i ==> Some((#[trigger] out@[k])@) == spec_decode_info(rv[k]),
        decreases n - i,
    {
        match decode_course_info(&rows[i]) {
            Ok(c) => {
                out.push(c);
            },
            Err(e) => {
                proof {
                    assert(records_view(rows@)[i as int] == rv[i as int]);
                    assert(spec_decode_info(records_view(rows@)[i as int]) is None);
                }
                return Err(e);
            },
        }
        i = i + 1;
    }
    proof {
        assert forall|k: int| 0 <= k < rows@.len()
            implies spec_decode_info(#[trigger] records_view(rows@)[k]) is Some
                && Some(out@[k]@) == spec_decode_info(records_view(rows@)[k]) by {
            assert(records_view(rows@)[k] == rv[k]);
            assert(Some(out@[k]@) == spec_decode_info(rv[k]));
        }
    }
    Ok(out)
}

/// Decode every record of a details response.
pub fn decode_course_details_list(rows: &Vec<Vec<WireField>>) -> (r: Result<
    Vec<CourseDetails>,
    QueryError,
>)
    ensures
        r is Ok <==> (forall|k: int|
            0 <= k < rows@.len()
                ==> spec_decode_details(#[trigger] records_view(rows@)[k]) is Some),
        r is Ok ==> r->Ok_0@.len() == rows@.len(),
        r is Ok ==> forall|k: int|
            0 <= k < rows@.len()
                ==> Some((#[trigger] r->Ok_0@[k])@) == spec_decode_details(records_view(rows@)[k]),
        r is Err ==> r->Err_0 is ParseError,
{
    let ghost rv = records_view(rows@);
    proof {
        assert(forall|k: int| 0 <= k < rows@.len() ==> #[trigger] rv[k] == record_view(rows@[k]@));
    }
    let n = rows.len();
    let mut out: Vec<CourseDetails> = Vec::new();
    let mut i: usize = 0;
    while i < n
        invariant
            i <= n,
            n == rows.len(),
            rv == records_view(rows@),
            forall|k: int| 0 <= k < rows@.len() ==> #[trigger] rv[k] == record_view(rows@[k]@),
            out@.len() == i,
            forall|k: int| 0 <= k < i ==> Some((#[trigger] out@[k])@) == spec_decode_details(rv[k]),
        decreases n - i,
    {
        match decode_course_details(&rows[i]) {
            Ok(c) => {
                out.push(c);
            },
            Err(e) => {
                proof {
                    assert(records_view(rows@)[i as int] == rv[i as int]);
                    assert(spec_decode_details(records_view(rows@)[i as int]) is None);
                }
                return Err(e);
            },
        }
        i = i + 1;
    }
    proof {
        assert forall|k: int| 0 <= k < rows@.len()
            implies spec_decode_details(#[trigger] records_view(rows@)[k]) is Some
                && Some(out@[k]@) == spec_decode_details(records_view(rows@)[k]) by {
            assert(records_view(rows@)[k] == rv[k]);
            assert(Some(out@[k]@) == spec_decode_details(rv[k]));
        }
    }
    Ok(out)
}

/// The two restriction counts are tolerated defaults, never reasons to fail:
/// a details record whose `NTURestrict` is missing entirely decodes exactly
/// when the rest of the record does, with that count zero and, when
/// `NTNURestrict` is missing too, that one absent.
pub proof fn lemma_restrict_tolerated(rec: Seq<crate::wire::WireFieldV>)
    ensures
        lookup(rec, "NTURestrict"@) == crate::wire::RawValueV::Absent
            ==> (spec_decode_details(rec) matches Some(d) ==> d.nturestrict == 0),
        lookup(rec, "NTNURestrict"@) == crate::wire::RawValueV::Absent
            ==> (spec_decode_details(rec) matches Some(d) ==> d.ntnurestrict is None),
{
}

/// Whether a details record decodes at all never depends on the two
/// tolerated restriction counts: two records that agree on every other
/// field name decode together or fail together. In particular, dropping
/// `NTURestrict` from a record that decodes leaves one that still decodes.
pub proof fn lemma_decode_details_ignores_restricts(
    rec1: Seq<crate::wire::WireFieldV>,
    rec2: Seq<crate::wire::WireFieldV>,
)
    requires
        forall|name: Seq<char>|
            name != "NTURestrict"@ && name != "NTNURestrict"@
                ==> #[trigger] lookup(rec1, name) == lookup(rec2, name),
    ensures
        spec_decode_details(rec1) is Some <==> spec_decode_details(rec2) is Some,
{
    reveal_strlit("Semester");
    reveal_strlit("CourseNo");
    reveal_strlit("CourseName");
    reveal_strlit("CourseTeacher");
    reveal_strlit("CreditPoint");
    reveal_strlit("CourseTimes");
    reveal_strlit("PracticalTimes");
    reveal_strlit("RequireOption");
    reveal_strlit("AllYear");
    reveal_strlit("ChooseStudent");
    reveal_strlit("ThreeStudent");
    reveal_strlit("AllStudent");
    reveal_strlit("Restrict1");
    reveal_strlit("Restrict2");
    reveal_strlit("NTURestrict");
    reveal_strlit("NTNURestrict");
    reveal_strlit("ClassRoomNo");
    reveal_strlit("CoreAbility");
    reveal_strlit("CourseURL");
    reveal_strlit("CourseObject");
    reveal_strlit("CourseContent");
    reveal_strlit("CourseTextbook");
    reveal_strlit("CourseRefbook");
    reveal_strlit("CourseNote");
    reveal_strlit("CourseGrading");
    reveal_strlit("CourseRemark");
    reveal_strlit("Instruction_1");
    reveal_strlit("Instruction_2");
    reveal_strlit("Instruction_3");
    reveal_strlit("Instruction_4");
    reveal_strlit("Instruction_other");
    assert("NTURestrict"@.len() == 11);
    assert("NTNURestrict"@.len() == 12);
    assert("Semester"@.len() == 8);
    assert("CourseNo"@.len() == 8);
    assert("CourseName"@.len() == 10);
    assert("CourseTeacher"@.len() == 13);
    assert("CreditPoint"@.len() == 11 && "CreditPoint"@[0] == 'C'
        && "NTURestrict"@[0] == 'N');
    assert("CourseTimes"@.len() == 11 && "CourseTimes"@[0] == 'C');
    assert("PracticalTimes"@.len() == 14);
    assert("RequireOption"@.len() == 13);
    assert("AllYear"@.len() == 7);
    assert("ChooseStudent"@.len() == 13);
    assert("ThreeStudent"@.len() == 12 && "ThreeStudent"@[0] == 'T'
        && "NTNURestrict"@[0] == 'N');
    assert("AllStudent"@.len() == 10);
    assert("Restrict1"@.len() == 9);
    assert("Restrict2"@.len() == 9);
    assert("ClassRoomNo"@.len() == 11 && "ClassRoomNo"@[0] == 'C');
    assert("CoreAbility"@.len() == 11 && "CoreAbility"@[0] == 'C');
    assert("CourseURL"@.len() == 9);
    assert("CourseObject"@.len() == 12 && "CourseObject"@[0] == 'C');
    assert("CourseContent"@.len() == 13);
    assert("CourseTextbook"@.len() == 14);
    assert("CourseRefbook"@.len() == 13);
    assert("CourseNote"@.len() == 10);
    assert("CourseGrading"@.len() == 13);
    assert("CourseRemark"@.len() == 12 && "CourseRemark"@[0] == 'C');
    assert("Instruction_1"@.len() == 13);
    assert("Instruction_2"@.len() == 13);
    assert("Instruction_3"@.len() == 13);
    assert("Instruction_4"@.len() == 13);
    assert("Instruction_other"@.len() == 17);
    assert(lookup(rec1, "Semester"@) == lookup(rec2, "Semester"@));
    assert(lookup(rec1, "CourseNo"@) == lookup(rec2, "CourseNo"@));
    assert(lookup(rec1, "CourseName"@) == lookup(rec2, "CourseName"@));
    assert(lookup(rec1, "CourseTeacher"@) == lookup(rec2, "CourseTeacher"@));
    assert(lookup(rec1, "CreditPoint"@) == lookup(rec2, "CreditPoint"@));
    assert(lookup(rec1, "CourseTimes"@) == lookup(rec2, "CourseTimes"@));
    assert(lookup(rec1, "PracticalTimes"@) == lookup(rec2, "PracticalTimes"@));
    assert(lookup(rec1, "RequireOption"@) == lookup(rec2, "RequireOption"@));
    assert(lookup(rec1, "AllYear"@) == lookup(rec2, "AllYear"@));
    assert(lookup(rec1, "ChooseStudent"@) == lookup(rec2, "ChooseStudent"@));
    assert(lookup(rec1, "ThreeStudent"@) == lookup(rec2, "ThreeStudent"@));
    assert(lookup(rec1, "AllStudent"@) == lookup(rec2, "AllStudent"@));
    assert(lookup(rec1, "Restrict1"@) == lookup(rec2, "Restrict1"@));
    assert(lookup(rec1, "Restrict2"@) == lookup(rec2, "Restrict2"@));
    assert(lookup(rec1, "ClassRoomNo"@) == lookup(rec2, "ClassRoomNo"@));
    assert(lookup(rec1, "CoreAbility"@) == lookup(rec2, "CoreAbility"@));
    assert(lookup(rec1, "CourseURL"@) == lookup(rec2, "CourseURL"@));
    assert(lookup(rec1, "CourseObject"@) == lookup(rec2, "CourseObject"@));
    assert(lookup(rec1, "CourseContent"@) == lookup(rec2, "CourseContent"@));
    assert(lookup(rec1, "CourseTextbook"@) == lookup(rec2, "CourseTextbook"@));
    assert(lookup(rec1, "CourseRefbook"@) == lookup(rec2, "CourseRefbook"@));
    assert(lookup(rec1, "CourseNote"@) == lookup(rec2, "CourseNote"@));
    assert(lookup(rec1, "CourseGrading"@) == lookup(rec2, "CourseGrading"@));
    assert(lookup(rec1, "CourseRemark"@) == lookup(rec2, "CourseRemark"@));
    assert(lookup(rec1, "Instruction_1"@) == lookup(rec2, "Instruction_1"@));
    assert(lookup(rec1, "Instruction_2"@) == lookup(rec2, "Instruction_2"@));
    assert(lookup(rec1, "Instruction_3"@) == lookup(rec2, "Instruction_3"@));
    assert(lookup(rec1, "Instruction_4"@) == lookup(rec2, "Instruction_4"@));
    assert(lookup(rec1, "Instruction_other"@) == lookup(rec2, "Instruction_other"@));
}

} // verus!
