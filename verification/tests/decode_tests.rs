use querycourse::client::{details_response, search_response, FetchOutcome};
use querycourse::decode::{decode_course_details, decode_course_info};
use querycourse::model::QueryError;
use querycourse::wire::{RawValue, WireField};

fn field(name: &str, value: RawValue) -> WireField {
    WireField { name: name.to_string(), value }
}

fn s(text: &str) -> RawValue {
    RawValue::Str(text.to_string())
}

/// A complete details record for one course, as the upstream service sends
/// it; `NTURestrict` is left out on purpose where a test asks for that.
fn details_record(course_no: &str, with_nturestrict: bool) -> Vec<WireField> {
    let mut rec = vec![
        field("Semester", s("1122")),
        field("CourseNo", s(course_no)),
        field("CourseName", s("太空飛行器設計導論")),
        field("CourseTeacher", s("趙維志")),
        field("CreditPoint", s("3.0")),
        field("CourseTimes", s("3")),
        field("PracticalTimes", s("0")),
        field("RequireOption", s("C")),
        field("AllYear", s("H")),
        field("ChooseStudent", s("36")),
        field("ThreeStudent", s("0")),
        field("AllStudent", s("50")),
        field("Restrict1", s("9999")),
        field("Restrict2", s("60")),
        field("ClassRoomNo", s("")),
        field("CoreAbility", s("")),
        field("CourseURL", s("")),
        field("CourseObject", s("introduction to spacecraft design")),
        field("CourseContent", s("orbital mechanics, propulsion, structures")),
        field("CourseTextbook", s("")),
        field("CourseRefbook", s("")),
        field("CourseNote", s("")),
        field("CourseGrading", s("homework 40%, final 60%")),
        field("CourseRemark", s("")),
        field("Instruction_1", s("1")),
        field("Instruction_2", RawValue::Null),
        field("Instruction_3", RawValue::Null),
        field("Instruction_4", RawValue::Null),
        field("Instruction_other", s("")),
    ];
    if with_nturestrict {
        rec.push(field("NTURestrict", RawValue::Int(5)));
        rec.push(field("NTNURestrict", RawValue::Int(2)));
    }
    rec
}

fn info_record(course_no: &str, node: RawValue) -> Vec<WireField> {
    vec![
        field("Semester", s("1131")),
        field("CourseNo", s(course_no)),
        field("CourseName", s("計算機程式設計")),
        field("CourseTeacher", s("金台齡")),
        field("Dimension", s("")),
        field("CreditPoint", s("3.0")),
        field("RequireOption", s("R")),
        field("AllYear", s("H")),
        field("ChooseStudent", RawValue::Int(0)),
        field("Restrict1", s("9999")),
        field("Restrict2", s("53")),
        field("ThreeStudent", RawValue::Int(0)),
        field("AllStudent", RawValue::Int(0)),
        field("NTURestrict", RawValue::Int(0)),
        field("NTNURestrict", RawValue::Int(0)),
        field("CourseTimes", s("3")),
        field("PracticalTimes", s("0")),
        field("ClassRoomNo", RawValue::Null),
        field("ThreeNode", RawValue::Null),
        field("Node", node),
        field("Contents", s("學號雙數／EMI課程／英語授課")),
        field("NTU_People", RawValue::Int(0)),
        field("NTNU_People", RawValue::Int(0)),
        field("AbroadPeople", RawValue::Int(0)),
    ]
}

#[test]
fn details_decode_tolerates_missing_nturestrict() {
    let rec = details_record("AT2005701", false);

    let details = decode_course_details(&rec).expect("record without NTURestrict must decode");

    assert_eq!(details.nturestrict, 0);
    assert_eq!(details.ntnurestrict, None);
    assert_eq!(details.course_no, "AT2005701");
}

#[test]
fn details_decode_reads_tolerated_fields_when_present() {
    let rec = details_record("AT2005701", true);

    let details = decode_course_details(&rec).expect("full record must decode");

    assert_eq!(details.nturestrict, 5);
    assert_eq!(details.ntnurestrict, Some(2));
    assert_eq!(details.credit_point.int_part, 3);
    assert_eq!(details.credit_point.frac, 0);
    assert_eq!(details.credit_point.frac_len, 1);
    assert_eq!(details.class_room_no, None);
    assert_eq!(details.course_object.as_deref(), Some("introduction to spacecraft design"));
    assert_eq!(details.instruction_1, Some(1));
    assert_eq!(details.instruction_2, None);
    assert_eq!(details.choose_student, 36);
}

#[test]
fn garbage_tolerated_field_defaults_instead_of_failing() {
    let mut rec = details_record("AT2005701", false);
    rec.push(field("NTURestrict", s("garbage")));
    rec.push(field("NTNURestrict", s("also garbage")));

    let details = decode_course_details(&rec).expect("tolerated fields must never fail a record");

    assert_eq!(details.nturestrict, 0);
    assert_eq!(details.ntnurestrict, None);
}

#[test]
fn missing_optional_node_reads_as_absent() {
    let mut rec = info_record("CS1003302", s("R1"));
    rec.retain(|f| f.name != "Node");

    let info = decode_course_info(&rec).expect("a row without a node must decode");

    assert_eq!(info.node, None);
}

#[test]
fn details_decode_rejects_bad_count() {
    let mut rec = details_record("AT2005701", true);
    rec[9] = field("ChooseStudent", s("not-a-number"));

    match decode_course_details(&rec) {
        Err(QueryError::ParseError(_)) => {},
        other => panic!("expected a parse error, got {:?}", other),
    }
}

#[test]
fn info_decode_reads_a_search_row() {
    let rec = info_record("CS1003302", s("R1"));

    let info = decode_course_info(&rec).expect("search row must decode");

    assert_eq!(info.course_no, "CS1003302");
    assert_eq!(info.node.as_deref(), Some("R1"));
    assert_eq!(info.restrict1, 9999);
    assert_eq!(info.class_room_no, None);
}

#[test]
fn empty_details_array_is_no_course_found() {
    let outcome = FetchOutcome::Body(vec![]);

    match details_response(outcome) {
        Err(QueryError::ParseError(m)) => assert_eq!(m, "No course found"),
        other => panic!("expected the no-course parse error, got {:?}", other),
    }
}

#[test]
fn query_returns_first_record_of_the_array() {
    let outcome = FetchOutcome::Body(vec![details_record("AT2005701", false)]);

    let details = details_response(outcome).expect("a one-record answer must decode");

    assert_eq!(details.course_no, "AT2005701");
    assert_eq!(details.semester, "1122");
}

#[test]
fn unmerged_search_keeps_one_row_per_upstream_row() {
    let rows = vec![
        info_record("CS1003302", s("R1")),
        info_record("CS1003302", s("T1,T2")),
        info_record("EE1001101", RawValue::Null),
    ];
    let n = rows.len();

    let courses = search_response(FetchOutcome::Body(rows), false).expect("rows must decode");

    assert_eq!(courses.len(), n);
}

#[test]
fn merged_search_collapses_shared_course_numbers() {
    let rows = vec![
        info_record("CS1003302", s("R1")),
        info_record("CS1003302", s("T1,T2")),
    ];

    let courses = search_response(FetchOutcome::Body(rows), true).expect("rows must decode");

    assert_eq!(courses.len(), 1);
    assert_eq!(courses[0].node.as_deref(), Some("R1,T1,T2"));
}

#[test]
fn transport_failure_surfaces_as_http_error() {
    let outcome = FetchOutcome::TransportError("connection refused".to_string());

    match search_response(outcome, false) {
        Err(QueryError::HttpError(m)) => assert_eq!(m, "connection refused"),
        other => panic!("expected an http error, got {:?}", other),
    }
}

#[test]
fn ill_shaped_body_surfaces_as_parse_error() {
    let outcome = FetchOutcome::ShapeError("expected an array".to_string());

    match details_response(outcome) {
        Err(QueryError::ParseError(m)) => assert_eq!(m, "expected an array"),
        other => panic!("expected a parse error, got {:?}", other),
    }
}
