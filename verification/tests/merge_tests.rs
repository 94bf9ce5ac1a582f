use querycourse::merge;
use querycourse::model::{CourseInfo, Decimal};

fn course_row(course_no: &str, node: Option<&str>) -> CourseInfo {
    CourseInfo {
        semester: String::from("1131"),
        course_no: String::from(course_no),
        course_name: String::from("計算機程式設計"),
        course_teacher: String::from("金台齡"),
        dimension: String::from(""),
        credit_point: Decimal { int_part: 3, frac: 0, frac_len: 1 },
        require_option: String::from("R"),
        all_year: String::from("H"),
        choose_student: 0,
        restrict1: 9999,
        restrict2: 53,
        three_student: 0,
        all_student: 0,
        nturestrict: 0,
        ntnurestrict: 0,
        course_times: String::from("3"),
        practical_times: String::from("0"),
        class_room_no: None,
        three_node: None,
        node: node.map(String::from),
        contents: String::from("學號雙數／EMI課程／英語授課"),
        ntu_people: 0,
        ntnu_people: 0,
        abroad_people: 0,
    }
}

#[test]
fn merge_courses() {
    let courses: Vec<CourseInfo> = vec![
        course_row("CS1003302", Some("R1")),
        course_row("CS1003302", Some("T1,T2")),
    ];

    let merged_courses = querycourse::merge::merge_courses(courses);

    println!("{:#?}", merged_courses);
    assert_eq!(merged_courses.len(), 1);
    assert_eq!(merged_courses[0].course_no, "CS1003302");
    assert_eq!(merged_courses[0].node.as_deref(), Some("R1,T1,T2"));
    assert_eq!(merged_courses[0].semester, "1131");
    assert_eq!(merged_courses[0].restrict1, 9999);
    assert_eq!(merged_courses[0].restrict2, 53);
}

#[test]
fn merge_is_idempotent_on_merged_rows() {
    let courses: Vec<CourseInfo> = vec![
        course_row("CS1003302", Some("T2,R1,T1,R1")),
        course_row("CS1003302", Some("T1")),
        course_row("EE1001101", None),
    ];

    let merged = merge::merge_courses(courses);
    let merged_again = merge::merge_courses(merged.clone());

    assert_eq!(merged, merged_again);
}

#[test]
fn merge_keeps_rows_without_nodes() {
    let courses: Vec<CourseInfo> = vec![
        course_row("EE1001101", None),
        course_row("CS1003302", Some("A2,A1")),
    ];

    let merged = merge::merge_courses(courses);

    assert_eq!(merged.len(), 2);
    let ee = merged.iter().find(|c| c.course_no == "EE1001101").unwrap();
    assert_eq!(ee.node, None);
    let cs = merged.iter().find(|c| c.course_no == "CS1003302").unwrap();
    assert_eq!(cs.node.as_deref(), Some("A1,A2"));
}

#[test]
fn merge_takes_node_from_later_row_when_first_has_none() {
    let courses: Vec<CourseInfo> = vec![
        course_row("CS1003302", None),
        course_row("CS1003302", Some("B1")),
    ];

    let merged = merge::merge_courses(courses);

    assert_eq!(merged.len(), 1);
    assert_eq!(merged[0].node.as_deref(), Some("B1"));
}
