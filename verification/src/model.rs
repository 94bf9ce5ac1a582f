//! The typed data model: course records, search options, languages, credit
//! points, and the error taxonomy.

use vstd::prelude::*;
use vstd::string::*;
use crate::strings::str_eq;

verus! {

/// Default user-agent sent with every request: a realistic browser string,
/// since the upstream service may reject unrecognized agents.
pub const DEFAULT_USER_AGENT: &'static str = "Mozilla/5.0 (Macintosh; Intel Mac OS X 10_15_7) AppleWebKit/537.36 (KHTML, like Gecko) Chrome/121.0.0.0 Safari/537.36";

/// Default request timeout, in seconds.
pub const DEFAULT_TIMEOUT_SECS: u64 = 10;

/// Default base address of the upstream course-query service.
pub const DEFAULT_API_URL: &'static str = "https://querycourse.ntust.edu.tw/querycourse/api/";

/// The language a query asks the upstream service to answer in.
///
/// Exactly two values exist, each with a fixed two-letter wire code.
#[derive(Debug, Copy, Clone, PartialEq, Eq, Structural)]
pub enum Language {
    Zh,
    En,
}

/// The wire code of a language, as a sequence of characters.
pub open spec fn language_code(lang: Language) -> Seq<char> {
    match lang {
        Language::Zh => "zh"@,
        Language::En => "en"@,
    }
}

/// The language a wire code names, if any.
pub open spec fn language_of(s: Seq<char>) -> Option<Language> {
    if s == "zh"@ {
        Some(Language::Zh)
    } else if s == "en"@ {
        Some(Language::En)
    } else {
        None
    }
}

impl Language {
    /// The fixed two-letter wire representation of this language.
    pub fn as_str(&self) -> (r: &'static str)
        ensures
            r@ == language_code(*self),
    {
        match self {
            Language::Zh => "zh",
            Language::En => "en",
        }
    }

    /// The language named by a wire code; anything but the two fixed codes
    /// is rejected.
    pub fn from_str(input: &str) -> (r: Result<Language, ()>)
        ensures
            r is Ok <==> language_of(input@) is Some,
            r is Ok ==> language_of(input@) == Some(r->Ok_0),
    {
        if str_eq(input, "zh") {
            Ok(Language::Zh)
        } else if str_eq(input, "en") {
            Ok(Language::En)
        } else {
            Err(())
        }
    }
}

/// A non-negative decimal number kept exactly as written on the wire:
/// an integer part, and a fraction given by its digits' value and count,
/// so `3.0` and `3.00` stay distinct. Credit points use this form.
#[derive(Debug, Copy, Clone, PartialEq, Eq, Structural)]
pub struct Decimal {
    pub int_part: u32,
    pub frac: u32,
    pub frac_len: u32,
}

/// Ten to the `n`th power.
pub open spec fn pow10(n: nat) -> nat
    decreases n,
{
    if n == 0 {
        1
    } else {
        10 * pow10((n - 1) as nat)
    }
}

impl Decimal {
    /// The fraction's digit count is small and its value has no more digits
    /// than that count.
    pub open spec fn wf(self) -> bool {
        self.frac_len <= 9 && (self.frac as nat) < pow10(self.frac_len as nat)
    }
}

/// Why a call failed: the transport failed, or the response body did not
/// have the expected shape.
#[derive(Debug, Clone)]
pub enum QueryError {
    HttpError(String),
    ParseError(String),
}

/// The human-readable description of an error, with its kind spelled out.
pub open spec fn error_message(e: QueryError) -> Seq<char> {
    match e {
        QueryError::HttpError(m) => "HTTP Error: "@ + m@,
        QueryError::ParseError(m) => "Parse Error: "@ + m@,
    }
}

impl QueryError {
    /// Render this error as text, naming its kind and carrying its message.
    pub fn message(&self) -> (r: String)
        ensures
            r@ == error_message(*self),
    {
        match self {
            QueryError::HttpError(m) => {
                let mut s = String::from_str("HTTP Error: ");
                s.append(m.as_str());
                s
            },
            QueryError::ParseError(m) => {
                let mut s = String::from_str("Parse Error: ");
                s.append(m.as_str());
                s
            },
        }
    }
}

/// The character sequences inside an optional string.
pub open spec fn opt_str_view(o: Option<String>) -> Option<Seq<char>> {
    match o {
        Some(s) => Some(s@),
        None => None,
    }
}

/// One row of a search result: a course offering, possibly one of several
/// parallel rows that differ only by scheduling node.
#[derive(Debug, Clone, PartialEq)]
pub struct CourseInfo {
    pub semester: String,
    pub course_no: String,
    pub course_name: String,
    pub course_teacher: String,
    pub dimension: String,
    pub credit_point: Decimal,
    pub require_option: String,
    pub all_year: String,
    pub choose_student: i32,
    pub restrict1: i32,
    pub restrict2: i32,
    pub three_student: i32,
    pub all_student: i32,
    pub nturestrict: i32,
    pub ntnurestrict: i32,
    pub course_times: String,
    pub practical_times: String,
    pub class_room_no: Option<String>,
    pub three_node: Option<String>,
    pub node: Option<String>,
    pub contents: String,
    pub ntu_people: i32,
    pub ntnu_people: i32,
    pub abroad_people: i32,
}

/// The mathematical value of a [`CourseInfo`].
pub ghost struct CourseInfoV {
    pub semester: Seq<char>,
    pub course_no: Seq<char>,
    pub course_name: Seq<char>,
    pub course_teacher: Seq<char>,
    pub dimension: Seq<char>,
    pub credit_point: Decimal,
    pub require_option: Seq<char>,
    pub all_year: Seq<char>,
    pub choose_student: int,
    pub restrict1: int,
    pub restrict2: int,
    pub three_student: int,
    pub all_student: int,
    pub nturestrict: int,
    pub ntnurestrict: int,
    pub course_times: Seq<char>,
    pub practical_times: Seq<char>,
    pub class_room_no: Option<Seq<char>>,
    pub three_node: Option<Seq<char>>,
    pub node: Option<Seq<char>>,
    pub contents: Seq<char>,
    pub ntu_people: int,
    pub ntnu_people: int,
    pub abroad_people: int,
}

impl View for CourseInfo {
    type V = CourseInfoV;

    open spec fn view(&self) -> CourseInfoV {
        CourseInfoV {
            semester: self.semester@,
            course_no: self.course_no@,
            course_name: self.course_name@,
            course_teacher: self.course_teacher@,
            dimension: self.dimension@,
            credit_point: self.credit_point,
            require_option: self.require_option@,
            all_year: self.all_year@,
            choose_student: self.choose_student as int,
            restrict1: self.restrict1 as int,
            restrict2: self.restrict2 as int,
            three_student: self.three_student as int,
            all_student: self.all_student as int,
            nturestrict: self.nturestrict as int,
            ntnurestrict: self.ntnurestrict as int,
            course_times: self.course_times@,
            practical_times: self.practical_times@,
            class_room_no: opt_str_view(self.class_room_no),
            three_node: opt_str_view(self.three_node),
            node: opt_str_view(self.node),
            contents: self.contents@,
            ntu_people: self.ntu_people as int,
            ntnu_people: self.ntnu_people as int,
            abroad_people: self.abroad_people as int,
        }
    }
}

/// One course's full record, with the long descriptive fields.
#[derive(Debug, Clone, PartialEq)]
pub struct CourseDetails {
    pub semester: String,
    pub course_no: String,
    pub course_name: String,
    pub course_teacher: String,
    pub credit_point: Decimal,
    pub course_times: i32,
    pub practical_times: i32,
    pub require_option: String,
    pub all_year: String,
    pub choose_student: i32,
    pub three_student: i32,
    pub all_student: i32,
    pub restrict1: i32,
    pub restrict2: i32,
    pub nturestrict: i32,
    pub ntnurestrict: Option<i32>,
    pub class_room_no: Option<String>,
    pub core_ability: Option<String>,
    pub course_url: Option<String>,
    pub course_object: Option<String>,
    pub course_content: Option<String>,
    pub course_textbook: Option<String>,
    pub course_refbook: Option<String>,
    pub course_note: Option<String>,
    pub course_grading: Option<String>,
    pub course_remark: Option<String>,
    pub instruction_1: Option<i32>,
    pub instruction_2: Option<i32>,
    pub instruction_3: Option<i32>,
    pub instruction_4: Option<i32>,
    pub instruction_other: Option<String>,
}

/// The mathematical value of a [`CourseDetails`].
pub ghost struct CourseDetailsV {
    pub semester: Seq<char>,
    pub course_no: Seq<char>,
    pub course_name: Seq<char>,
    pub course_teacher: Seq<char>,
    pub credit_point: Decimal,
    pub course_times: int,
    pub practical_times: int,
    pub require_option: Seq<char>,
    pub all_year: Seq<char>,
    pub choose_student: int,
    pub three_student: int,
    pub all_student: int,
    pub restrict1: int,
    pub restrict2: int,
    pub nturestrict: int,
    pub ntnurestrict: Option<int>,
    pub class_room_no: Option<Seq<char>>,
    pub core_ability: Option<Seq<char>>,
    pub course_url: Option<Seq<char>>,
    pub course_object: Option<Seq<char>>,
    pub course_content: Option<Seq<char>>,
    pub course_textbook: Option<Seq<char>>,
    pub course_refbook: Option<Seq<char>>,
    pub course_note: Option<Seq<char>>,
    pub course_grading: Option<Seq<char>>,
    pub course_remark: Option<Seq<char>>,
    pub instruction_1: Option<int>,
    pub instruction_2: Option<int>,
    pub instruction_3: Option<int>,
    pub instruction_4: Option<int>,
    pub instruction_other: Option<Seq<char>>,
}

/// The mathematical value of an optional machine integer.
pub open spec fn opt_int_view(o: Option<i32>) -> Option<int> {
    match o {
        Some(v) => Some(v as int),
        None => None,
    }
}

impl View for CourseDetails {
    type V = CourseDetailsV;

    open spec fn view(&self) -> CourseDetailsV {
        CourseDetailsV {
            semester: self.semester@,
            course_no: self.course_no@,
            course_name: self.course_name@,
            course_teacher: self.course_teacher@,
            credit_point: self.credit_point,
            course_times: self.course_times as int,
            practical_times: self.practical_times as int,
            require_option: self.require_option@,
            all_year: self.all_year@,
            choose_student: self.choose_student as int,
            three_student: self.three_student as int,
            all_student: self.all_student as int,
            restrict1: self.restrict1 as int,
            restrict2: self.restrict2 as int,
            nturestrict: self.nturestrict as int,
            ntnurestrict: opt_int_view(self.ntnurestrict),
            class_room_no: opt_str_view(self.class_room_no),
            core_ability: opt_str_view(self.core_ability),
            course_url: opt_str_view(self.course_url),
            course_object: opt_str_view(self.course_object),
            course_content: opt_str_view(self.course_content),
            course_textbook: opt_str_view(self.course_textbook),
            course_refbook: opt_str_view(self.course_refbook),
            course_note: opt_str_view(self.course_note),
            course_grading: opt_str_view(self.course_grading),
            course_remark: opt_str_view(self.course_remark),
            instruction_1: opt_int_view(self.instruction_1),
            instruction_2: opt_int_view(self.instruction_2),
            instruction_3: opt_int_view(self.instruction_3),
            instruction_4: opt_int_view(self.instruction_4),
            instruction_other: opt_str_view(self.instruction_other),
        }
    }
}

/// The filters a search sends out. The semester is required; every other
/// filter may be left empty or off.
#[derive(Debug, Clone, PartialEq)]
pub struct SearchOptions {
    pub semester: String,
    pub course_no: String,
    pub course_name: String,
    pub course_teacher: String,
    pub dimension: String,
    pub course_notes: String,
    pub foreign_language: bool,
    pub only_general: bool,
    pub only_ntust: bool,
    pub only_master: bool,
    pub only_under_graduate: bool,
    pub only_node: bool,
    pub language: Language,
}

/// The mathematical value of a [`SearchOptions`].
pub ghost struct SearchOptionsV {
    pub semester: Seq<char>,
    pub course_no: Seq<char>,
    pub course_name: Seq<char>,
    pub course_teacher: Seq<char>,
    pub dimension: Seq<char>,
    pub course_notes: Seq<char>,
    pub foreign_language: bool,
    pub only_general: bool,
    pub only_ntust: bool,
    pub only_master: bool,
    pub only_under_graduate: bool,
    pub only_node: bool,
    pub language: Language,
}

impl View for SearchOptions {
    type V = SearchOptionsV;

    open spec fn view(&self) -> SearchOptionsV {
        SearchOptionsV {
            semester: self.semester@,
            course_no: self.course_no@,
            course_name: self.course_name@,
            course_teacher: self.course_teacher@,
            dimension: self.dimension@,
            course_notes: self.course_notes@,
            foreign_language: self.foreign_language,
            only_general: self.only_general,
            only_ntust: self.only_ntust,
            only_master: self.only_master,
            only_under_graduate: self.only_under_graduate,
            only_node: self.only_node,
            language: self.language,
        }
    }
}

impl SearchOptions {
    /// Options that filter on nothing but the semester: every text filter
    /// empty, every toggle off.
    pub fn new(semester: &str, language: Language) -> (r: Self)
        ensures
            r@.semester == semester@,
            r@.course_no == Seq::<char>::empty(),
            r@.course_name == Seq::<char>::empty(),
            r@.course_teacher == Seq::<char>::empty(),
            r@.dimension == Seq::<char>::empty(),
            r@.course_notes == Seq::<char>::empty(),
            !r@.foreign_language,
            !r@.only_general,
            !r@.only_ntust,
            !r@.only_master,
            !r@.only_under_graduate,
            !r@.only_node,
            r@.language == language,
    {
        SearchOptions {
            semester: semester.to_owned(),
            course_no: String::new(),
            course_name: String::new(),
            course_teacher: String::new(),
            dimension: String::new(),
            course_notes: String::new(),
            foreign_language: false,
            only_general: false,
            only_ntust: false,
            only_master: false,
            only_under_graduate: false,
            only_node: false,
            language,
        }
    }
}

} // verus!
