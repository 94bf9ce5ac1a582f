//! Client configuration and the pure half of the two operations: building
//! the outbound request values, and deciding what each transport outcome
//! means. The transport itself stays outside; it hands this module the
//! tokenized body rows or the failure it saw.

use vstd::prelude::*;
use vstd::string::*;
use crate::decode::{
    decode_course_details_list, decode_course_infos, records_view, spec_decode_details,
    spec_decode_info,
};
use crate::merge::{infos_view, merge_courses, merge_spec};
use crate::model::{
    language_code, CourseDetails, CourseDetailsV, CourseInfo, CourseInfoV, Language, QueryError,
    DEFAULT_API_URL, DEFAULT_TIMEOUT_SECS, DEFAULT_USER_AGENT,
};
use crate::wire::WireField;

verus! {

/// Path of the search endpoint under the base URL.
pub const SEARCH_ENDPOINT: &'static str = "courses";

/// Path of the details endpoint under the base URL. The upstream service
/// itself spells it `coursedetials`: the misspelling is a frozen external
/// contract and must be reproduced exactly.
pub const DETAILS_ENDPOINT: &'static str = "coursedetials";

/// A client's frozen configuration: everything the transport needs, fixed
/// at construction and immutable afterwards.
#[derive(Debug, Clone, PartialEq)]
pub struct ClientConfig {
    pub base_url: String,
    pub user_agent: String,
    pub timeout_secs: u64,
    pub local_address: Option<String>,
}

/// The mathematical value of a [`ClientConfig`].
pub ghost struct ClientConfigV {
    pub base_url: Seq<char>,
    pub user_agent: Seq<char>,
    pub timeout_secs: int,
    pub local_address: Option<Seq<char>>,
}

impl View for ClientConfig {
    type V = ClientConfigV;

    open spec fn view(&self) -> ClientConfigV {
        ClientConfigV {
            base_url: self.base_url@,
            user_agent: self.user_agent@,
            timeout_secs: self.timeout_secs as int,
            local_address: crate::model::opt_str_view(self.local_address),
        }
    }
}

/// Builds a [`ClientConfig`]: construct, adjust, then freeze with `build`.
#[derive(Debug, Clone)]
pub struct ClientBuilder {
    config: ClientConfig,
}

impl View for ClientBuilder {
    type V = ClientConfigV;

    closed spec fn view(&self) -> ClientConfigV {
        self.config@
    }
}

impl ClientBuilder {
    /// A builder holding the defaults: the production base URL, a realistic
    /// browser user agent, a ten-second timeout, and no bound local address.
    pub fn new() -> (r: Self)
        ensures
            r@.base_url == DEFAULT_API_URL@,
            r@.user_agent == DEFAULT_USER_AGENT@,
            r@.timeout_secs == DEFAULT_TIMEOUT_SECS as int,
            r@.local_address is None,
    {
        ClientBuilder {
            config: ClientConfig {
                base_url: String::from_str(DEFAULT_API_URL),
                user_agent: String::from_str(DEFAULT_USER_AGENT),
                timeout_secs: DEFAULT_TIMEOUT_SECS,
                local_address: None,
            },
        }
    }

    /// The same configuration with another base URL.
    pub fn api_url(self, url: String) -> (r: Self)
        ensures
            r@ == (ClientConfigV { base_url: url@, ..self@ }),
    {
        let mut config = self.config;
        config.base_url = url;
        ClientBuilder { config }
    }

    /// The same configuration with another user agent.
    pub fn user_agent(self, agent: String) -> (r: Self)
        ensures
            r@ == (ClientConfigV { user_agent: agent@, ..self@ }),
    {
        let mut config = self.config;
        config.user_agent = agent;
        ClientBuilder { config }
    }

    /// The same configuration with another request timeout, in seconds.
    pub fn timeout_secs(self, secs: u64) -> (r: Self)
        ensures
            r@ == (ClientConfigV { timeout_secs: secs as int, ..self@ }),
    {
        let mut config = self.config;
        config.timeout_secs = secs;
        ClientBuilder { config }
    }

    /// The same configuration with a bound local address for outbound
    /// connections.
    pub fn local_address(self, address: String) -> (r: Self)
        ensures
            r@ == (ClientConfigV { local_address: Some(address@), ..self@ }),
    {
        let mut config = self.config;
        config.local_address = Some(address);
        ClientBuilder { config }
    }

    /// Freeze the configuration.
    pub fn build(self) -> (r: ClientConfig)
        ensures
            r@ == self@,
    {
        self.config
    }
}

/// What resolving `path` against `base` yields, if anything: a pure
/// function of the two strings, computed by the URL library.
pub uninterp spec fn joined_url(base: Seq<char>, path: Seq<char>) -> Option<Seq<char>>;

/// Relies on url::Url::parse and url::Url::join: resolving a path against a
/// base URL is a deterministic function of the two strings alone, and a
/// base that does not parse, or a join that fails, yields nothing.
#[verifier::external_body]
fn join_url(base: &str, path: &str) -> (r: Option<String>)
    ensures
        r is Some <==> joined_url(base@, path@) is Some,
        r is Some ==> joined_url(base@, path@) == Some(r->0@),
{
    let parsed = match url::Url::parse(base) {
        Ok(u) => u,
        Err(_) => return None,
    };
    match parsed.join(path) {
        Ok(u) => Some(String::from(u)),
        Err(_) => None,
    }
}

/// The absolute URL the search request posts to.
pub fn search_url(cfg: &ClientConfig) -> (r: Option<String>)
    ensures
        r is Some <==> joined_url(cfg.base_url@, SEARCH_ENDPOINT@) is Some,
        r is Some ==> joined_url(cfg.base_url@, SEARCH_ENDPOINT@) == Some(r->0@),
{
    join_url(cfg.base_url.as_str(), SEARCH_ENDPOINT)
}

/// The absolute URL the details request reads from, under the frozen
/// misspelled endpoint path.
pub fn details_url(cfg: &ClientConfig) -> (r: Option<String>)
    ensures
        r is Some <==> joined_url(cfg.base_url@, DETAILS_ENDPOINT@) is Some,
        r is Some ==> joined_url(cfg.base_url@, DETAILS_ENDPOINT@) == Some(r->0@),
{
    join_url(cfg.base_url.as_str(), DETAILS_ENDPOINT)
}

/// One query-string parameter.
#[derive(Debug, Clone, PartialEq)]
pub struct QueryParam {
    pub name: String,
    pub value: String,
}

/// The mathematical value of a [`QueryParam`].
pub ghost struct QueryParamV {
    pub name: Seq<char>,
    pub value: Seq<char>,
}

impl View for QueryParam {
    type V = QueryParamV;

    open spec fn view(&self) -> QueryParamV {
        QueryParamV { name: self.name@, value: self.value@ }
    }
}

/// The three query-string parameters of a details request.
pub fn query_params(semester: &str, course_no: &str, language: Language) -> (r: Vec<QueryParam>)
    ensures
        r@.len() == 3,
        r@[0]@.name == "semester"@ && r@[0]@.value == semester@,
        r@[1]@.name == "course_no"@ && r@[1]@.value == course_no@,
        r@[2]@.name == "language"@ && r@[2]@.value == language_code(language),
{
    let mut out: Vec<QueryParam> = Vec::new();
    out.push(QueryParam {
        name: String::from_str("semester"),
        value: semester.to_owned(),
    });
    out.push(QueryParam {
        name: String::from_str("course_no"),
        value: course_no.to_owned(),
    });
    out.push(QueryParam {
        name: String::from_str("language"),
        value: String::from_str(language.as_str()),
    });
    out
}

/// Apply or skip the merge, as the caller chose. Without the merge the rows
/// pass through untouched, one output row per input row.
pub fn process_search_results(courses: Vec<CourseInfo>, merge: bool) -> (r: Vec<CourseInfo>)
    ensures
        merge ==> infos_view(r@) == merge_spec(infos_view(courses@)),
        !merge ==> r@ == courses@,
{
    if merge {
        merge_courses(courses)
    } else {
        courses
    }
}

/// The first record of a details response, or the error owed when the
/// upstream array is empty.
pub fn first_course(courses: Vec<CourseDetails>) -> (r: Result<CourseDetails, QueryError>)
    ensures
        courses@.len() == 0 ==> r is Err && r->Err_0 is ParseError
            && (r->Err_0)->ParseError_0@ == "No course found"@,
        courses@.len() > 0 ==> r is Ok && (r->Ok_0)@ == courses@[0]@,
{
    let mut courses = courses;
    if courses.len() == 0 {
        Err(QueryError::ParseError(String::from_str("No course found")))
    } else {
        Ok(courses.remove(0))
    }
}

/// What one exchange with the transport came to, as the surrounding runtime
/// reports it: the body tokenized into records, a transport failure with
/// its message, or a body that was not an array of records.
pub enum FetchOutcome {
    Body(Vec<Vec<WireField>>),
    TransportError(String),
    ShapeError(String),
}

/// What every row of a response decodes to, when every row decodes.
pub open spec fn spec_decode_info_rows(rs: Seq<Seq<crate::wire::WireFieldV>>) -> Option<
    Seq<CourseInfoV>,
> {
    if forall|k: int| 0 <= k < rs.len() ==> spec_decode_info(#[trigger] rs[k]) is Some {
        Some(Seq::new(rs.len(), |k: int| spec_decode_info(rs[k])->0))
    } else {
        None
    }
}

/// What every record of a details response decodes to, when every one does.
pub open spec fn spec_decode_details_rows(rs: Seq<Seq<crate::wire::WireFieldV>>) -> Option<
    Seq<CourseDetailsV>,
> {
    if forall|k: int| 0 <= k < rs.len() ==> spec_decode_details(#[trigger] rs[k]) is Some {
        Some(Seq::new(rs.len(), |k: int| spec_decode_details(rs[k])->0))
    } else {
        None
    }
}

/// Decide a search call from its transport outcome: a transport failure is
/// the transport error, an ill-shaped or undecodable body is a decode
/// error, and a decoded body is the rows, merged exactly when asked.
/// Without the merge the result has one row per upstream row.
pub fn search_response(fetched: FetchOutcome, merge: bool) -> (r: Result<
    Vec<CourseInfo>,
    QueryError,
>)
    ensures
        fetched matches FetchOutcome::TransportError(m) ==> r is Err
            && r->Err_0 is HttpError && (r->Err_0)->HttpError_0@ == m@,
        fetched matches FetchOutcome::ShapeError(m) ==> r is Err
            && r->Err_0 is ParseError && (r->Err_0)->ParseError_0@ == m@,
        fetched matches FetchOutcome::Body(rows) ==> match spec_decode_info_rows(
            records_view(rows@),
        ) {
            Some(cs) => r is Ok && infos_view(r->Ok_0@) == (if merge {
                merge_spec(cs)
            } else {
                cs
            }) && (!merge ==> r->Ok_0@.len() == rows@.len()),
            None => r is Err && r->Err_0 is ParseError,
        },
{
    match fetched {
        FetchOutcome::TransportError(m) => Err(QueryError::HttpError(m)),
        FetchOutcome::ShapeError(m) => Err(QueryError::ParseError(m)),
        FetchOutcome::Body(rows) => {
            let decoded = match decode_course_infos(&rows) {
                Ok(v) => v,
                Err(e) => {
                    return Err(e);
                },
            };
            proof {
                let cs = spec_decode_info_rows(records_view(rows@))->0;
                assert(infos_view(decoded@) =~= cs) by {
                    assert(forall|k: int| 0 <= k < decoded@.len()
                        ==> #[trigger] infos_view(decoded@)[k] == decoded@[k]@);
                }
            }
            Ok(process_search_results(decoded, merge))
        },
    }
}

/// Decide a details call from its transport outcome: a transport failure is
/// the transport error, an ill-shaped or undecodable body is a decode
/// error, an empty decoded array is the owed "no course found" error, and
/// otherwise the first record is the answer.
pub fn details_response(fetched: FetchOutcome) -> (r: Result<CourseDetails, QueryError>)
    ensures
        fetched matches FetchOutcome::TransportError(m) ==> r is Err
            && r->Err_0 is HttpError && (r->Err_0)->HttpError_0@ == m@,
        fetched matches FetchOutcome::ShapeError(m) ==> r is Err
            && r->Err_0 is ParseError && (r->Err_0)->ParseError_0@ == m@,
        fetched matches FetchOutcome::Body(rows) ==> match spec_decode_details_rows(
            records_view(rows@),
        ) {
            Some(ds) => if ds.len() == 0 {
                r is Err && r->Err_0 is ParseError
                    && (r->Err_0)->ParseError_0@ == "No course found"@
            } else {
                r is Ok && (r->Ok_0)@ == ds[0]
            },
            None => r is Err && r->Err_0 is ParseError,
        },
{
    match fetched {
        FetchOutcome::TransportError(m) => Err(QueryError::HttpError(m)),
        FetchOutcome::ShapeError(m) => Err(QueryError::ParseError(m)),
        FetchOutcome::Body(rows) => {
            let decoded = match decode_course_details_list(&rows) {
                Ok(v) => v,
                Err(e) => {
                    return Err(e);
                },
            };
            proof {
                let ds = spec_decode_details_rows(records_view(rows@))->0;
                if decoded@.len() > 0 {
                    assert(decoded@[0]@ == ds[0]);
                }
            }
            first_course(decoded)
        },
    }
}

} // verus!
