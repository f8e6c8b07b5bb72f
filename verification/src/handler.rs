//! The collector-side request handling rules: the error taxonomy of
//! the HTTP API, bearer-token extraction, and stat aggregation.
//!
//! The web framework and the persistence layer stay outside; they hand
//! this module plain values (a header string, lookup counts) and take
//! plain values back.

use vstd::prelude::*;

use crate::report::{HookStats, StatReport};

verus! {

/// The unique identifier of an error the API returns.
///
/// Values in the range 1000..2000 represent client errors, values in
/// the range 2000..3000 server errors (see [`status_code_number`]).
#[derive(Copy, Clone, Debug, PartialEq, Eq, Structural)]
pub enum ApiStatusCode {
    /// The user is not allowed to access the resource
    Unauthenticated,
    /// The resource was not found
    NotFound,
    /// Invalid content type sent
    InvalidContentType,
    /// Invalid json sent
    InvalidJson,
    /// Payload overflow
    PayloadOverflow,
    /// Login was not successful
    LoginFailed,
    /// Invalid password
    InvalidPassword,
    /// There exists already an entity with the chosen name
    NameAlreadyExists,
    /// Invalid name specified
    InvalidName,
    /// Error while listing repositories
    ListRepositoryError,
    /// There exists already an entity with the chosen repository
    RepositoryAlreadyExists,
    /// An invalid uuid was specified
    InvalidUuid,
    /// Unknown error occurred
    InternalServerError,
    /// An error thrown by the database
    DatabaseError,
    /// An error of the session layer
    SessionError,
}

/// The numeric value of a status code.
pub open spec fn status_code_number(c: ApiStatusCode) -> u16 {
    match c {
        ApiStatusCode::Unauthenticated => 1000,
        ApiStatusCode::NotFound => 1001,
        ApiStatusCode::InvalidContentType => 1002,
        ApiStatusCode::InvalidJson => 1003,
        ApiStatusCode::PayloadOverflow => 1004,
        ApiStatusCode::LoginFailed => 1005,
        ApiStatusCode::InvalidPassword => 1006,
        ApiStatusCode::NameAlreadyExists => 1007,
        ApiStatusCode::InvalidName => 1008,
        ApiStatusCode::ListRepositoryError => 1009,
        ApiStatusCode::RepositoryAlreadyExists => 1010,
        ApiStatusCode::InvalidUuid => 1011,
        ApiStatusCode::InternalServerError => 2000,
        ApiStatusCode::DatabaseError => 2001,
        ApiStatusCode::SessionError => 2002,
    }
}

impl ApiStatusCode {
    /// The numeric value this status code is sent as.
    pub fn number(&self) -> (r: u16)
        ensures
            r == status_code_number(*self),
    {
        match self {
            ApiStatusCode::Unauthenticated => 1000,
            ApiStatusCode::NotFound => 1001,
            ApiStatusCode::InvalidContentType => 1002,
            ApiStatusCode::InvalidJson => 1003,
            ApiStatusCode::PayloadOverflow => 1004,
            ApiStatusCode::LoginFailed => 1005,
            ApiStatusCode::InvalidPassword => 1006,
            ApiStatusCode::NameAlreadyExists => 1007,
            ApiStatusCode::InvalidName => 1008,
            ApiStatusCode::ListRepositoryError => 1009,
            ApiStatusCode::RepositoryAlreadyExists => 1010,
            ApiStatusCode::InvalidUuid => 1011,
            ApiStatusCode::InternalServerError => 2000,
            ApiStatusCode::DatabaseError => 2001,
            ApiStatusCode::SessionError => 2002,
        }
    }
}

/// Every error the API can answer a request with. Errors raised by
/// outside layers (JSON decoding, the database, the session store, the
/// password hasher, the repository listing) are carried as their
/// descriptions.
#[derive(Debug)]
pub enum ApiError {
    /// The user is not allowed to access the resource
    Unauthenticated,
    /// The resource was not found
    NotFound,
    /// Invalid content type sent
    InvalidContentType,
    /// The request body was not valid json; carries the decoder's description
    InvalidJson(String),
    /// The request body was too large; carries the description
    PayloadOverflow(String),
    /// Login was not successful
    LoginFailed,
    /// Invalid password (e.g. empty)
    InvalidPassword,
    /// There exists already an entity with the chosen name
    NameAlreadyExists,
    /// Invalid name specified
    InvalidName,
    /// Error while listing repositories; carries the description
    ListRepositoryError(String),
    /// There exists already an entity with the chosen repository
    RepositoryAlreadyExists,
    /// An invalid uuid was specified
    InvalidUuid,
    /// Unknown error occurred
    InternalServerError,
    /// An error thrown by the database; carries the description
    DatabaseError(String),
    /// An invalid password hash was retrieved from the database;
    /// carries the description
    InvalidHash(String),
    /// Error inserting into a session; carries the description
    SessionInsert(String),
    /// Error retrieving data from a session; carries the description
    SessionGet(String),
    /// Session is in a corrupt state
    SessionCorrupt,
}

/// The user-visible message of an error.
pub open spec fn api_error_message(e: ApiError) -> Seq<char> {
    match e {
        ApiError::LoginFailed => "The login was not successful"@,
        ApiError::DatabaseError(_) => "Database error occurred"@,
        ApiError::Unauthenticated => "Unauthenticated"@,
        ApiError::InvalidHash(_) => "Internal server error"@,
        ApiError::InternalServerError => "The resource was not found"@,
        ApiError::NotFound => "The resource was not found"@,
        ApiError::InvalidContentType => "Content type error"@,
        ApiError::InvalidJson(err) => "Json error: "@ + err@,
        ApiError::PayloadOverflow(err) => err@,
        ApiError::SessionInsert(_) => "Session error occurred"@,
        ApiError::SessionGet(_) => "Session error occurred"@,
        ApiError::SessionCorrupt => "Corrupt session"@,
        ApiError::InvalidPassword => "Invalid password"@,
        ApiError::NameAlreadyExists => "There exists already an entity with that name"@,
        ApiError::InvalidName => "Invalid name specified"@,
        ApiError::ListRepositoryError(err) => "Error while listing repository: "@ + err@,
        ApiError::RepositoryAlreadyExists => "There exists already an entity with that repository"@,
        ApiError::InvalidUuid => "Invalid uuid specified"@,
    }
}

/// The HTTP status an error is answered with: 400 for client errors,
/// 500 for server errors (see [`lemma_error_code_ranges`]).
pub open spec fn api_error_http_status(e: ApiError) -> u16 {
    match e {
        ApiError::SessionInsert(_) => 500,
        ApiError::SessionGet(_) => 500,
        ApiError::SessionCorrupt => 500,
        ApiError::DatabaseError(_) => 500,
        ApiError::InvalidHash(_) => 500,
        ApiError::InternalServerError => 500,
        _ => 400,
    }
}

/// The status code an error is answered with.
pub open spec fn api_error_status_code(e: ApiError) -> ApiStatusCode {
    match e {
        ApiError::Unauthenticated => ApiStatusCode::Unauthenticated,
        ApiError::NotFound => ApiStatusCode::NotFound,
        ApiError::InvalidContentType => ApiStatusCode::InvalidContentType,
        ApiError::InvalidJson(_) => ApiStatusCode::InvalidJson,
        ApiError::PayloadOverflow(_) => ApiStatusCode::PayloadOverflow,
        ApiError::LoginFailed => ApiStatusCode::LoginFailed,
        ApiError::InvalidPassword => ApiStatusCode::InvalidPassword,
        ApiError::NameAlreadyExists => ApiStatusCode::NameAlreadyExists,
        ApiError::InvalidName => ApiStatusCode::InvalidName,
        ApiError::ListRepositoryError(_) => ApiStatusCode::ListRepositoryError,
        ApiError::RepositoryAlreadyExists => ApiStatusCode::RepositoryAlreadyExists,
        ApiError::InvalidUuid => ApiStatusCode::InvalidUuid,
        ApiError::InternalServerError => ApiStatusCode::InternalServerError,
        ApiError::DatabaseError(_) => ApiStatusCode::DatabaseError,
        ApiError::InvalidHash(_) => ApiStatusCode::InternalServerError,
        ApiError::SessionInsert(_) => ApiStatusCode::SessionError,
        ApiError::SessionGet(_) => ApiStatusCode::SessionError,
        ApiError::SessionCorrupt => ApiStatusCode::SessionError,
    }
}

/// The documented code ranges hold of every error: an HTTP 400 answer
/// carries a client-error code in 1000..2000, and an HTTP 500 answer a
/// server-error code in 2000..3000.
pub proof fn lemma_error_code_ranges(e: ApiError)
    ensures
        (api_error_http_status(e) == 400) <==> (1000 <= status_code_number(
            api_error_status_code(e),
        ) < 2000),
        (api_error_http_status(e) == 500) <==> (2000 <= status_code_number(
            api_error_status_code(e),
        ) < 3000),
{
}

impl ApiError {
    /// The user-visible message of this error.
    pub fn message(&self) -> (r: String)
        ensures
            r@ == api_error_message(*self),
    {
        match self {
            ApiError::LoginFailed => "The login was not successful".to_owned(),
            ApiError::DatabaseError(_) => "Database error occurred".to_owned(),
            ApiError::Unauthenticated => "Unauthenticated".to_owned(),
            ApiError::InvalidHash(_) => "Internal server error".to_owned(),
            ApiError::InternalServerError => "The resource was not found".to_owned(),
            ApiError::NotFound => "The resource was not found".to_owned(),
            ApiError::InvalidContentType => "Content type error".to_owned(),
            ApiError::InvalidJson(err) => {
                let mut s = "Json error: ".to_owned();
                s.append(err.as_str());
                s
            },
            ApiError::PayloadOverflow(err) => err.clone(),
            ApiError::SessionInsert(_) => "Session error occurred".to_owned(),
            ApiError::SessionGet(_) => "Session error occurred".to_owned(),
            ApiError::SessionCorrupt => "Corrupt session".to_owned(),
            ApiError::InvalidPassword => "Invalid password".to_owned(),
            ApiError::NameAlreadyExists => {
                "There exists already an entity with that name".to_owned()
            },
            ApiError::InvalidName => "Invalid name specified".to_owned(),
            ApiError::ListRepositoryError(err) => {
                let mut s = "Error while listing repository: ".to_owned();
                s.append(err.as_str());
                s
            },
            ApiError::RepositoryAlreadyExists => {
                "There exists already an entity with that repository".to_owned()
            },
            ApiError::InvalidUuid => "Invalid uuid specified".to_owned(),
        }
    }

    /// The HTTP response an error turns into: the HTTP status (400 for
    /// client errors, 500 for server errors) and the response body.
    pub fn response_parts(&self) -> (r: (u16, ApiErrorResponse))
        ensures
            r.0 == api_error_http_status(*self),
            r.1.status_code == api_error_status_code(*self),
            r.1.message@ == api_error_message(*self),
    {
        let status = match self {
            ApiError::SessionInsert(_) => 500,
            ApiError::SessionGet(_) => 500,
            ApiError::SessionCorrupt => 500,
            ApiError::DatabaseError(_) => 500,
            ApiError::InvalidHash(_) => 500,
            ApiError::InternalServerError => 500,
            _ => 400,
        };
        let code = match self {
            ApiError::Unauthenticated => ApiStatusCode::Unauthenticated,
            ApiError::NotFound => ApiStatusCode::NotFound,
            ApiError::InvalidContentType => ApiStatusCode::InvalidContentType,
            ApiError::InvalidJson(_) => ApiStatusCode::InvalidJson,
            ApiError::PayloadOverflow(_) => ApiStatusCode::PayloadOverflow,
            ApiError::LoginFailed => ApiStatusCode::LoginFailed,
            ApiError::InvalidPassword => ApiStatusCode::InvalidPassword,
            ApiError::NameAlreadyExists => ApiStatusCode::NameAlreadyExists,
            ApiError::InvalidName => ApiStatusCode::InvalidName,
            ApiError::ListRepositoryError(_) => ApiStatusCode::ListRepositoryError,
            ApiError::RepositoryAlreadyExists => ApiStatusCode::RepositoryAlreadyExists,
            ApiError::InvalidUuid => ApiStatusCode::InvalidUuid,
            ApiError::InternalServerError => ApiStatusCode::InternalServerError,
            ApiError::DatabaseError(_) => ApiStatusCode::DatabaseError,
            ApiError::InvalidHash(_) => ApiStatusCode::InternalServerError,
            ApiError::SessionInsert(_) => ApiStatusCode::SessionError,
            ApiError::SessionGet(_) => ApiStatusCode::SessionError,
            ApiError::SessionCorrupt => ApiStatusCode::SessionError,
        };
        (status, ApiErrorResponse::new(code, self.message()))
    }
}

/// The body that is returned in case of an error.
///
/// For client errors the HTTP status code will be 400, for server
/// errors 500.
pub struct ApiErrorResponse {
    /// The user-visible message
    pub message: String,
    /// The unique identifier of the error
    pub status_code: ApiStatusCode,
}

impl ApiErrorResponse {
    /// A response body from a status code and a message.
    pub fn new(status_code: ApiStatusCode, message: String) -> (r: Self)
        ensures
            r.status_code == status_code,
            r.message == message,
    {
        Self { message, status_code }
    }
}

/// Whether `i` is the first space of `h`.
pub open spec fn is_first_space(h: Seq<char>, i: int) -> bool {
    &&& 0 <= i < h.len()
    &&& h[i] == ' '
    &&& forall|j: int| 0 <= j < i ==> h[j] != ' '
}

/// The bearer token of an authorization header value: the header must
/// consist of exactly two space-separated words, the first of which is
/// `Bearer`; the token is the second word.
pub open spec fn bearer_token_spec(h: Seq<char>) -> Option<Seq<char>> {
    if exists|i: int| is_first_space(h, i) {
        let i = choose|i: int| is_first_space(h, i);
        let rest = h.subrange(i + 1, h.len() as int);
        if h.subrange(0, i) == "Bearer"@ && (forall|j: int|
            0 <= j < rest.len() ==> rest[j] != ' ') {
            Some(rest)
        } else {
            None
        }
    } else {
        None
    }
}

/// The first space of a string is unique.
proof fn lemma_first_space_unique(h: Seq<char>, i: int, j: int)
    requires
        is_first_space(h, i),
        is_first_space(h, j),
    ensures
        i == j,
{
    if i < j {
        assert(h[i] != ' ');
    } else if j < i {
        assert(h[j] != ' ');
    }
}

/// Extract the bearer token of an authorization header value, as the
/// drone API authenticates its callers: exactly two space-separated
/// words, the first `Bearer`; anything else is rejected.
pub fn bearer_token_of(header: &str) -> (r: Option<String>)
    ensures
        match r {
            Some(t) => bearer_token_spec(header@) == Some(t@),
            None => bearer_token_spec(header@) is None,
        },
{
    let n = header.unicode_len();
    let mut i: usize = 0;
    while i < n && header.get_char(i) != ' '
        invariant
            0 <= i <= n,
            n == header@.len(),
            forall|j: int| 0 <= j < i ==> header@[j] != ' ',
        decreases n - i,
    {
        i += 1;
    }
    if i == n {
        // no space at all: a single word
        assert(bearer_token_spec(header@) is None) by {
            if exists|k: int| is_first_space(header@, k) {
                let k = choose|k: int| is_first_space(header@, k);
                assert(header@[k] != ' ');
            }
        }
        return None;
    }
    proof {
        assert(is_first_space(header@, i as int));
        let k = choose|k: int| is_first_space(header@, k);
        lemma_first_space_unique(header@, i as int, k);
    }
    // check that the remainder holds no further space
    let mut j: usize = i + 1;
    while j < n && header.get_char(j) != ' '
        invariant
            i + 1 <= j <= n,
            n == header@.len(),
            forall|k: int| i + 1 <= k < j ==> header@[k] != ' ',
        decreases n - j,
    {
        j += 1;
    }
    let ghost rest = header@.subrange(i as int + 1, header@.len() as int);
    if j < n {
        // a second space: more than two words
        assert(bearer_token_spec(header@) is None) by {
            assert(rest[j - i - 1] == ' ');
        }
        return None;
    }
    // exactly one space; now the first word must be `Bearer`
    let bearer_ok = i == 6 && header.get_char(0) == 'B' && header.get_char(1) == 'e'
        && header.get_char(2) == 'a' && header.get_char(3) == 'r' && header.get_char(4) == 'e'
        && header.get_char(5) == 'r';
    proof {
        reveal_strlit("Bearer");
        assert(forall|k: int| 0 <= k < rest.len() ==> rest[k] != ' ');
    }
    if !bearer_ok {
        assert(bearer_token_spec(header@) is None) by {
            assert(header@.subrange(0, i as int) != "Bearer"@) by {
                if header@.subrange(0, i as int) == "Bearer"@ {
                    assert(header@.subrange(0, i as int).len() == 6);
                    assert(header@.subrange(0, i as int)[0] == header@[0]);
                    assert(header@.subrange(0, i as int)[1] == header@[1]);
                    assert(header@.subrange(0, i as int)[2] == header@[2]);
                    assert(header@.subrange(0, i as int)[3] == header@[3]);
                    assert(header@.subrange(0, i as int)[4] == header@[4]);
                    assert(header@.subrange(0, i as int)[5] == header@[5]);
                }
            }
        }
        return None;
    }
    let token = header.substring_char(i + 1, n).to_owned();
    proof {
        assert(header@.subrange(0, 6) =~= "Bearer"@);
        assert(bearer_token_spec(header@) == Some(token@));
    }
    Some(token)
}

/// The duration of an optional hook, zero when the hook did not run.
pub open spec fn opt_duration(o: Option<HookStats>) -> int {
    match o {
        Some(s) => s.duration as int,
        None => 0,
    }
}

/// The complete duration of a run: the create duration plus whichever
/// hook durations exist.
pub open spec fn complete_total(report: StatReport) -> int {
    report.create_stats.duration + opt_duration(report.pre_hook_stats) + opt_duration(
        report.post_hook_stats,
    )
}

/// The values of the stat record the collector stores for one report:
/// each hook's own duration when that hook ran, the create duration,
/// the complete duration, the three sizes and the file count.
pub struct DroneStatRow {
    /// The duration of the pre hook, when it ran
    pub pre_hook_duration: Option<i64>,
    /// The duration of the post hook, when it ran
    pub post_hook_duration: Option<i64>,
    /// The duration of the archive creation
    pub create_duration: i64,
    /// The duration of the whole run
    pub complete_duration: i64,
    /// Original file size in bytes
    pub original_size: i64,
    /// Compressed file size in bytes
    pub compressed_size: i64,
    /// Deduplicated file size in bytes
    pub deduplicated_size: i64,
    /// Number of archived files
    pub nfiles: i64,
}

/// Whether every value of a report's stat record fits the store's
/// signed 64-bit columns.
pub open spec fn stat_row_fits(report: StatReport) -> bool {
    &&& complete_total(report) <= i64::MAX
    &&& report.create_stats.original_size <= i64::MAX
    &&& report.create_stats.compressed_size <= i64::MAX
    &&& report.create_stats.deduplicated_size <= i64::MAX
    &&& report.create_stats.nfiles <= i64::MAX
}

/// Build the stat record of a report: the pre-hook and post-hook
/// columns each hold their own hook's duration, and the complete
/// duration is the sum of every duration present. `None` when a value
/// does not fit the store's signed 64-bit columns.
pub fn stat_row(report: &StatReport) -> (r: Option<DroneStatRow>)
    ensures
        stat_row_fits(*report) ==> (r matches Some(row) && {
            &&& (match report.pre_hook_stats {
                Some(h) => row.pre_hook_duration matches Some(d) && d == h.duration,
                None => row.pre_hook_duration is None,
            })
            &&& (match report.post_hook_stats {
                Some(h) => row.post_hook_duration matches Some(d) && d == h.duration,
                None => row.post_hook_duration is None,
            })
            &&& row.create_duration == report.create_stats.duration
            &&& row.complete_duration == complete_total(*report)
            &&& row.original_size == report.create_stats.original_size
            &&& row.compressed_size == report.create_stats.compressed_size
            &&& row.deduplicated_size == report.create_stats.deduplicated_size
            &&& row.nfiles == report.create_stats.nfiles
        }),
        !stat_row_fits(*report) ==> r is None,
{
    let complete = match complete_duration(report) {
        Some(total) => total,
        None => {
            return None;
        },
    };
    if complete > i64::MAX as u64 || report.create_stats.original_size > i64::MAX as u64
        || report.create_stats.compressed_size > i64::MAX as u64
        || report.create_stats.deduplicated_size > i64::MAX as u64 || report.create_stats.nfiles
        > i64::MAX as u64 {
        return None;
    }
    let pre_hook_duration: Option<i64> = match report.pre_hook_stats {
        Some(h) => Some(h.duration as i64),
        None => None,
    };
    let post_hook_duration: Option<i64> = match report.post_hook_stats {
        Some(h) => Some(h.duration as i64),
        None => None,
    };
    Some(
        DroneStatRow {
            pre_hook_duration,
            post_hook_duration,
            create_duration: report.create_stats.duration as i64,
            complete_duration: complete as i64,
            original_size: report.create_stats.original_size as i64,
            compressed_size: report.create_stats.compressed_size as i64,
            deduplicated_size: report.create_stats.deduplicated_size as i64,
            nfiles: report.create_stats.nfiles as i64,
        },
    )
}

/// The complete duration of a run: the create duration plus whichever
/// hook durations exist. `None` when the sum does not fit in a `u64`.
pub fn complete_duration(report: &StatReport) -> (r: Option<u64>)
    ensures
        ({
            let total = report.create_stats.duration + opt_duration(report.pre_hook_stats)
                + opt_duration(report.post_hook_stats);
            match r {
                Some(d) => d == total,
                None => total > u64::MAX,
            }
        }),
{
    let mut total: u64 = report.create_stats.duration;
    if let Some(pre) = report.pre_hook_stats {
        match total.checked_add(pre.duration) {
            Some(t) => {
                total = t;
            },
            None => {
                return None;
            },
        }
    }
    if let Some(post) = report.post_hook_stats {
        match total.checked_add(post.duration) {
            Some(t) => {
                total = t;
            },
            None => {
                return None;
            },
        }
    }
    Some(total)
}

} // verus!
