//! Types shared by all endpoints.

use vstd::prelude::*;
use vstd::string::*;

use crate::params::{form_body, form_content_type, ParamValue, ParamView, Params};
use crate::text::{ascii_chars, decimal, decimal_string, path_escape, path_escaped, string_push};

verus! {

/// The HTTP methods used by the endpoints.
#[derive(Debug, Clone, Copy, PartialEq, Eq, Structural)]
pub enum Method {
    Get,
    Post,
    Put,
    Delete,
}

impl Method {
    pub open spec fn spec_as_str(self) -> Seq<char> {
        match self {
            Method::Get => "GET"@,
            Method::Post => "POST"@,
            Method::Put => "PUT"@,
            Method::Delete => "DELETE"@,
        }
    }

    /// The name of the method as used on the wire.
    pub fn as_str(self) -> (r: &'static str)
        ensures
            r@ == self.spec_as_str(),
    {
        match self {
            Method::Get => "GET",
            Method::Post => "POST",
            Method::Put => "PUT",
            Method::Delete => "DELETE",
        }
    }
}

/// Whether two strings have the same characters.
pub fn str_eq(a: &str, b: &str) -> (r: bool)
    ensures
        r == (a@ == b@),
{
    let x = a.as_bytes();
    let y = b.as_bytes();
    let mut same = false;
    if x.len() == y.len() {
        let mut i: usize = 0;
        while i < x.len() && x[i] == y[i]
            invariant
                x@.len() == y@.len(),
                i <= x@.len(),
                forall|j: int| 0 <= j < i ==> x@[j] == y@[j],
            decreases x@.len() - i,
        {
            i = i + 1;
        }
        same = i == x.len();
        if same {
            assert(x@ =~= y@);
        }
    }
    proof {
        vstd::utf8::encode_utf8_decode_utf8(a@);
        vstd::utf8::encode_utf8_decode_utf8(b@);
        if same {
            assert(x@ == y@);
        } else if a@ == b@ {
            assert(x@ == y@);
        }
    }
    same
}

/// A string made of the characters of `a` followed by those of `b`.
pub fn concat_str(a: &str, b: &str) -> (r: String)
    ensures
        r@ == a@ + b@,
{
    let mut r = a.to_owned();
    r.append(b);
    r
}


/// A project (or other entity) given by its path name or by its numeric ID.
#[derive(Debug, Clone, PartialEq, Eq)]
pub enum NameOrId {
    Name(String),
    Id(u64),
}

impl NameOrId {
    /// How the entity appears as one segment of a request path: a name is
    /// percent-escaped, an ID is written in decimal.
    pub open spec fn segment(self) -> Seq<char> {
        match self {
            NameOrId::Name(s) => ascii_chars(path_escape(vstd::utf8::encode_utf8(s@))),
            NameOrId::Id(n) => ascii_chars(decimal(n as nat)),
        }
    }

    /// The path segment for the entity.
    pub fn to_segment(&self) -> (r: String)
        ensures
            r@ == self.segment(),
    {
        match self {
            NameOrId::Name(s) => path_escaped(s.as_str()),
            NameOrId::Id(n) => decimal_string(*n),
        }
    }
}

/// Values which name an entity by path or by ID.
pub trait IntoNameOrId {
    /// Whether `target` is the entity that this value names.
    spec fn denotes(&self, target: NameOrId) -> bool;

    fn into_name_or_id(self) -> (r: NameOrId)
        ensures
            self.denotes(r),
    ;
}

impl IntoNameOrId for u64 {
    open spec fn denotes(&self, target: NameOrId) -> bool {
        target == NameOrId::Id(*self)
    }

    fn into_name_or_id(self) -> (r: NameOrId) {
        NameOrId::Id(self)
    }
}

impl<'a> IntoNameOrId for &'a str {
    open spec fn denotes(&self, target: NameOrId) -> bool {
        target matches NameOrId::Name(s) && s@ == self@
    }

    fn into_name_or_id(self) -> (r: NameOrId) {
        NameOrId::Name(self.to_owned())
    }
}

impl IntoNameOrId for String {
    open spec fn denotes(&self, target: NameOrId) -> bool {
        target matches NameOrId::Name(s) && s@ == self@
    }

    fn into_name_or_id(self) -> (r: NameOrId) {
        NameOrId::Name(self)
    }
}

impl IntoNameOrId for NameOrId {
    open spec fn denotes(&self, target: NameOrId) -> bool {
        target == *self
    }

    fn into_name_or_id(self) -> (r: NameOrId) {
        self
    }
}

/// The error of a builder which lacks a required field.
#[derive(Debug, Clone, Copy, PartialEq, Eq)]
pub enum BuilderError {
    /// The named field was never set.
    UninitializedField(&'static str),
}

impl BuilderError {
    /// The name of the missing field.
    pub open spec fn spec_field(self) -> Seq<char> {
        match self {
            BuilderError::UninitializedField(f) => f@,
        }
    }

    /// Whether this error reports the field `name` as missing.
    pub open spec fn missing(self, name: Seq<char>) -> bool {
        self.spec_field() == name
    }

    /// The name of the missing field.
    pub fn field(&self) -> (r: &'static str)
        ensures
            r@ == self.spec_field(),
    {
        match self {
            BuilderError::UninitializedField(f) => f,
        }
    }

    /// A description of the error.
    pub fn message(&self) -> (r: String)
        ensures
            r@ == "`"@ + self.spec_field() + "` must be initialized"@,
    {
        let mut r = concat_str("`", self.field());
        r.append("` must be initialized");
        r
    }
}

/// The two values which a body may hold: no body at all, or a form body
/// made of the given parameters.
pub open spec fn body_matches(r: Option<(&'static str, Vec<u8>)>, b: Option<Seq<ParamView>>) -> bool {
    match b {
        None => r is None,
        Some(ps) => r matches Some(x) && x.0@ == "application/x-www-form-urlencoded"@ && x.1@
            == form_body(ps),
    }
}

/// A form body holding the given parameters.
pub fn form_request_body(params: &Params) -> (r: Option<(&'static str, Vec<u8>)>)
    ensures
        body_matches(r, Some(params@)),
{
    Some((form_content_type(), params.form_body()))
}

/// A request to the Gitlab REST API.
pub trait Endpoint {
    spec fn spec_method(&self) -> Method;

    /// The path of the request below the API root.
    spec fn spec_endpoint(&self) -> Seq<char>;

    /// The parameters added to the query string.
    spec fn spec_parameters(&self) -> Seq<ParamView>;

    /// The parameters sent in a form body, if there is a body.
    spec fn spec_body(&self) -> Option<Seq<ParamView>>;

    fn method(&self) -> (r: Method)
        ensures
            r == self.spec_method(),
    ;

    fn endpoint(&self) -> (r: String)
        ensures
            r@ == self.spec_endpoint(),
    ;

    fn parameters(&self) -> (r: Params)
        ensures
            r@ == self.spec_parameters(),
    ;

    fn body(&self) -> (r: Option<(&'static str, Vec<u8>)>)
        ensures
            body_matches(r, self.spec_body()),
    ;
}

/// Endpoints which return their results across several pages.
pub trait Pageable {
    spec fn spec_use_keyset_pagination(&self) -> bool;

    /// Whether pages are fetched by keyset rather than by offset.
    fn use_keyset_pagination(&self) -> (r: bool)
        ensures
            r == self.spec_use_keyset_pagination(),
    ;
}


/// The RFC 3339 text, to whole seconds and with a `Z` suffix, of the UTC time
/// `nanos` nanoseconds after `seconds` seconds past the UNIX epoch.
pub uninterp spec fn rfc3339_seconds(seconds: i64, nanos: u32) -> Seq<char>;

/// Whether a time lies in the years 1 to 9999 (UTC) and its nanoseconds are
/// below one second.
pub open spec fn in_common_era_range(seconds: i64, nanos: u32) -> bool {
    -62_135_596_800 <= seconds <= 253_402_300_799 && nanos < 1_000_000_000
}

/// Formats a UTC time through `chrono::DateTime::from_timestamp` and
/// `DateTime::to_rfc3339_opts(SecondsFormat::Secs, true)`.
///
/// chrono rejects only days outside its range of years (about -262000 to
/// 262000) and nanoseconds that are not a valid (leap) second, and its
/// formatting never fails; so a time of the years 1 to 9999 with fewer than
/// a second of nanoseconds is always formatted.  Which other times it
/// accepts is left unsaid.
#[verifier::external_body]
fn format_rfc3339_seconds(seconds: i64, nanos: u32) -> (r: Option<String>)
    ensures
        r matches Some(s) ==> s@ == rfc3339_seconds(seconds, nanos),
        in_common_era_range(seconds, nanos) ==> r is Some,
{
    match chrono::DateTime::from_timestamp(seconds, nanos) {
        Some(t) => Some(t.to_rfc3339_opts(chrono::SecondsFormat::Secs, true)),
        None => None,
    }
}

/// Reads the clock through `chrono::Utc::now`: the seconds and nanoseconds
/// since the UNIX epoch of the current time, with the RFC 3339 text of that
/// time (to whole seconds, `Z` suffix).
///
/// The time itself is whatever the clock says; only the agreement of the
/// text with the two numbers is stated.
#[verifier::external_body]
fn utc_now() -> (r: (i64, u32, String))
    ensures
        r.2@ == rfc3339_seconds(r.0, r.1),
{
    let t = chrono::Utc::now();
    (t.timestamp(), t.timestamp_subsec_nanos(), t.to_rfc3339_opts(chrono::SecondsFormat::Secs, true))
}

/// A point in time (UTC), sent as RFC 3339 text.
#[derive(Debug)]
pub struct Timestamp {
    seconds: i64,
    nanos: u32,
    text: String,
}

impl Timestamp {
    #[verifier::type_invariant]
    spec fn text_matches(self) -> bool {
        self.text@ == rfc3339_seconds(self.seconds, self.nanos)
    }

    /// Seconds since the UNIX epoch.
    pub closed spec fn spec_seconds(self) -> i64 {
        self.seconds
    }

    /// Nanoseconds after the second.
    pub closed spec fn spec_nanos(self) -> u32 {
        self.nanos
    }

    /// The time `nanos` nanoseconds after `seconds` seconds past the UNIX
    /// epoch, if it can be represented.
    pub fn from_unix(seconds: i64, nanos: u32) -> (r: Option<Timestamp>)
        ensures
            r matches Some(t) ==> t.spec_seconds() == seconds && t.spec_nanos() == nanos,
            in_common_era_range(seconds, nanos) ==> r is Some,
    {
        match format_rfc3339_seconds(seconds, nanos) {
            Some(text) => Some(Timestamp { seconds, nanos, text }),
            None => None,
        }
    }

    /// The time `nanos` nanoseconds after `seconds` seconds past the UNIX
    /// epoch, given with its RFC 3339 text.
    pub(crate) fn from_parts(seconds: i64, nanos: u32, text: String) -> (r: Timestamp)
        requires
            text@ == rfc3339_seconds(seconds, nanos),
        ensures
            r.spec_seconds() == seconds,
            r.spec_nanos() == nanos,
    {
        Timestamp { seconds, nanos, text }
    }

    /// The current time.
    pub fn now() -> (r: Timestamp) {
        let (seconds, nanos, text) = utc_now();
        Timestamp::from_parts(seconds, nanos, text)
    }

    /// Seconds since the UNIX epoch.
    pub fn seconds(&self) -> (r: i64)
        ensures
            r == self.spec_seconds(),
    {
        self.seconds
    }

    /// Nanoseconds after the second.
    pub fn nanos(&self) -> (r: u32)
        ensures
            r == self.spec_nanos(),
    {
        self.nanos
    }
}

impl Clone for Timestamp {
    fn clone(&self) -> (r: Self)
        ensures
            r.spec_seconds() == self.spec_seconds(),
            r.spec_nanos() == self.spec_nanos(),
    {
        proof {
            use_type_invariant(self);
        }
        Timestamp { seconds: self.seconds, nanos: self.nanos, text: self.text.clone() }
    }
}

impl ParamValue for Timestamp {
    open spec fn spec_value(&self) -> Seq<char> {
        rfc3339_seconds(self.spec_seconds(), self.spec_nanos())
    }

    fn as_value(&self) -> (r: String) {
        proof {
            use_type_invariant(self);
        }
        self.text.clone()
    }
}

/// Whether `year` is a leap year of the proleptic Gregorian calendar.
pub open spec fn is_leap_year(year: int) -> bool {
    (year % 4 == 0 && year % 100 != 0) || year % 400 == 0
}

/// The number of days of `month` (1 to 12) in `year`.
pub open spec fn days_in_month(year: int, month: int) -> int {
    if month == 2 {
        if is_leap_year(year) {
            29
        } else {
            28
        }
    } else if month == 4 || month == 6 || month == 9 || month == 11 {
        30
    } else {
        31
    }
}

/// Whether the three numbers name a day of the calendar.
pub open spec fn is_valid_date(year: int, month: int, day: int) -> bool {
    1 <= month <= 12 && 1 <= day <= days_in_month(year, month)
}

/// A calendar day (proleptic Gregorian calendar), without a time zone.
#[derive(Debug, Clone, Copy, PartialEq, Eq, Structural)]
pub struct Date {
    year: i32,
    month: u32,
    day: u32,
}

impl Date {
    #[verifier::type_invariant]
    spec fn is_valid(self) -> bool {
        is_valid_date(self.year as int, self.month as int, self.day as int)
    }

    /// The year.
    pub closed spec fn spec_year(self) -> i32 {
        self.year
    }

    /// The month, from 1 to 12.
    pub closed spec fn spec_month(self) -> u32 {
        self.month
    }

    /// The day of the month, from 1.
    pub closed spec fn spec_day(self) -> u32 {
        self.day
    }

    /// The day `day` of month `month` of `year`, if there is such a day.
    pub fn from_ymd(year: i32, month: u32, day: u32) -> (r: Option<Date>)
        ensures
            r is Some <==> is_valid_date(year as int, month as int, day as int),
            r matches Some(d) ==> d.spec_year() == year && d.spec_month() == month && d.spec_day()
                == day,
    {
        if month < 1 || month > 12 || day < 1 {
            return None;
        }
        let leap = (year % 4 == 0 && year % 100 != 0) || year % 400 == 0;
        let days: u32 = if month == 2 {
            if leap {
                29
            } else {
                28
            }
        } else if month == 4 || month == 6 || month == 9 || month == 11 {
            30
        } else {
            31
        };
        assert(leap == is_leap_year(year as int));
        if day > days {
            None
        } else {
            Some(Date { year, month, day })
        }
    }

    /// The year.
    pub fn year(&self) -> (r: i32)
        ensures
            r == self.spec_year(),
    {
        self.year
    }

    /// The month, from 1 to 12.
    pub fn month(&self) -> (r: u32)
        ensures
            r == self.spec_month(),
            1 <= r <= 12,
    {
        proof {
            use_type_invariant(self);
        }
        self.month
    }

    /// The day of the month, from 1.
    pub fn day(&self) -> (r: u32)
        ensures
            r == self.spec_day(),
            1 <= r <= days_in_month(self.spec_year() as int, self.spec_month() as int),
    {
        proof {
            use_type_invariant(self);
        }
        self.day
    }
}

/// The decimal digits of `n`, padded with zeros to at least four.
pub open spec fn padded4(n: nat) -> Seq<char> {
    let t = ascii_chars(decimal(n));
    if t.len() >= 4 {
        t
    } else {
        Seq::new((4 - t.len()) as nat, |i: int| '0') + t
    }
}

/// The two decimal digits of a number below 100.
pub open spec fn two_digits(n: int) -> Seq<char> {
    seq![(48 + n / 10) as char, (48 + n % 10) as char]
}

/// How a year is written: four digits or more, with a sign outside 0 to 9999.
pub open spec fn year_text(year: int) -> Seq<char> {
    if 0 <= year <= 9999 {
        padded4(year as nat)
    } else if year > 9999 {
        seq!['+'] + padded4(year as nat)
    } else {
        seq!['-'] + padded4((-year) as nat)
    }
}

/// How a date is written: `YYYY-MM-DD`.
pub open spec fn date_text(year: int, month: int, day: int) -> Seq<char> {
    year_text(year) + seq!['-'] + two_digits(month) + seq!['-'] + two_digits(day)
}

/// The digits of `n`, padded with zeros to at least four.
fn padded4_string(n: u64) -> (r: String)
    ensures
        r@ == padded4(n as nat),
{
    let digits = decimal_string(n);
    let len = digits.unicode_len();
    if len >= 4 {
        return digits;
    }
    let mut r = String::new();
    let mut i: usize = len;
    while i < 4
        invariant
            len <= i <= 4,
            r@ == Seq::new((i - len) as nat, |j: int| '0'),
        decreases 4 - i,
    {
        string_push(&mut r, '0');
        assert(r@ =~= Seq::new((i + 1 - len) as nat, |j: int| '0'));
        i = i + 1;
    }
    r.append(digits.as_str());
    r
}

/// Appends the two decimal digits of a number below 100.
fn push_two_digits(s: &mut String, n: u32)
    requires
        n < 100,
    ensures
        final(s)@ == old(s)@ + two_digits(n as int),
{
    let hi = n / 10;
    let lo = n % 10;
    string_push(s, ((48 + hi) as u8) as char);
    string_push(s, ((48 + lo) as u8) as char);
}

impl Date {
    /// The date as `YYYY-MM-DD`, as chrono writes it.
    pub fn to_string(&self) -> (r: String)
        ensures
            r@ == date_text(self.spec_year() as int, self.spec_month() as int, self.spec_day() as int),
    {
        proof {
            use_type_invariant(self);
        }
        let y = self.year as i64;
        let mut r = if 0 <= y && y <= 9999 {
            padded4_string(y as u64)
        } else if y > 9999 {
            let mut t = String::new();
            string_push(&mut t, '+');
            t.append(padded4_string(y as u64).as_str());
            t
        } else {
            let mut t = String::new();
            string_push(&mut t, '-');
            t.append(padded4_string((-y) as u64).as_str());
            t
        };
        string_push(&mut r, '-');
        push_two_digits(&mut r, self.month);
        string_push(&mut r, '-');
        push_two_digits(&mut r, self.day);
        r
    }
}

} // verus!
