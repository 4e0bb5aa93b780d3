use crate::date::{date_text, format_ymd, query_date, seoul_date, CivilDate, QUERY_LAG_SECS};
use crate::store::CredentialStore;
use crate::text::{push_signed_decimal, signed_decimal};
use reqwest::header::{HeaderValue, InvalidHeaderValue};
use vstd::prelude::*;

verus! {

#[verifier::external_type_specification]
#[verifier::external_body]
pub struct ExHeaderValue(HeaderValue);

#[verifier::external_type_specification]
#[verifier::external_body]
pub struct ExInvalidHeaderValue(InvalidHeaderValue);

/// The kinds of character data the upstream serves, each with its own
/// endpoint. The skill category carries the skill grade it asks for.
#[derive(Clone, Copy, Debug, PartialEq, Eq)]
pub enum Category {
    Basic,
    Stat,
    HyperStat,
    Propensity,
    Ability,
    ItemEquipment,
    SymbolEquipment,
    SetEffect,
    Skill(i8),
    LinkSkill,
    VMatrix,
    HexaMatrix,
    Dojang,
}

/// The ways a request can fail before it reaches the client as a response.
#[derive(Clone, Copy, Debug, PartialEq, Eq)]
pub enum FetchError {
    /// The session header is absent, unreadable or empty.
    MissingSession,
    /// The character name of an identity lookup is empty.
    EmptyName,
    /// No identity has been resolved for the session yet.
    Unresolved,
    /// The upstream key cannot be sent as a header value.
    InvalidApiKey,
    /// The upstream answered with a status outside 200..=299.
    Rejected(u16),
    /// The upstream could not be reached.
    Unreachable,
    /// The system clock could not give the date of a dated query.
    ClockUnavailable,
    /// The upstream payload could not be decoded.
    Malformed,
}

/// The reason text sent to the client for each failure.
pub open spec fn reason_text(e: FetchError) -> Seq<char> {
    match e {
        FetchError::MissingSession => "Missing or invalid uuid header"@,
        FetchError::EmptyName => "Missing character name"@,
        FetchError::Unresolved => "Character not resolved"@,
        FetchError::InvalidApiKey => "Invalid upstream key"@,
        FetchError::ClockUnavailable => "Failed to read the current date"@,
        _ => "Failed to fetch OCID"@,
    }
}

impl FetchError {
    /// Every failure is reported to the client as a bad request.
    pub fn status(&self) -> (r: u16)
        ensures
            r == 400,
    {
        400
    }

    /// The short reason text of the failure.
    pub fn reason(&self) -> (r: &'static str)
        ensures
            r@ == reason_text(*self),
    {
        match self {
            FetchError::MissingSession => "Missing or invalid uuid header",
            FetchError::EmptyName => "Missing character name",
            FetchError::Unresolved => "Character not resolved",
            FetchError::InvalidApiKey => "Invalid upstream key",
            FetchError::ClockUnavailable => "Failed to read the current date",
            _ => "Failed to fetch OCID",
        }
    }
}

/// The root of every upstream endpoint.
pub open spec fn upstream_root() -> Seq<char> {
    "https://open.api.nexon.com/maplestory/v1/"@
}

/// The path segment of a category's endpoint under `character/`.
pub open spec fn category_path(c: Category) -> Seq<char> {
    match c {
        Category::Basic => "basic"@,
        Category::Stat => "stat"@,
        Category::HyperStat => "hyper-stat"@,
        Category::Propensity => "propensity"@,
        Category::Ability => "ability"@,
        Category::ItemEquipment => "item-equipment"@,
        Category::SymbolEquipment => "symbol-equipment"@,
        Category::SetEffect => "set-effect"@,
        Category::Skill(_) => "skill"@,
        Category::LinkSkill => "link-skill"@,
        Category::VMatrix => "vmatrix"@,
        Category::HexaMatrix => "hexamatrix"@,
        Category::Dojang => "dojang"@,
    }
}

/// The query parameters a category adds after `ocid` and `date`.
pub open spec fn category_extra(c: Category) -> Seq<char> {
    match c {
        Category::Skill(grade) => "&character_skill_grade="@ + signed_decimal(grade as int),
        _ => Seq::empty(),
    }
}

/// The URL of a category's endpoint for an identity and a date.
pub open spec fn category_url_text(c: Category, ocid: Seq<char>, date: CivilDate) -> Seq<char> {
    upstream_root() + "character/"@ + category_path(c) + "?ocid="@ + ocid + "&date="@ + date_text(
        date,
    ) + category_extra(c)
}

/// The URL of the lookup of a character's identity by name.
pub open spec fn identity_url_text(name: Seq<char>) -> Seq<char> {
    upstream_root() + "id?character_name="@ + name
}

impl Category {
    /// The path segment of the category's endpoint.
    pub fn path(&self) -> (r: &'static str)
        ensures
            r@ == category_path(*self),
    {
        match self {
            Category::Basic => "basic",
            Category::Stat => "stat",
            Category::HyperStat => "hyper-stat",
            Category::Propensity => "propensity",
            Category::Ability => "ability",
            Category::ItemEquipment => "item-equipment",
            Category::SymbolEquipment => "symbol-equipment",
            Category::SetEffect => "set-effect",
            Category::Skill(_) => "skill",
            Category::LinkSkill => "link-skill",
            Category::VMatrix => "vmatrix",
            Category::HexaMatrix => "hexamatrix",
            Category::Dojang => "dojang",
        }
    }
}

/// The URL that looks up a character's identity by name.
pub fn identity_url(name: &str) -> (r: String)
    ensures
        r@ == identity_url_text(name@),
{
    let mut u = String::from_str("https://open.api.nexon.com/maplestory/v1/");
    u.append("id?character_name=");
    u.append(name);
    assert(u@ =~= identity_url_text(name@));
    u
}

/// The URL of a category's endpoint for an identity on a given date.
pub fn category_url(category: Category, ocid: &str, date: &CivilDate) -> (r: String)
    ensures
        r@ == category_url_text(category, ocid@, *date),
{
    let mut u = String::from_str("https://open.api.nexon.com/maplestory/v1/");
    u.append("character/");
    u.append(category.path());
    u.append("?ocid=");
    u.append(ocid);
    u.append("&date=");
    let d = format_ymd(date);
    u.append(d.as_str());
    match category {
        Category::Skill(grade) => {
            u.append("&character_skill_grade=");
            push_signed_decimal(&mut u, grade as i32);
        },
        _ => {},
    }
    assert(u@ =~= category_url_text(category, ocid@, *date));
    u
}

/// The URL of a category's endpoint for an identity, dated one day before
/// now in the upstream's time zone; a clock that cannot give that date is
/// reported.
pub fn dated_category_url(category: Category, ocid: &str) -> (r: Result<String, FetchError>)
    ensures
        r == Err::<String, FetchError>(FetchError::ClockUnavailable) || (r is Ok && exists|now: int|
            seoul_date(now - QUERY_LAG_SECS).wf() && r->Ok_0@ == category_url_text(
                category,
                ocid@,
                #[trigger] seoul_date(now - QUERY_LAG_SECS),
            )),
{
    match query_date() {
        Some(date) => Ok(category_url(category, ocid, &date)),
        None => Err(FetchError::ClockUnavailable),
    }
}

/// The session token of a request: its header text, which must be present
/// and non-empty.
pub fn session_token(header: Option<String>) -> (r: Result<String, FetchError>)
    ensures
        match header {
            Some(t) => if t@.len() > 0 {
                r == Ok::<String, FetchError>(t)
            } else {
                r == Err::<String, FetchError>(FetchError::MissingSession)
            },
            None => r == Err::<String, FetchError>(FetchError::MissingSession),
        },
{
    match header {
        Some(t) => {
            if !t.as_str().is_empty() {
                Ok(t)
            } else {
                Err(FetchError::MissingSession)
            }
        },
        None => Err(FetchError::MissingSession),
    }
}

/// A status in 200..=299 is a success.
pub open spec fn is_success_status(code: u16) -> bool {
    200 <= code <= 299
}

/// Judges an upstream reply by its status; `None` stands for a reply that
/// never came because the transport failed.
pub fn check_status(status: Option<u16>) -> (r: Result<(), FetchError>)
    ensures
        match status {
            None => r == Err::<(), FetchError>(FetchError::Unreachable),
            Some(c) => if is_success_status(c) {
                r == Ok::<(), FetchError>(())
            } else {
                r == Err::<(), FetchError>(FetchError::Rejected(c))
            },
        },
{
    match status {
        None => Err(FetchError::Unreachable),
        Some(c) => {
            if 200 <= c && c <= 299 {
                Ok(())
            } else {
                Err(FetchError::Rejected(c))
            }
        },
    }
}

/// Turns the result of decoding a payload into the payload or a report.
pub fn accept_payload<T>(decoded: Option<T>) -> (r: Result<T, FetchError>)
    ensures
        match decoded {
            Some(v) => r == Ok::<T, FetchError>(v),
            None => r == Err::<T, FetchError>(FetchError::Malformed),
        },
{
    match decoded {
        Some(v) => Ok(v),
        None => Err(FetchError::Malformed),
    }
}

/// A character sent as a header value is accepted when it is a tab or not
/// an ASCII control character. Characters beyond ASCII encode to bytes of
/// 128 and above, which are accepted.
pub open spec fn header_char_ok(c: char) -> bool {
    c == '\t' || (c as u32 >= 32 && c as u32 != 127)
}

/// Whether every character of the text may stand in a header value.
pub open spec fn header_text_ok(s: Seq<char>) -> bool {
    forall|i: int| 0 <= i < s.len() ==> header_char_ok(#[trigger] s[i])
}

/// Relies on http's `HeaderValue::from_str`, reached through reqwest: it
/// fails exactly when some byte of the text is below 32 and not a tab, or
/// is 127.
#[verifier::external_body]
fn header_value(s: &str) -> (r: Result<HeaderValue, InvalidHeaderValue>)
    ensures
        r.is_ok() == header_text_ok(s@),
{
    HeaderValue::from_str(s)
}

/// The upstream key as the value of the authentication header.
pub fn api_key_header(store: &CredentialStore) -> (r: Result<HeaderValue, FetchError>)
    ensures
        r.is_ok() == header_text_ok(store.key_view()),
        r.is_err() ==> r == Err::<HeaderValue, FetchError>(FetchError::InvalidApiKey),
{
    match header_value(store.api_key()) {
        Ok(v) => Ok(v),
        Err(_) => Err(FetchError::InvalidApiKey),
    }
}

/// The endpoint URL for a session's request in a category on a given date:
/// the session must carry a token with a resolved identity.
pub fn fetch_url_on(
    store: &CredentialStore,
    token: Option<String>,
    category: Category,
    date: &CivilDate,
) -> (r: Result<String, FetchError>)
    requires
        store.wf(),
    ensures
        match token {
            Some(t) if t@.len() > 0 => if store@.contains_key(t@) {
                r.is_ok() && r.unwrap()@ == category_url_text(category, store@[t@], *date)
            } else {
                r == Err::<String, FetchError>(FetchError::Unresolved)
            },
            _ => r == Err::<String, FetchError>(FetchError::MissingSession),
        },
{
    let t = match session_token(token) {
        Ok(t) => t,
        Err(e) => return Err(e),
    };
    match store.get_identity(&t) {
        Some(ocid) => Ok(category_url(category, ocid.as_str(), date)),
        None => Err(FetchError::Unresolved),
    }
}

/// The endpoint URL for a session's request in a category, dated one day
/// before now in the upstream's time zone. The session is checked first;
/// a clock that cannot give the date is then reported.
pub fn fetch_url(store: &CredentialStore, token: Option<String>, category: Category) -> (r: Result<
    String,
    FetchError,
>)
    requires
        store.wf(),
    ensures
        match token {
            Some(t) if t@.len() > 0 => if store@.contains_key(t@) {
                r == Err::<String, FetchError>(FetchError::ClockUnavailable) || (r is Ok && exists|
                    now: int,
                |
                    seoul_date(now - QUERY_LAG_SECS).wf() && r->Ok_0@ == category_url_text(
                        category,
                        store@[t@],
                        #[trigger] seoul_date(now - QUERY_LAG_SECS),
                    ))
            } else {
                r == Err::<String, FetchError>(FetchError::Unresolved)
            },
            _ => r == Err::<String, FetchError>(FetchError::MissingSession),
        },
{
    let t = match session_token(token) {
        Ok(t) => t,
        Err(e) => return Err(e),
    };
    match store.get_identity(&t) {
        Some(ocid) => dated_category_url(category, ocid.as_str()),
        None => Err(FetchError::Unresolved),
    }
}

} // verus!
