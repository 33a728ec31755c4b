//! The problem details object and its JSON object form.
use vstd::prelude::*;
use serde_json::{Map as JsonObject, Value};
use crate::extensions::{
    extensions_wf, is_fixed_member, is_reserved_key, lemma_reserved_names_distinct, reserved_key,
    Extensions,
};
use crate::json::{
    json_is_null, json_members, json_str, json_u64, number_value, object_bytes, object_entries,
    object_get, object_insert, object_text, object_to_string, object_to_vec, parse_object,
    parsed_members, string_value, value_as_str, value_as_u64, value_is_null,
};
use crate::status::{
    reason_or_unknown, status_digits, status_display, valid_status, InvalidStatusCode, StatusCode,
};

verus! {

/// The media type of a problem details response body.
pub const PROBLEM_JSON_MEDIA_TYPE: &'static str = "application/problem+json";

/// The start of the type URL that names a problem after its status code.
pub const STATUS_TYPE_URL_PREFIX: &'static str = "https://httpstatuses.com/";

/// Why a JSON text could not be read as a problem.
#[derive(Clone, Copy, Debug, PartialEq, Eq, Structural)]
pub enum DecodeError {
    /// The text is no JSON object.
    InvalidJson,
    /// The `type` member is neither a string nor `null`.
    InvalidType,
    /// The `title` member is neither a string nor `null`.
    InvalidTitle,
    /// The `detail` member is neither a string nor `null`.
    InvalidDetail,
    /// The `instance` member is neither a string nor `null`.
    InvalidInstance,
}

/// The JSON serializer refused the object.
#[derive(Clone, Copy, Debug, PartialEq, Eq, Structural)]
pub struct EncodeError {}

/// A problem as a mathematical value.
pub struct ProblemView {
    pub type_url: Option<Seq<char>>,
    pub status: Option<u16>,
    pub title: Option<Seq<char>>,
    pub detail: Option<Seq<char>>,
    pub instance: Option<Seq<char>>,
    /// The extension members by name.
    pub extensions: Map<Seq<char>, Value>,
}

/// The text of an optional string.
pub open spec fn opt_view(o: Option<String>) -> Option<Seq<char>> {
    match o {
        Some(s) => Some(s@),
        None => None,
    }
}

/// The number of an optional status code.
pub open spec fn status_view(o: Option<StatusCode>) -> Option<u16> {
    match o {
        Some(s) => Some(s@),
        None => None,
    }
}

/// The problem with no member at all.
pub open spec fn empty_problem() -> ProblemView {
    ProblemView {
        type_url: None,
        status: None,
        title: None,
        detail: None,
        instance: None,
        extensions: Map::empty(),
    }
}

/// The type URL that names a problem after its status code.
pub open spec fn status_type_url(c: u16) -> Seq<char> {
    STATUS_TYPE_URL_PREFIX@ + status_digits(c)
}

/// The error text for an extension under a reserved name.
pub open spec fn reserved_message(k: Seq<char>) -> Seq<char> {
    "'"@ + k + "' is a reserved field name"@
}

impl ProblemView {
    /// A status, where there is one, is valid, and no extension has a
    /// reserved name.
    pub open spec fn wf(self) -> bool {
        &&& (self.status matches Some(c) ==> valid_status(c as int))
        &&& extensions_wf(self.extensions)
    }

    /// The status to send: the problem's own, else 500.
    pub open spec fn effective_status(self) -> u16 {
        match self.status {
            Some(c) => c,
            None => 500,
        }
    }

    /// The one-line text of a problem: its status, then its title and
    /// detail, or its type URL where it has neither.
    pub open spec fn display_text(self) -> Seq<char> {
        let head = match self.status {
            Some(c) => status_display(c),
            None => "<no status>"@,
        };
        match (self.title, self.detail) {
            (Some(t), Some(d)) => head + " - "@ + t + " - "@ + d,
            (Some(t), None) => head + " - "@ + t,
            (None, Some(d)) => head + " - "@ + d,
            (None, None) => match self.type_url {
                Some(u) => head + " - "@ + u,
                None => head,
            },
        }
    }
}

/// Whether the member `k` of `m` stands for the string field `f`: present
/// with that string, or absent.
pub open spec fn string_member_encoded(
    m: Map<Seq<char>, Value>,
    k: Seq<char>,
    f: Option<Seq<char>>,
) -> bool {
    match f {
        Some(s) => m.contains_key(k) && json_str(m[k]) == Some(s),
        None => !m.contains_key(k),
    }
}

/// Whether the `status` member of `m` stands for `f`: the plain number,
/// or absent.
pub open spec fn status_member_encoded(m: Map<Seq<char>, Value>, f: Option<u16>) -> bool {
    match f {
        Some(c) => m.contains_key("status"@) && json_u64(m["status"@]) == Some(c as u64),
        None => !m.contains_key("status"@),
    }
}

/// Whether `m` is the JSON object form of `p`: a member for each field that
/// is present, and the extension members beside them.
pub open spec fn encodes(p: ProblemView, m: Map<Seq<char>, Value>) -> bool {
    &&& string_member_encoded(m, "type"@, p.type_url)
    &&& status_member_encoded(m, p.status)
    &&& string_member_encoded(m, "title"@, p.title)
    &&& string_member_encoded(m, "detail"@, p.detail)
    &&& string_member_encoded(m, "instance"@, p.instance)
    &&& forall|k: Seq<char>|
        #![trigger m.contains_key(k)]
        #![trigger p.extensions.contains_key(k)]
        !is_fixed_member(k) ==> (m.contains_key(k) <==> p.extensions.contains_key(k))
    &&& forall|k: Seq<char>|
        !is_fixed_member(k) && #[trigger] m.contains_key(k) ==> m[k] == p.extensions[k]
}

/// A string field read from the member `k` of `m`: `Some(None)` where the
/// member is absent or `null`, `None` where it is neither that nor a string.
pub open spec fn string_member_decoded(m: Map<Seq<char>, Value>, k: Seq<char>) -> Option<
    Option<Seq<char>>,
> {
    if !m.contains_key(k) {
        Some(None)
    } else {
        match json_str(m[k]) {
            Some(s) => Some(Some(s)),
            None => if json_is_null(m[k]) {
                Some(None)
            } else {
                None
            },
        }
    }
}

/// The status read from `m`: present only where the member is a valid
/// status code.
pub open spec fn status_member_decoded(m: Map<Seq<char>, Value>) -> Option<u16> {
    if m.contains_key("status"@) {
        match json_u64(m["status"@]) {
            Some(n) => if valid_status(n as int) {
                Some(n as u16)
            } else {
                None
            },
            None => None,
        }
    } else {
        None
    }
}

/// The members of `m` that are kept as extensions: all but the reserved ones.
pub open spec fn extensions_decoded(m: Map<Seq<char>, Value>) -> Map<Seq<char>, Value> {
    Map::new(|k: Seq<char>| m.contains_key(k) && !is_reserved_key(k), |k: Seq<char>| m[k])
}

/// The problem that a JSON object with members `m` stands for.
pub open spec fn decode_members(m: Map<Seq<char>, Value>) -> Result<ProblemView, DecodeError> {
    let t = string_member_decoded(m, "type"@);
    let ti = string_member_decoded(m, "title"@);
    let d = string_member_decoded(m, "detail"@);
    let i = string_member_decoded(m, "instance"@);
    if t is None {
        Err(DecodeError::InvalidType)
    } else if ti is None {
        Err(DecodeError::InvalidTitle)
    } else if d is None {
        Err(DecodeError::InvalidDetail)
    } else if i is None {
        Err(DecodeError::InvalidInstance)
    } else {
        Ok(
            ProblemView {
                type_url: t->Some_0,
                status: status_member_decoded(m),
                title: ti->Some_0,
                detail: d->Some_0,
                instance: i->Some_0,
                extensions: extensions_decoded(m),
            },
        )
    }
}

/// The problem that the bytes `b` hold as JSON text.
pub open spec fn decode_bytes(b: Seq<u8>) -> Result<ProblemView, DecodeError> {
    match parsed_members(b) {
        Some(m) => decode_members(m),
        None => Err(DecodeError::InvalidJson),
    }
}

/// `p` with `v` under the extension name `k`.
pub open spec fn with_extension(p: ProblemView, k: Seq<char>, v: Value) -> ProblemView {
    ProblemView { extensions: p.extensions.insert(k, v), ..p }
}

/// `p` after an attempt to set the extension `k` to `v`: a reserved name
/// leaves it as it was.
pub open spec fn value_set(p: ProblemView, k: Seq<char>, v: Value) -> ProblemView {
    if is_reserved_key(k) {
        p
    } else {
        with_extension(p, k, v)
    }
}

/// The outcome of a decode, with the problem as its view.
pub open spec fn result_view(r: Result<HttpApiProblem, DecodeError>) -> Result<
    ProblemView,
    DecodeError,
> {
    match r {
        Ok(p) => Ok(p@),
        Err(e) => Err(e),
    }
}

/// A problem details object (RFC 7807).
#[derive(Clone, Debug)]
pub struct HttpApiProblem {
    /// A URI reference that identifies the problem type; absent means
    /// `about:blank`.
    pub type_url: Option<String>,
    /// The HTTP status code of this occurrence.
    pub status: Option<StatusCode>,
    /// A short summary of the problem type.
    pub title: Option<String>,
    /// An explanation specific to this occurrence.
    pub detail: Option<String>,
    /// A URI reference that identifies this occurrence.
    pub instance: Option<String>,
    additional_fields: Extensions,
}

impl View for HttpApiProblem {
    type V = ProblemView;

    closed spec fn view(&self) -> ProblemView {
        ProblemView {
            type_url: opt_view(self.type_url),
            status: status_view(self.status),
            title: opt_view(self.title),
            detail: opt_view(self.detail),
            instance: opt_view(self.instance),
            extensions: self.additional_fields@,
        }
    }
}

fn read_string_member(m: &JsonObject<String, Value>, k: &str) -> (r: Option<Option<String>>)
    ensures
        r is Some <==> string_member_decoded(json_members(*m), k@) is Some,
        r matches Some(f) ==> string_member_decoded(json_members(*m), k@) == Some(opt_view(f)),
{
    match object_get(m, k) {
        None => Some(None),
        Some(v) => match value_as_str(v) {
            Some(s) => Some(Some(s)),
            None => if value_is_null(v) {
                Some(None)
            } else {
                None
            },
        },
    }
}

fn read_status_member(m: &JsonObject<String, Value>) -> (r: Option<StatusCode>)
    ensures
        status_view(r) == status_member_decoded(json_members(*m)),
{
    match object_get(m, "status") {
        None => None,
        Some(v) => match value_as_u64(v) {
            Some(n) => if n <= 999 {
                match StatusCode::from_u16(n as u16) {
                    Ok(s) => Some(s),
                    Err(_) => None,
                }
            } else {
                None
            },
            None => None,
        },
    }
}

impl HttpApiProblem {
    /// The problem with no member at all.
    pub fn empty() -> (r: HttpApiProblem)
        ensures
            r@ == empty_problem(),
    {
        HttpApiProblem {
            type_url: None,
            status: None,
            title: None,
            detail: None,
            instance: None,
            additional_fields: Extensions::new(),
        }
    }

    /// The JSON object form of this problem.
    pub fn json_object(&self) -> (r: JsonObject<String, Value>)
        ensures
            encodes(self@, json_members(r)),
            self@.wf(),
    {
        let mut m = self.additional_fields.to_object();
        proof {
            lemma_reserved_names_distinct();
        }
        let ghost m0 = json_members(m);
        if let Some(t) = &self.type_url {
            object_insert(&mut m, String::from_str("type"), string_value(t.clone()));
        }
        if let Some(s) = &self.status {
            object_insert(&mut m, String::from_str("status"), number_value(s.as_u16()));
        }
        if let Some(t) = &self.title {
            object_insert(&mut m, String::from_str("title"), string_value(t.clone()));
        }
        if let Some(t) = &self.detail {
            object_insert(&mut m, String::from_str("detail"), string_value(t.clone()));
        }
        if let Some(t) = &self.instance {
            object_insert(&mut m, String::from_str("instance"), string_value(t.clone()));
        }
        proof {
            assert(forall|k: Seq<char>| !is_fixed_member(k) ==> (json_members(m).contains_key(k) == m0.contains_key(k)));
            assert(forall|k: Seq<char>| !is_fixed_member(k) && json_members(m).contains_key(k) ==> json_members(m)[k] == m0[k]);
        }
        m
    }

    /// The problem that a JSON object stands for. A `status` member that is
    /// no valid status code is read as absent; members that are not fixed
    /// fields become extensions, but for the reserved `additional_fields`.
    pub fn from_json_object(m: JsonObject<String, Value>) -> (r: Result<HttpApiProblem, DecodeError>)
        ensures
            result_view(r) == decode_members(json_members(m)),
    {
        let ghost members = json_members(m);
        let type_url = match read_string_member(&m, "type") {
            Some(f) => f,
            None => return Err(DecodeError::InvalidType),
        };
        let title = match read_string_member(&m, "title") {
            Some(f) => f,
            None => return Err(DecodeError::InvalidTitle),
        };
        let detail = match read_string_member(&m, "detail") {
            Some(f) => f,
            None => return Err(DecodeError::InvalidDetail),
        };
        let instance = match read_string_member(&m, "instance") {
            Some(f) => f,
            None => return Err(DecodeError::InvalidInstance),
        };
        let status = read_status_member(&m);
        let mut entries = object_entries(m);
        let ghost all = entries@;
        let mut extensions = Extensions::new();
        while entries.len() > 0
            invariant
                entries@ == all.subrange(0, entries@.len() as int),
                entries@.len() <= all.len(),
                forall|i: int|
                    0 <= i < all.len() ==> #[trigger] members.contains_key(all[i].0@)
                        && members[all[i].0@] == all[i].1,
                forall|k: Seq<char>|
                    #[trigger] extensions@.contains_key(k) <==> (!is_reserved_key(k) && exists|
                        j: int,
                    | entries@.len() <= j < all.len() && all[j].0@ == k),
                forall|k: Seq<char>|
                    #[trigger] extensions@.contains_key(k) ==> members.contains_key(k)
                        && extensions@[k] == members[k],
            decreases entries.len(),
        {
            let ghost n = entries@.len() - 1;
            let (k, v) = entries.pop().unwrap();
            assert(all[n].0@ == k@);
            if !reserved_key(k.as_str()) {
                extensions.insert(k, v);
            }
        }
        proof {
            assert forall|k: Seq<char>| #[trigger]
                extensions_decoded(members).contains_key(k) implies extensions@.contains_key(
                k,
            ) by {
                let j = choose|j: int| 0 <= j < all.len() && all[j].0@ == k;
            }
            assert(extensions@ =~= extensions_decoded(members));
        }
        Ok(
            HttpApiProblem {
                type_url,
                status,
                title,
                detail,
                instance,
                additional_fields: extensions,
            },
        )
    }
    /// A problem with only its status set.
    pub fn new(status: StatusCode) -> (r: HttpApiProblem)
        ensures
            r@ == (ProblemView { status: Some(status@), ..empty_problem() }),
    {
        Self::empty().status(status)
    }

    /// As `new`, for a numeral that may be no valid status code.
    pub fn try_new(status: u16) -> (r: Result<HttpApiProblem, InvalidStatusCode>)
        ensures
            r is Ok <==> valid_status(status as int),
            r matches Ok(p) ==> p@ == (ProblemView { status: Some(status), ..empty_problem() }),
            r matches Err(e) ==> e.code == status,
    {
        match StatusCode::from_u16(status) {
            Ok(s) => Ok(Self::new(s)),
            Err(e) => Err(e),
        }
    }

    /// A problem with its status, and as title the status's reason phrase
    /// (or `<unknown status code>`).
    pub fn with_title(status: StatusCode) -> (r: HttpApiProblem)
        ensures
            r@ == (ProblemView {
                status: Some(status@),
                title: Some(reason_or_unknown(status@)),
                ..empty_problem()
            }),
    {
        let title = status.reason_or_unknown();
        let mut p = Self::new(status);
        p.title = Some(title);
        p
    }

    /// As `with_title`, for a numeral that may be no valid status code.
    pub fn try_with_title(status: u16) -> (r: Result<HttpApiProblem, InvalidStatusCode>)
        ensures
            r is Ok <==> valid_status(status as int),
            r matches Ok(p) ==> p@ == (ProblemView {
                status: Some(status),
                title: Some(reason_or_unknown(status)),
                ..empty_problem()
            }),
            r matches Err(e) ==> e.code == status,
    {
        match StatusCode::from_u16(status) {
            Ok(s) => Ok(Self::with_title(s)),
            Err(e) => Err(e),
        }
    }

    /// As `with_title`, and with the type URL
    /// `https://httpstatuses.com/<code>`.
    pub fn with_title_and_type(status: StatusCode) -> (r: HttpApiProblem)
        ensures
            r@ == (ProblemView {
                type_url: Some(status_type_url(status@)),
                status: Some(status@),
                title: Some(reason_or_unknown(status@)),
                ..empty_problem()
            }),
    {
        let mut url = String::from_str(STATUS_TYPE_URL_PREFIX);
        let digits = status.digits();
        url.append(digits.as_str());
        let mut p = Self::with_title(status);
        p.type_url = Some(url);
        p
    }

    /// As `with_title_and_type`, for a numeral that may be no valid status
    /// code.
    pub fn try_with_title_and_type(status: u16) -> (r: Result<HttpApiProblem, InvalidStatusCode>)
        ensures
            r is Ok <==> valid_status(status as int),
            r matches Ok(p) ==> p@ == (ProblemView {
                type_url: Some(status_type_url(status)),
                status: Some(status),
                title: Some(reason_or_unknown(status)),
                ..empty_problem()
            }),
            r matches Err(e) ==> e.code == status,
    {
        match StatusCode::from_u16(status) {
            Ok(s) => Ok(Self::with_title_and_type(s)),
            Err(e) => Err(e),
        }
    }

    /// Sets the status.
    pub fn status(self, status: StatusCode) -> (r: HttpApiProblem)
        ensures
            r@ == (ProblemView { status: Some(status@), ..self@ }),
    {
        let mut p = self;
        p.status = Some(status);
        p
    }

    /// Sets the type URL.
    pub fn type_url(self, type_url: &str) -> (r: HttpApiProblem)
        ensures
            r@ == (ProblemView { type_url: Some(type_url@), ..self@ }),
    {
        let mut p = self;
        p.type_url = Some(String::from_str(type_url));
        p
    }

    /// Sets the status from a numeral, or fails where it is no valid status
    /// code.
    pub fn try_status(self, status: u16) -> (r: Result<HttpApiProblem, InvalidStatusCode>)
        ensures
            r is Ok <==> valid_status(status as int),
            r matches Ok(p) ==> p@ == (ProblemView { status: Some(status), ..self@ }),
            r matches Err(e) ==> e.code == status,
    {
        match StatusCode::from_u16(status) {
            Ok(s) => Ok(self.status(s)),
            Err(e) => Err(e),
        }
    }

    /// Sets the title.
    pub fn title(self, title: &str) -> (r: HttpApiProblem)
        ensures
            r@ == (ProblemView { title: Some(title@), ..self@ }),
    {
        let mut p = self;
        p.title = Some(String::from_str(title));
        p
    }

    /// Sets the detail.
    pub fn detail(self, detail: &str) -> (r: HttpApiProblem)
        ensures
            r@ == (ProblemView { detail: Some(detail@), ..self@ }),
    {
        let mut p = self;
        p.detail = Some(String::from_str(detail));
        p
    }

    /// Sets the instance.
    pub fn instance(self, instance: &str) -> (r: HttpApiProblem)
        ensures
            r@ == (ProblemView { instance: Some(instance@), ..self@ }),
    {
        let mut p = self;
        p.instance = Some(String::from_str(instance));
        p
    }

    /// Sets the extension `key` to `value`, or fails where `key` is reserved.
    pub fn try_value(self, key: &str, value: Value) -> (r: Result<HttpApiProblem, String>)
        ensures
            is_reserved_key(key@) ==> (r matches Err(e) && e@ == reserved_message(key@)),
            !is_reserved_key(key@) ==> (r matches Ok(p) && p@ == with_extension(self@, key@, value)),
    {
        let mut p = self;
        match p.try_set_value(key, value) {
            Ok(()) => Ok(p),
            Err(e) => Err(e),
        }
    }

    /// Sets the extension `key` to `value`; does nothing where `key` is
    /// reserved.
    pub fn value(self, key: &str, value: Value) -> (r: HttpApiProblem)
        ensures
            r@ == value_set(self@, key@, value),
    {
        let mut p = self;
        p.set_value(key, value);
        p
    }

    /// Sets the extension `key` to `value`; does nothing where `key` is
    /// reserved.
    pub fn set_value(&mut self, key: &str, value: Value)
        ensures
            final(self)@ == value_set(old(self)@, key@, value),
    {
        let _ = self.try_set_value(key, value);
    }

    /// Sets the extension `key` to `value`, or fails where `key` is reserved
    /// and leaves the problem as it was.
    pub fn try_set_value(&mut self, key: &str, value: Value) -> (r: Result<(), String>)
        ensures
            is_reserved_key(key@) ==> (r matches Err(e) && e@ == reserved_message(key@)),
            !is_reserved_key(key@) ==> r is Ok,
            final(self)@ == value_set(old(self)@, key@, value),
    {
        if reserved_key(key) {
            let mut e = String::from_str("'");
            e.append(key);
            e.append("' is a reserved field name");
            return Err(e);
        }
        self.additional_fields.insert(String::from_str(key), value);
        Ok(())
    }

    /// The names of all extensions, each once, in no particular order.
    pub fn keys(&self) -> (r: Vec<String>)
        ensures
            forall|i: int| 0 <= i < r@.len() ==> #[trigger] self@.extensions.contains_key(r@[i]@),
            forall|i: int, j: int|
                0 <= i < r@.len() && 0 <= j < r@.len() && i != j ==> r@[i]@ != r@[j]@,
            forall|k: Seq<char>|
                #[trigger] self@.extensions.contains_key(k) ==> exists|i: int|
                    0 <= i < r@.len() && r@[i]@ == k,
            self@.wf(),
    {
        if let Some(s) = &self.status {
            proof {
                use_type_invariant(s);
            }
        }
        self.additional_fields.keys()
    }

    /// The JSON value of the extension `key`, if there is one.
    pub fn json_value(&self, key: &str) -> (r: Option<&Value>)
        ensures
            r is Some <==> self@.extensions.contains_key(key@),
            r matches Some(v) ==> self@.extensions[key@] == *v,
            self@.wf(),
    {
        if let Some(s) = &self.status {
            proof {
                use_type_invariant(s);
            }
        }
        self.additional_fields.get(key)
    }

    /// The problem as JSON text, in bytes.
    pub fn json_bytes(&self) -> (r: Result<Vec<u8>, EncodeError>)
        ensures
            r is Ok,
            r matches Ok(b) ==> exists|m: Map<Seq<char>, Value>|
                #[trigger] encodes(self@, m) && b@ == object_bytes(m),
    {
        let m = self.json_object();
        match object_to_vec(&m) {
            Some(b) => {
                assert(encodes(self@, json_members(m)));
                Ok(b)
            },
            None => Err(EncodeError {  }),
        }
    }

    /// The problem as JSON text.
    pub fn json_string(&self) -> (r: Result<String, EncodeError>)
        ensures
            r is Ok,
            r matches Ok(s) ==> exists|m: Map<Seq<char>, Value>|
                #[trigger] encodes(self@, m) && s@ == object_text(m),
    {
        let m = self.json_object();
        match object_to_string(&m) {
            Some(s) => {
                assert(encodes(self@, json_members(m)));
                Ok(s)
            },
            None => Err(EncodeError {  }),
        }
    }

    /// The problem that JSON text holds; see `from_json_object`.
    pub fn from_json_bytes(b: &[u8]) -> (r: Result<HttpApiProblem, DecodeError>)
        ensures
            result_view(r) == decode_bytes(b@),
    {
        match parse_object(b) {
            Some(m) => Self::from_json_object(m),
            None => Err(DecodeError::InvalidJson),
        }
    }

    /// The status to send: the problem's own, else 500.
    pub fn status_or_internal_server_error(&self) -> (r: StatusCode)
        ensures
            r@ == self@.effective_status(),
    {
        match self.status {
            Some(s) => s,
            None => StatusCode::internal_server_error(),
        }
    }

    /// The number of the status to send: the problem's own, else 500.
    pub fn status_code_or_internal_server_error(&self) -> (r: u16)
        ensures
            r == self@.effective_status(),
    {
        self.status_or_internal_server_error().as_u16()
    }

    /// The one-line text of the problem, as in
    /// `404 Not Found - Not Found - no such user`.
    pub fn to_string(&self) -> (r: String)
        ensures
            r@ == self@.display_text(),
    {
        let mut r = match &self.status {
            Some(s) => s.to_string(),
            None => String::from_str("<no status>"),
        };
        if let Some(t) = &self.title {
            r.append(" - ");
            r.append(t.as_str());
            if let Some(d) = &self.detail {
                r.append(" - ");
                r.append(d.as_str());
            }
        } else if let Some(d) = &self.detail {
            r.append(" - ");
            r.append(d.as_str());
        } else if let Some(u) = &self.type_url {
            r.append(" - ");
            r.append(u.as_str());
        }
        r
    }

    /// Same as `with_title`.
    pub fn with_title_from_status(status: StatusCode) -> (r: HttpApiProblem)
        ensures
            r@ == (ProblemView {
                status: Some(status@),
                title: Some(reason_or_unknown(status@)),
                ..empty_problem()
            }),
    {
        Self::with_title(status)
    }

    /// Same as `with_title_and_type`.
    pub fn with_title_and_type_from_status(status: StatusCode) -> (r: HttpApiProblem)
        ensures
            r@ == (ProblemView {
                type_url: Some(status_type_url(status@)),
                status: Some(status@),
                title: Some(reason_or_unknown(status@)),
                ..empty_problem()
            }),
    {
        Self::with_title_and_type(status)
    }

    /// Same as `status`.
    pub fn set_status(self, status: StatusCode) -> (r: HttpApiProblem)
        ensures
            r@ == (ProblemView { status: Some(status@), ..self@ }),
    {
        self.status(status)
    }

    /// Same as `title`.
    pub fn set_title(self, title: &str) -> (r: HttpApiProblem)
        ensures
            r@ == (ProblemView { title: Some(title@), ..self@ }),
    {
        self.title(title)
    }

    /// Same as `detail`.
    pub fn set_detail(self, detail: &str) -> (r: HttpApiProblem)
        ensures
            r@ == (ProblemView { detail: Some(detail@), ..self@ }),
    {
        self.detail(detail)
    }

    /// Same as `type_url`.
    pub fn set_type_url(self, type_url: &str) -> (r: HttpApiProblem)
        ensures
            r@ == (ProblemView { type_url: Some(type_url@), ..self@ }),
    {
        self.type_url(type_url)
    }

    /// Same as `instance`.
    pub fn set_instance(self, instance: &str) -> (r: HttpApiProblem)
        ensures
            r@ == (ProblemView { instance: Some(instance@), ..self@ }),
    {
        self.instance(instance)
    }
}


impl From<StatusCode> for HttpApiProblem {
    /// Same as `new`.
    fn from(status: StatusCode) -> (r: HttpApiProblem)
        ensures
            r@ == (ProblemView { status: Some(status@), ..empty_problem() }),
    {
        HttpApiProblem::new(status)
    }
}

// A problem holds a JSON object, which has no value in spec code; what `from`
// returns is stated by its own `ensures` instead.
impl vstd::std_specs::convert::FromSpecImpl<StatusCode> for HttpApiProblem {
    open spec fn obeys_from_spec() -> bool {
        false
    }

    open spec fn from_spec(v: StatusCode) -> HttpApiProblem {
        arbitrary()
    }
}

} // verus!
