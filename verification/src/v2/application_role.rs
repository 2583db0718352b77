//! Application roles: what the server says of one, and the requests that
//! read and update them.

use crate::client::{request_of, Client, ClientView};
use crate::credentials::config_fault;
use crate::errors::{DecodeCause, Error, ErrorView};
use crate::json::{bool_field, count_field, json_quoted, quoted, text_field, texts_field, Json, JsonView};
use crate::params::{
    has_key, key_index, lemma_key_index_bounds, lemma_key_index_is, lookup, put, Pairs, Params,
};
use crate::request::{text_view, Method, Request};
use crate::response::{classify, document_of, failure_of, finish, Outcome, Resp};
use crate::text::{bool_text, bool_word, decimal, decimal_text, join, joined};
use vstd::prelude::*;
use vstd::string::*;

verus! {

/// What an update may be made conditional on.
pub struct ApplicationRoleOptions {
    /// The version hash that the server must still hold for the update to be
    /// taken. Left unset, the update is unconditional.
    pub if_match: Option<String>,
}

/// The version hash of the options, where options are given and hold one.
pub open spec fn token_of(options: Option<ApplicationRoleOptions>) -> Option<Seq<char>> {
    match options {
        Some(o) => text_view(o.if_match),
        None => None,
    }
}

/// `client` with the header `If-Match` set to the token, where there is one.
pub open spec fn with_token(client: ClientView, token: Option<Seq<char>>) -> ClientView {
    match token {
        Some(t) => ClientView { headers: put(client.headers, "If-Match"@, t), ..client },
        None => client,
    }
}

impl ApplicationRoleOptions {
    /// The headers that the options ask for: `If-Match` where the version
    /// hash is set, and nothing else.
    pub open spec fn pairs(self) -> Pairs {
        match self.if_match {
            Some(t) => seq![("If-Match"@, t@)],
            None => Seq::empty(),
        }
    }

    /// The headers that the options ask for.
    pub fn to_headers(&self) -> (res: Params)
        ensures
            res@ == self.pairs(),
    {
        let mut res = Params::new();
        match &self.if_match {
            Some(t) => {
                res.insert(String::from_str("If-Match"), t.clone());
                assert(res@ =~= self.pairs());
            },
            None => {},
        }
        res
    }
}

/// `If-Match` is among the headers of the options exactly where the version
/// hash is set, and it then holds the hash; no other header is ever there.
pub proof fn lemma_option_headers_names(options: ApplicationRoleOptions, name: Seq<char>)
    ensures
        options.if_match is None ==> options.pairs().len() == 0,
        has_key(options.pairs(), name) <==> name == "If-Match"@ && options.if_match is Some,
        options.if_match matches Some(t) ==> lookup(options.pairs(), "If-Match"@) == Some(t@),
{
    let pairs = options.pairs();
    lemma_key_index_bounds(pairs, name);
    if options.if_match is Some {
        lemma_key_index_is(pairs, "If-Match"@, 0);
        if has_key(pairs, name) {
            assert(pairs[key_index(pairs, name)].0 == name);
        }
    }
}

/// Any two header lists that are built from the same options are the same:
/// nothing but the version hash goes into them.
pub proof fn lemma_option_headers_twice(
    options: ApplicationRoleOptions,
    first: Pairs,
    second: Pairs,
)
    requires
        first == options.pairs(),
        second == options.pairs(),
    ensures
        first == second,
{
}

/// An application role as the server describes it. What only the server
/// sets can be read and not written.
pub struct ApplicationRole {
    key: String,
    name: String,
    /// The groups that have the role.
    pub groups: Vec<String>,
    /// The groups that get the role by default.
    pub default_groups: Vec<String>,
    selected_by_default: bool,
    defined: bool,
    number_of_seats: usize,
    remaining_seats: usize,
    user_count: usize,
    user_count_description: String,
    has_unlimited_seats: bool,
    platform: bool,
}

/// The mathematical model of an `ApplicationRole`.
pub struct ApplicationRoleView {
    pub key: Seq<char>,
    pub name: Seq<char>,
    pub groups: Seq<Seq<char>>,
    pub default_groups: Seq<Seq<char>>,
    pub selected_by_default: bool,
    pub defined: bool,
    pub number_of_seats: usize,
    pub remaining_seats: usize,
    pub user_count: usize,
    pub user_count_description: Seq<char>,
    pub has_unlimited_seats: bool,
    pub platform: bool,
}

impl View for ApplicationRole {
    type V = ApplicationRoleView;

    closed spec fn view(&self) -> ApplicationRoleView {
        ApplicationRoleView {
            key: self.key@,
            name: self.name@,
            groups: self.groups@.map_values(|g: String| g@),
            default_groups: self.default_groups@.map_values(|g: String| g@),
            selected_by_default: self.selected_by_default,
            defined: self.defined,
            number_of_seats: self.number_of_seats,
            remaining_seats: self.remaining_seats,
            user_count: self.user_count,
            user_count_description: self.user_count_description@,
            has_unlimited_seats: self.has_unlimited_seats,
            platform: self.platform,
        }
    }
}

/// The role that a document describes: the document is an object, and each
/// member that is there has the type of its field. A member that is not
/// there leaves its field empty, false or zero.
pub open spec fn role_in(document: JsonView) -> Option<ApplicationRoleView> {
    if document is Object && text_field(document, "key"@) is Some && text_field(
        document,
        "name"@,
    ) is Some && texts_field(document, "groups"@) is Some && texts_field(
        document,
        "defaultGroups"@,
    ) is Some && bool_field(document, "selectedByDefault"@) is Some && bool_field(
        document,
        "defined"@,
    ) is Some && count_field(document, "numberOfSeats"@) is Some && count_field(
        document,
        "remainingSeats"@,
    ) is Some && count_field(document, "userCount"@) is Some && text_field(
        document,
        "userCountDescription"@,
    ) is Some && bool_field(document, "hasUnlimitedSeats"@) is Some && bool_field(
        document,
        "platform"@,
    ) is Some {
        Some(
            ApplicationRoleView {
                key: text_field(document, "key"@).unwrap(),
                name: text_field(document, "name"@).unwrap(),
                groups: texts_field(document, "groups"@).unwrap(),
                default_groups: texts_field(document, "defaultGroups"@).unwrap(),
                selected_by_default: bool_field(document, "selectedByDefault"@).unwrap(),
                defined: bool_field(document, "defined"@).unwrap(),
                number_of_seats: count_field(document, "numberOfSeats"@).unwrap(),
                remaining_seats: count_field(document, "remainingSeats"@).unwrap(),
                user_count: count_field(document, "userCount"@).unwrap(),
                user_count_description: text_field(document, "userCountDescription"@).unwrap(),
                has_unlimited_seats: bool_field(document, "hasUnlimitedSeats"@).unwrap(),
                platform: bool_field(document, "platform"@).unwrap(),
            },
        )
    } else {
        None
    }
}

/// The roles that a document lists: the document is an array, and each item
/// describes a role.
pub open spec fn roles_in(document: JsonView) -> Option<Seq<ApplicationRoleView>> {
    match document {
        JsonView::Array(items) => {
            if forall|i: int| 0 <= i < items.len() ==> role_in(#[trigger] items[i]) is Some {
                Some(Seq::new(items.len(), |i: int| role_in(items[i]).unwrap()))
            } else {
                None
            }
        },
        _ => None,
    }
}

/// The JSON text of a list of texts.
pub open spec fn texts_body(texts: Seq<Seq<char>>) -> Seq<char> {
    "["@ + joined(texts.map_values(|t: Seq<char>| json_quoted(t)), ","@) + "]"@
}

/// The JSON text of a role: an object with one member for each field, in the
/// order of the fields.
pub open spec fn role_body(role: ApplicationRoleView) -> Seq<char> {
    "{\"key\":"@ + json_quoted(role.key) + ",\"name\":"@ + json_quoted(role.name)
        + ",\"groups\":"@ + texts_body(role.groups) + ",\"defaultGroups\":"@ + texts_body(
        role.default_groups,
    ) + ",\"selectedByDefault\":"@ + bool_word(role.selected_by_default) + ",\"defined\":"@
        + bool_word(role.defined) + ",\"numberOfSeats\":"@ + decimal(role.number_of_seats as nat)
        + ",\"remainingSeats\":"@ + decimal(role.remaining_seats as nat) + ",\"userCount\":"@
        + decimal(role.user_count as nat) + ",\"userCountDescription\":"@ + json_quoted(
        role.user_count_description,
    ) + ",\"hasUnlimitedSeats\":"@ + bool_word(role.has_unlimited_seats) + ",\"platform\":"@
        + bool_word(role.platform) + "}"@
}

/// The JSON text of a list of roles.
pub open spec fn roles_body(roles: Seq<ApplicationRoleView>) -> Seq<char> {
    "["@ + joined(roles.map_values(|r: ApplicationRoleView| role_body(r)), ","@) + "]"@
}

/// The path of the role with the key `key`.
pub open spec fn role_path(key: Seq<char>) -> Seq<char> {
    "applicationrole/"@ + key
}

/// Writes a list of texts as a JSON array.
fn texts_to_body(texts: &Vec<String>) -> (res: String)
    ensures
        res@ == texts_body(texts@.map_values(|t: String| t@)),
{
    let ghost plain = texts@.map_values(|t: String| t@);
    let mut literals: Vec<String> = Vec::new();
    let mut i: usize = 0;
    while i < texts.len()
        invariant
            i <= texts.len(),
            literals.len() == i,
            forall|j: int| 0 <= j < i ==> (#[trigger] literals[j])@ == json_quoted(texts[j]@),
        decreases texts.len() - i,
    {
        literals.push(quoted(texts[i].as_str()));
        i += 1;
    }
    assert(literals@.map_values(|t: String| t@) =~= plain.map_values(
        |t: Seq<char>| json_quoted(t),
    ));
    let mut res = String::from_str("[");
    let inner = join(&literals, ",");
    res.append(inner.as_str());
    res.append("]");
    res
}

impl ApplicationRole {
    /// The identifier of the role.
    pub fn key(&self) -> (res: &String)
        ensures
            res@ == self@.key,
    {
        &self.key
    }

    /// The name of the role.
    pub fn name(&self) -> (res: &String)
        ensures
            res@ == self@.name,
    {
        &self.name
    }

    /// Whether the role is selected by default.
    pub fn selected_by_default(&self) -> (res: bool)
        ensures
            res == self@.selected_by_default,
    {
        self.selected_by_default
    }

    /// Whether the role is defined.
    pub fn defined(&self) -> (res: bool)
        ensures
            res == self@.defined,
    {
        self.defined
    }

    /// The number of seats.
    pub fn number_of_seats(&self) -> (res: usize)
        ensures
            res == self@.number_of_seats,
    {
        self.number_of_seats
    }

    /// The number of seats that are left.
    pub fn remaining_seats(&self) -> (res: usize)
        ensures
            res == self@.remaining_seats,
    {
        self.remaining_seats
    }

    /// The number of users.
    pub fn user_count(&self) -> (res: usize)
        ensures
            res == self@.user_count,
    {
        self.user_count
    }

    /// The number of users, in words.
    pub fn user_count_description(&self) -> (res: &String)
        ensures
            res@ == self@.user_count_description,
    {
        &self.user_count_description
    }

    /// Whether the number of seats is unlimited.
    pub fn has_unlimited_seats(&self) -> (res: bool)
        ensures
            res == self@.has_unlimited_seats,
    {
        self.has_unlimited_seats
    }

    /// Whether the role belongs to the platform.
    pub fn platform(&self) -> (res: bool)
        ensures
            res == self@.platform,
    {
        self.platform
    }

    /// Reads a role from a document.
    pub fn from_json(document: &Json) -> (res: Option<ApplicationRole>)
        ensures
            match res {
                Some(role) => role_in(document@) == Some(role@),
                None => role_in(document@) is None,
            },
    {
        if document.as_members().is_none() {
            return None;
        }
        let key = match document.read_text("key") {
            Some(v) => v,
            None => {
                return None;
            },
        };
        let name = match document.read_text("name") {
            Some(v) => v,
            None => {
                return None;
            },
        };
        let groups = match document.read_texts("groups") {
            Some(v) => v,
            None => {
                return None;
            },
        };
        let default_groups = match document.read_texts("defaultGroups") {
            Some(v) => v,
            None => {
                return None;
            },
        };
        let selected_by_default = match document.read_bool("selectedByDefault") {
            Some(v) => v,
            None => {
                return None;
            },
        };
        let defined = match document.read_bool("defined") {
            Some(v) => v,
            None => {
                return None;
            },
        };
        let number_of_seats = match document.read_count("numberOfSeats") {
            Some(v) => v,
            None => {
                return None;
            },
        };
        let remaining_seats = match document.read_count("remainingSeats") {
            Some(v) => v,
            None => {
                return None;
            },
        };
        let user_count = match document.read_count("userCount") {
            Some(v) => v,
            None => {
                return None;
            },
        };
        let user_count_description = match document.read_text("userCountDescription") {
            Some(v) => v,
            None => {
                return None;
            },
        };
        let has_unlimited_seats = match document.read_bool("hasUnlimitedSeats") {
            Some(v) => v,
            None => {
                return None;
            },
        };
        let platform = match document.read_bool("platform") {
            Some(v) => v,
            None => {
                return None;
            },
        };
        Some(
            ApplicationRole {
                key,
                name,
                groups,
                default_groups,
                selected_by_default,
                defined,
                number_of_seats,
                remaining_seats,
                user_count,
                user_count_description,
                has_unlimited_seats,
                platform,
            },
        )
    }

    /// Reads a list of roles from a document.
    pub fn list_from_json(document: &Json) -> (res: Option<Vec<ApplicationRole>>)
        ensures
            match res {
                Some(roles) => roles_in(document@) == Some(
                    roles@.map_values(|r: ApplicationRole| r@),
                ),
                None => roles_in(document@) is None,
            },
    {
        let items = match document.as_items() {
            Some(items) => items,
            None => {
                return None;
            },
        };
        let ghost models = items@.map_values(|item: Json| item@);
        let mut roles: Vec<ApplicationRole> = Vec::new();
        let mut i: usize = 0;
        while i < items.len()
            invariant
                i <= items.len(),
                roles.len() == i,
                models == items@.map_values(|item: Json| item@),
                document@ == JsonView::Array(models),
                forall|j: int| 0 <= j < i ==> role_in(#[trigger] models[j]) == Some(roles[j]@),
            decreases items.len() - i,
        {
            match ApplicationRole::from_json(&items[i]) {
                Some(role) => {
                    roles.push(role);
                },
                None => {
                    assert(role_in(models[i as int]) is None);
                    return None;
                },
            }
            i += 1;
        }
        assert(roles@.map_values(|r: ApplicationRole| r@) =~= roles_in(document@).unwrap());
        Some(roles)
    }

    /// Writes the role as a JSON text.
    pub fn to_body(&self) -> (res: String)
        ensures
            res@ == role_body(self@),
    {
        let mut res = String::from_str("{\"key\":");
        res.append(quoted(self.key.as_str()).as_str());
        res.append(",\"name\":");
        res.append(quoted(self.name.as_str()).as_str());
        res.append(",\"groups\":");
        res.append(texts_to_body(&self.groups).as_str());
        res.append(",\"defaultGroups\":");
        res.append(texts_to_body(&self.default_groups).as_str());
        res.append(",\"selectedByDefault\":");
        res.append(bool_text(self.selected_by_default).as_str());
        res.append(",\"defined\":");
        res.append(bool_text(self.defined).as_str());
        res.append(",\"numberOfSeats\":");
        res.append(decimal_text(self.number_of_seats as u64).as_str());
        res.append(",\"remainingSeats\":");
        res.append(decimal_text(self.remaining_seats as u64).as_str());
        res.append(",\"userCount\":");
        res.append(decimal_text(self.user_count as u64).as_str());
        res.append(",\"userCountDescription\":");
        res.append(quoted(self.user_count_description.as_str()).as_str());
        res.append(",\"hasUnlimitedSeats\":");
        res.append(bool_text(self.has_unlimited_seats).as_str());
        res.append(",\"platform\":");
        res.append(bool_text(self.platform).as_str());
        res.append("}");
        res
    }

    /// Writes a list of roles as a JSON text.
    pub fn list_to_body(roles: &Vec<ApplicationRole>) -> (res: String)
        ensures
            res@ == roles_body(roles@.map_values(|r: ApplicationRole| r@)),
    {
        let ghost models = roles@.map_values(|r: ApplicationRole| r@);
        let mut bodies: Vec<String> = Vec::new();
        let mut i: usize = 0;
        while i < roles.len()
            invariant
                i <= roles.len(),
                bodies.len() == i,
                forall|j: int| 0 <= j < i ==> (#[trigger] bodies[j])@ == role_body(roles[j]@),
            decreases roles.len() - i,
        {
            bodies.push(roles[i].to_body());
            i += 1;
        }
        assert(bodies@.map_values(|t: String| t@) =~= models.map_values(
            |r: ApplicationRoleView| role_body(r),
        ));
        let mut res = String::from_str("[");
        let inner = join(&bodies, ",");
        res.append(inner.as_str());
        res.append("]");
        res
    }

    /// The request that fetches the role with the key `key`.
    pub fn from_key(c: &Client, key: &str) -> (res: Result<Request, Error>)
        ensures
            match res {
                Ok(r) => config_fault(c@.credentials) is None && r@ == request_of(
                    c@,
                    Method::Get,
                    "api"@,
                    "2"@,
                    role_path(key@),
                    Seq::empty(),
                    Seq::empty(),
                    None,
                ),
                Err(e) => config_fault(c@.credentials) matches Some(fault) && e@ == (
                ErrorView::Configuration { fault }),
            },
    {
        let mut path = String::from_str("applicationrole/");
        path.append(key);
        c.get("api", "2", path.as_str(), None, None)
    }

    /// The request that fetches all roles.
    pub fn all(c: &Client) -> (res: Result<Request, Error>)
        ensures
            match res {
                Ok(r) => config_fault(c@.credentials) is None && r@ == request_of(
                    c@,
                    Method::Get,
                    "api"@,
                    "2"@,
                    "applicationrole"@,
                    Seq::empty(),
                    Seq::empty(),
                    None,
                ),
                Err(e) => config_fault(c@.credentials) matches Some(fault) && e@ == (
                ErrorView::Configuration { fault }),
            },
    {
        c.get("api", "2", "applicationrole", None, None)
    }

    /// The request that updates the roles `a` in one call. Where the options
    /// hold a version hash, a copy of the client carries it as `If-Match`;
    /// the client that was given stays as it is.
    pub fn update_bulk(c: &Client, a: Vec<ApplicationRole>, o: Option<ApplicationRoleOptions>) -> (res:
        Result<Request, Error>)
        ensures
            match res {
                Ok(r) => config_fault(c@.credentials) is None && r@ == request_of(
                    with_token(c@, token_of(o)),
                    Method::Put,
                    "api"@,
                    "2"@,
                    "applicationrole"@,
                    Seq::empty(),
                    Seq::empty(),
                    Some(roles_body(a@.map_values(|r: ApplicationRole| r@))),
                ),
                Err(e) => config_fault(c@.credentials) matches Some(fault) && e@ == (
                ErrorView::Configuration { fault }),
            },
    {
        let mut c = c.clone();
        match o {
            Some(o) => match o.if_match {
                Some(token) => {
                    c = c.add_header("If-Match", token);
                },
                None => {},
            },
            None => {},
        }
        c.put("api", "2", "applicationrole", None, None, ApplicationRole::list_to_body(&a))
    }

    /// The request that updates this role on the server. Where the options
    /// hold a version hash, a copy of the client carries it as `If-Match`;
    /// the client that was given stays as it is.
    pub fn update(&self, c: &Client, o: Option<ApplicationRoleOptions>) -> (res: Result<
        Request,
        Error,
    >)
        ensures
            match res {
                Ok(r) => config_fault(c@.credentials) is None && r@ == request_of(
                    with_token(c@, token_of(o)),
                    Method::Put,
                    "api"@,
                    "2"@,
                    role_path(self@.key),
                    Seq::empty(),
                    Seq::empty(),
                    Some(role_body(self@)),
                ),
                Err(e) => config_fault(c@.credentials) matches Some(fault) && e@ == (
                ErrorView::Configuration { fault }),
            },
    {
        let mut c = c.clone();
        let mut path = String::from_str("applicationrole/");
        path.append(self.key.as_str());
        match o {
            Some(o) => match o.if_match {
                Some(token) => {
                    c = c.add_header("If-Match", token);
                },
                None => {},
            },
            None => {},
        }
        c.put("api", "2", path.as_str(), None, None, self.to_body())
    }

    /// Reads the answer to a request for one role.
    pub fn read(outcome: Outcome) -> (res: Result<Resp<ApplicationRole>, Error>)
        ensures
            match failure_of(outcome) {
                Some(failure) => res matches Err(e) && e@ == failure,
                None => match role_in(document_of(outcome)) {
                    Some(role) => res matches Ok(r) && r.data@ == role && r.headers
                        == outcome->headers,
                    None => res matches Err(e) && e@ == (ErrorView::Decode {
                        raw_body: outcome->body@,
                        cause: DecodeCause::Shape,
                    }),
                },
            },
    {
        match classify(outcome) {
            Ok(answer) => finish(
                ApplicationRole::from_json(&answer.document),
                answer.headers,
                answer.raw_body,
            ),
            Err(e) => Err(e),
        }
    }

    /// Reads the answer to a request for a list of roles.
    pub fn read_list(outcome: Outcome) -> (res: Result<Resp<Vec<ApplicationRole>>, Error>)
        ensures
            match failure_of(outcome) {
                Some(failure) => res matches Err(e) && e@ == failure,
                None => match roles_in(document_of(outcome)) {
                    Some(roles) => res matches Ok(r) && r.data@.map_values(
                        |role: ApplicationRole| role@,
                    ) == roles && r.headers == outcome->headers,
                    None => res matches Err(e) && e@ == (ErrorView::Decode {
                        raw_body: outcome->body@,
                        cause: DecodeCause::Shape,
                    }),
                },
            },
    {
        match classify(outcome) {
            Ok(answer) => finish(
                ApplicationRole::list_from_json(&answer.document),
                answer.headers,
                answer.raw_body,
            ),
            Err(e) => Err(e),
        }
    }
}

} // verus!
