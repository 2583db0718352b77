//! Users: the requests that find them, and what the server says of one.

use crate::v2::application_role::{roles_in, ApplicationRole};
use crate::client::{request_of, Client};
use crate::credentials::config_fault;
use crate::errors::{DecodeCause, Error, ErrorView};
use crate::json::{bool_field, text_field, Json, JsonView};
use crate::params::{merged, Pairs, Params};
use crate::request::{Method, Request};
use crate::response::{classify, document_of, failure_of, finish, Outcome, Resp};
use crate::text::{
    bool_text, bool_word, decimal, decimal_text, free_of, join, joined, lemma_joined_ends,
    lemma_split_joined, split,
};
use vstd::prelude::*;
use vstd::string::*;

verus! {

/// What a request for a user can ask the server to add to its answer.
#[derive(Clone, Copy, Debug, PartialEq, Eq, Structural)]
pub enum Expand {
    Groups,
    ApplicationRoles,
}

impl Expand {
    /// The name of the token on the wire.
    pub open spec fn wire(self) -> Seq<char> {
        match self {
            Expand::Groups => "groups"@,
            Expand::ApplicationRoles => "applicationRoles"@,
        }
    }

    /// The name of the token on the wire.
    pub fn to_string(&self) -> (res: &str)
        ensures
            res@ == self.wire(),
    {
        match &self {
            Expand::Groups => "groups",
            Expand::ApplicationRoles => "applicationRoles",
        }
    }
}

/// The names of the tokens, in the order of the tokens.
pub open spec fn wire_names(tokens: Seq<Expand>) -> Seq<Seq<char>> {
    tokens.map_values(|e: Expand| e.wire())
}

/// The value of the `expand` parameter: the names of the tokens in their
/// order, with a comma between each two.
pub open spec fn expand_value(tokens: Seq<Expand>) -> Seq<char> {
    joined(wire_names(tokens), ","@)
}

/// The query parameters that a list of tokens asks for: `expand` with the
/// joined names, and nothing at all for an empty list.
pub open spec fn expand_pairs(tokens: Seq<Expand>) -> Pairs {
    if tokens.len() == 0 {
        Seq::empty()
    } else {
        seq![("expand"@, expand_value(tokens))]
    }
}

/// The pair of `name` and `value` where the value is set, and nothing where
/// it is not.
pub open spec fn optional_pair(name: Seq<char>, value: Option<Seq<char>>) -> Pairs {
    match value {
        Some(v) => seq![(name, v)],
        None => Seq::empty(),
    }
}

/// The word for a truth value that may be unset.
pub open spec fn optional_word(value: Option<bool>) -> Option<Seq<char>> {
    match value {
        Some(b) => Some(bool_word(b)),
        None => None,
    }
}

/// The decimal text of a number that may be unset.
pub open spec fn optional_decimal(value: Option<u64>) -> Option<Seq<char>> {
    match value {
        Some(n) => Some(decimal(n as nat)),
        None => None,
    }
}

/// The name of a token is not empty and holds no comma.
pub proof fn lemma_wire_plain(e: Expand)
    ensures
        e.wire().len() > 0,
        free_of(e.wire(), ','),
{
    reveal_strlit("groups");
    reveal_strlit("applicationRoles");
}

/// Cut at its commas, the value of `expand` gives the name of each token
/// once, in the order of the tokens; and it neither starts nor ends with a
/// comma.
pub proof fn lemma_expand_value_tokens(tokens: Seq<Expand>)
    requires
        tokens.len() > 0,
    ensures
        split(expand_value(tokens), ',') == wire_names(tokens),
        expand_value(tokens).len() > 0,
        expand_value(tokens)[0] != ',',
        expand_value(tokens).last() != ',',
{
    reveal_strlit(",");
    assert(","@ =~= seq![',']);
    let names = wire_names(tokens);
    assert forall|i: int| 0 <= i < names.len() implies free_of(#[trigger] names[i], ',')
        && names[i].len() > 0 by {
        lemma_wire_plain(tokens[i]);
    }
    lemma_split_joined(names, ',');
    lemma_joined_ends(names, ',');
}

/// An empty list of tokens asks for no parameter at all, and any other list
/// for `expand` alone.
pub proof fn lemma_expand_pairs_names(tokens: Seq<Expand>, name: Seq<char>)
    ensures
        tokens.len() == 0 ==> expand_pairs(tokens).len() == 0,
        crate::params::has_key(expand_pairs(tokens), name) <==> tokens.len() > 0 && name
            == "expand"@,
        tokens.len() > 0 ==> crate::params::lookup(expand_pairs(tokens), "expand"@) == Some(
            expand_value(tokens),
        ),
{
    let pairs = expand_pairs(tokens);
    if tokens.len() > 0 {
        if name == "expand"@ {
            crate::params::lemma_key_index_is(pairs, name, 0);
        } else {
            crate::params::lemma_key_index_is(pairs, name, 1);
        }
        crate::params::lemma_key_index_is(pairs, "expand"@, 0);
    }
}

/// Any two parameter lists that are built from one list of tokens are the
/// same: nothing but the tokens goes into them.
pub proof fn lemma_expand_twice(tokens: Seq<Expand>, first: Pairs, second: Pairs)
    requires
        first == expand_pairs(tokens),
        second == expand_pairs(tokens),
    ensures
        first == second,
{
}

/// Whom to list in a search.
pub struct UserOptions {
    /// Whether users that are not active are listed. Left unset, the server
    /// decides.
    pub include_inactive: Option<bool>,
    /// Whether users that are active are listed. Left unset, the server
    /// decides.
    pub include_active: Option<bool>,
}

impl UserOptions {
    /// The query parameters that the options ask for: one for each field
    /// that is set.
    pub open spec fn pairs(self) -> Pairs {
        optional_pair("includeInactive"@, optional_word(self.include_inactive)) + optional_pair(
            "includeActive"@,
            optional_word(self.include_active),
        )
    }

    /// The query parameters that the options ask for.
    pub fn to_query(&self) -> (res: Params)
        ensures
            res@ == self.pairs(),
    {
        proof {
            reveal_strlit("includeInactive");
            reveal_strlit("includeActive");
        }
        let mut res = Params::new();
        match self.include_inactive {
            Some(b) => {
                res.insert(String::from_str("includeInactive"), bool_text(b));
            },
            None => {},
        }
        assert(res@ =~= optional_pair("includeInactive"@, optional_word(self.include_inactive)));
        match self.include_active {
            Some(b) => {
                proof {
                    assert("includeInactive"@.len() == 15);
                    assert("includeActive"@.len() == 13);
                    crate::params::lemma_key_index_is(
                        res@,
                        "includeActive"@,
                        res@.len() as int,
                    );
                }
                res.insert(String::from_str("includeActive"), bool_text(b));
            },
            None => {},
        }
        assert(res@ =~= self.pairs());
        res
    }
}

/// Which part of a listing to return.
pub struct Pagination {
    /// The position of the first result. Left unset, the server decides.
    pub start_at: Option<u64>,
    /// The greatest number of results. Left unset, the server decides.
    pub max_results: Option<u64>,
}

impl Pagination {
    /// The query parameters that the page asks for: one for each field that
    /// is set.
    pub open spec fn pairs(self) -> Pairs {
        optional_pair("startAt"@, optional_decimal(self.start_at)) + optional_pair(
            "maxResults"@,
            optional_decimal(self.max_results),
        )
    }

    /// The query parameters that the page asks for.
    pub fn to_query(&self) -> (res: Params)
        ensures
            res@ == self.pairs(),
    {
        proof {
            reveal_strlit("startAt");
            reveal_strlit("maxResults");
        }
        let mut res = Params::new();
        match self.start_at {
            Some(n) => {
                res.insert(String::from_str("startAt"), decimal_text(n));
            },
            None => {},
        }
        assert(res@ =~= optional_pair("startAt"@, optional_decimal(self.start_at)));
        match self.max_results {
            Some(n) => {
                proof {
                    assert("startAt"@.len() == 7);
                    assert("maxResults"@.len() == 10);
                    crate::params::lemma_key_index_is(res@, "maxResults"@, res@.len() as int);
                }
                res.insert(String::from_str("maxResults"), decimal_text(n));
            },
            None => {},
        }
        assert(res@ =~= self.pairs());
        res
    }
}

/// A parameter is in the query of the options exactly where its field is
/// set, and it then holds the word for the field: with no field set the
/// query is empty.
pub proof fn lemma_options_pairs_names(options: UserOptions, name: Seq<char>)
    ensures
        options.include_inactive is None && options.include_active is None
            ==> options.pairs().len() == 0,
        crate::params::has_key(options.pairs(), name) <==> (name == "includeInactive"@
            && options.include_inactive is Some) || (name == "includeActive"@
            && options.include_active is Some),
        options.include_inactive matches Some(b) ==> crate::params::lookup(
            options.pairs(),
            "includeInactive"@,
        ) == Some(bool_word(b)),
        options.include_active matches Some(b) ==> crate::params::lookup(
            options.pairs(),
            "includeActive"@,
        ) == Some(bool_word(b)),
{
    reveal_strlit("includeInactive");
    reveal_strlit("includeActive");
    assert("includeInactive"@.len() == 15);
    assert("includeActive"@.len() == 13);
    let pairs = options.pairs();
    crate::params::lemma_key_index_bounds(pairs, name);
    crate::params::lemma_key_index_bounds(pairs, "includeInactive"@);
    crate::params::lemma_key_index_bounds(pairs, "includeActive"@);
    if options.include_inactive is Some {
        crate::params::lemma_key_index_is(pairs, "includeInactive"@, 0);
        if options.include_active is Some {
            crate::params::lemma_key_index_is(pairs, "includeActive"@, 1);
        }
    } else if options.include_active is Some {
        crate::params::lemma_key_index_is(pairs, "includeActive"@, 0);
    }
    if crate::params::has_key(pairs, name) {
        let k = crate::params::key_index(pairs, name);
        assert(pairs[k].0 == name);
    }
}

/// A parameter is in the query of the page exactly where its field is set,
/// and it then holds the decimal text of the field: with no field set the
/// query is empty.
pub proof fn lemma_page_pairs_names(page: Pagination, name: Seq<char>)
    ensures
        page.start_at is None && page.max_results is None ==> page.pairs().len() == 0,
        crate::params::has_key(page.pairs(), name) <==> (name == "startAt"@ && page.start_at
            is Some) || (name == "maxResults"@ && page.max_results is Some),
        page.start_at matches Some(n) ==> crate::params::lookup(page.pairs(), "startAt"@)
            == Some(decimal(n as nat)),
        page.max_results matches Some(n) ==> crate::params::lookup(page.pairs(), "maxResults"@)
            == Some(decimal(n as nat)),
{
    reveal_strlit("startAt");
    reveal_strlit("maxResults");
    assert("startAt"@.len() == 7);
    assert("maxResults"@.len() == 10);
    let pairs = page.pairs();
    crate::params::lemma_key_index_bounds(pairs, name);
    crate::params::lemma_key_index_bounds(pairs, "startAt"@);
    crate::params::lemma_key_index_bounds(pairs, "maxResults"@);
    if page.start_at is Some {
        crate::params::lemma_key_index_is(pairs, "startAt"@, 0);
        if page.max_results is Some {
            crate::params::lemma_key_index_is(pairs, "maxResults"@, 1);
        }
    } else if page.max_results is Some {
        crate::params::lemma_key_index_is(pairs, "maxResults"@, 0);
    }
    if crate::params::has_key(pairs, name) {
        let k = crate::params::key_index(pairs, name);
        assert(pairs[k].0 == name);
    }
}

/// Any two queries that are built from one page are the same, and so are
/// any two that are built from the same options: nothing but the fields
/// goes into them.
pub proof fn lemma_queries_twice(
    options: UserOptions,
    page: Pagination,
    first: (Pairs, Pairs),
    second: (Pairs, Pairs),
)
    requires
        first.0 == options.pairs(),
        second.0 == options.pairs(),
        first.1 == page.pairs(),
        second.1 == page.pairs(),
    ensures
        first == second,
{
}

/// The parameters of options that may be absent.
pub open spec fn options_pairs(options: Option<UserOptions>) -> Pairs {
    match options {
        Some(o) => o.pairs(),
        None => Seq::empty(),
    }
}

/// The parameters of a page that may be absent.
pub open spec fn page_pairs(page: Option<Pagination>) -> Pairs {
    match page {
        Some(p) => p.pairs(),
        None => Seq::empty(),
    }
}

/// The query of a search: the name that is looked for, then what the options
/// set, then what the page sets.
pub open spec fn search_query(
    search: Seq<char>,
    options: Option<UserOptions>,
    page: Option<Pagination>,
) -> Pairs {
    merged(merged(seq![("username"@, search)], options_pairs(options)), page_pairs(page))
}

/// The query that asks for one user: the pair that names the user, then the
/// `expand` parameter where tokens are given.
pub open spec fn lookup_query(field: Seq<char>, value: Seq<char>, tokens: Seq<Expand>) -> Pairs {
    merged(seq![(field, value)], expand_pairs(tokens))
}

/// The query parameters that a list of tokens asks for.
pub fn expand_to_hashmap(e: &[Expand]) -> (res: Params)
    ensures
        res@ == expand_pairs(e@),
{
    let mut res = Params::new();
    if e.len() == 0 {
        return res;
    }
    let mut names: Vec<String> = Vec::new();
    let mut i: usize = 0;
    while i < e.len()
        invariant
            i <= e.len(),
            names.len() == i,
            forall|j: int| 0 <= j < i ==> (#[trigger] names[j])@ == e[j].wire(),
        decreases e.len() - i,
    {
        names.push(e[i].to_string().to_owned());
        i += 1;
    }
    assert(names@.map_values(|n: String| n@) =~= wire_names(e@));
    let value = join(&names, ",");
    res.insert(String::from_str("expand"), value);
    assert(res@ =~= expand_pairs(e@));
    res
}

/// A group of users.
pub struct Group {
    /// The name of the group.
    pub name: String,
    /// A link to the group.
    pub self_link: String,
}

/// The mathematical model of a `Group`.
pub struct GroupView {
    pub name: Seq<char>,
    pub self_link: Seq<char>,
}

impl View for Group {
    type V = GroupView;

    open spec fn view(&self) -> GroupView {
        GroupView { name: self.name@, self_link: self.self_link@ }
    }
}

/// The group that a document describes: the document is an object, and
/// `name` and `self` are texts where they are there.
pub open spec fn group_in(document: JsonView) -> Option<GroupView> {
    if document is Object && text_field(document, "name"@) is Some && text_field(
        document,
        "self"@,
    ) is Some {
        Some(
            GroupView {
                name: text_field(document, "name"@).unwrap(),
                self_link: text_field(document, "self"@).unwrap(),
            },
        )
    } else {
        None
    }
}

/// The groups that a document lists: the document is an array, and each
/// item describes a group.
pub open spec fn groups_in(document: JsonView) -> Option<Seq<GroupView>> {
    match document {
        JsonView::Array(items) => {
            if forall|i: int| 0 <= i < items.len() ==> group_in(#[trigger] items[i]) is Some {
                Some(Seq::new(items.len(), |i: int| group_in(items[i]).unwrap()))
            } else {
                None
            }
        },
        _ => None,
    }
}

impl Group {
    /// Reads a group from a document.
    pub fn from_json(document: &Json) -> (res: Option<Group>)
        ensures
            match res {
                Some(group) => group_in(document@) == Some(group@),
                None => group_in(document@) is None,
            },
    {
        if document.as_members().is_none() {
            return None;
        }
        let name = match document.read_text("name") {
            Some(v) => v,
            None => {
                return None;
            },
        };
        let self_link = match document.read_text("self") {
            Some(v) => v,
            None => {
                return None;
            },
        };
        Some(Group { name, self_link })
    }

    /// Reads a list of groups from a document.
    pub fn list_from_json(document: &Json) -> (res: Option<Vec<Group>>)
        ensures
            match res {
                Some(groups) => groups_in(document@) == Some(groups@.map_values(|g: Group| g@)),
                None => groups_in(document@) is None,
            },
    {
        let items = match document.as_items() {
            Some(items) => items,
            None => {
                return None;
            },
        };
        let ghost models = items@.map_values(|item: Json| item@);
        let mut groups: Vec<Group> = Vec::new();
        let mut i: usize = 0;
        while i < items.len()
            invariant
                i <= items.len(),
                groups.len() == i,
                models == items@.map_values(|item: Json| item@),
                document@ == JsonView::Array(models),
                forall|j: int| 0 <= j < i ==> group_in(#[trigger] models[j]) == Some(groups[j]@),
            decreases items.len() - i,
        {
            match Group::from_json(&items[i]) {
                Some(group) => {
                    groups.push(group);
                },
                None => {
                    assert(group_in(models[i as int]) is None);
                    return None;
                },
            }
            i += 1;
        }
        assert(groups@.map_values(|g: Group| g@) =~= groups_in(document@).unwrap());
        Some(groups)
    }
}

/// A list that the server sends along with a user, kept as the document that
/// it came as.
pub struct Item {
    /// The entries of the list.
    pub items: Json,
}

/// The mathematical model of an `Item`.
pub struct ItemView {
    pub items: JsonView,
}

impl View for Item {
    type V = ItemView;

    open spec fn view(&self) -> ItemView {
        ItemView { items: self.items@ }
    }
}

/// The model of a list that may be absent.
pub open spec fn item_view(item: Option<Item>) -> Option<ItemView> {
    match item {
        Some(i) => Some(i@),
        None => None,
    }
}

/// The list under `name`. There is none where `document` has no such member
/// or holds `null` there; a member that is there must be an object with a
/// member `items`, and the field has no value if it is not.
pub open spec fn item_field(document: JsonView, name: Seq<char>) -> Option<Option<ItemView>> {
    match document.member(name) {
        None => Some(None),
        Some(JsonView::Null) => Some(None),
        Some(found) => match found.member("items"@) {
            Some(items) => Some(Some(ItemView { items })),
            None => None,
        },
    }
}

/// The pairs that the members of an object write, where each member is a
/// text: the members set in their order, so that of two members with one
/// name the value of the later stands.
pub open spec fn text_pairs(fields: Seq<(Seq<char>, JsonView)>) -> Option<Pairs> {
    if forall|i: int| 0 <= i < fields.len() ==> (#[trigger] fields[i]).1 is Text {
        Some(merged(Seq::empty(), Seq::new(fields.len(), |i: int| (fields[i].0, fields[i].1->Text_0))))
    } else {
        None
    }
}

/// The pairs under `name`: none at all where `document` has no such member,
/// and no result where the member is no object of texts.
pub open spec fn pairs_field(document: JsonView, name: Seq<char>) -> Option<Pairs> {
    match document.member(name) {
        None => Some(Seq::empty()),
        Some(JsonView::Object(fields)) => text_pairs(fields),
        Some(_) => None,
    }
}

/// Reads the list under `name`.
fn read_item(document: &Json, name: &str) -> (res: Option<Option<Item>>)
    ensures
        match res {
            Some(item) => item_field(document@, name@) == Some(item_view(item)),
            None => item_field(document@, name@) is None,
        },
{
    match document.member(name) {
        None => Some(None),
        Some(found) => {
            match found {
                Json::Null => {
                    return Some(None);
                },
                _ => {},
            }
            match found.member("items") {
                Some(items) => Some(Some(Item { items: items.clone() })),
                None => None,
            }
        },
    }
}

/// Reads the pairs under `name`.
fn read_pairs(document: &Json, name: &str) -> (res: Option<Params>)
    ensures
        match res {
            Some(pairs) => pairs_field(document@, name@) == Some(pairs@),
            None => pairs_field(document@, name@) is None,
        },
{
    let found = match document.member(name) {
        None => {
            return Some(Params::new());
        },
        Some(found) => found,
    };
    let fields = match found.as_members() {
        Some(fields) => fields,
        None => {
            return None;
        },
    };
    let ghost models = fields@.map_values(|field: (String, Json)| (field.0@, field.1@));
    let ghost texts = Seq::new(models.len(), |i: int| (models[i].0, models[i].1->Text_0));
    let mut pairs = Params::new();
    let mut i: usize = 0;
    assert(texts.skip(0) =~= texts);
    while i < fields.len()
        invariant
            i <= fields.len(),
            models == fields@.map_values(|field: (String, Json)| (field.0@, field.1@)),
            found@ == JsonView::Object(models),
            document@.member(name@) == Some(found@),
            texts == Seq::new(models.len(), |i: int| (models[i].0, models[i].1->Text_0)),
            forall|j: int| 0 <= j < i ==> (#[trigger] models[j]).1 is Text,
            merged(pairs@, texts.skip(i as int)) == merged(Seq::empty(), texts),
        decreases fields.len() - i,
    {
        match &fields[i].1 {
            Json::Text(value) => {
                proof {
                    let rest = texts.skip(i as int);
                    assert(rest[0] == texts[i as int]);
                    assert(rest.drop_first() =~= texts.skip(i + 1));
                    assert(models[i as int].1 == JsonView::Text(value@));
                }
                pairs.insert(fields[i].0.clone(), value.clone());
            },
            _ => {
                assert(!(models[i as int].1 is Text));
                return None;
            },
        }
        i += 1;
    }
    assert(texts.skip(i as int).len() == 0);
    Some(pairs)
}

/// A user as the server describes one.
pub struct User {
    /// Whether the user is active.
    pub active: bool,
    /// The addresses of the pictures of the user, by size.
    pub avatar_urls: Params,
    /// The name that is shown for the user.
    pub display_name: String,
    /// The mail address of the account.
    pub email_address: String,
    /// The key of the user.
    pub key: String,
    /// The name of the account.
    pub name: String,
    /// A link to the user.
    pub self_link: String,
    /// The time zone of the account.
    pub timezone: String,
    /// The groups that the user belongs to, where the server sent them.
    pub groups: Option<Item>,
    /// The application roles that the user has, where the server sent them.
    pub application_roles: Option<Item>,
}

/// The mathematical model of a `User`.
pub struct UserView {
    pub active: bool,
    pub avatar_urls: Pairs,
    pub display_name: Seq<char>,
    pub email_address: Seq<char>,
    pub key: Seq<char>,
    pub name: Seq<char>,
    pub self_link: Seq<char>,
    pub timezone: Seq<char>,
    pub groups: Option<ItemView>,
    pub application_roles: Option<ItemView>,
}

impl View for User {
    type V = UserView;

    open spec fn view(&self) -> UserView {
        UserView {
            active: self.active,
            avatar_urls: self.avatar_urls@,
            display_name: self.display_name@,
            email_address: self.email_address@,
            key: self.key@,
            name: self.name@,
            self_link: self.self_link@,
            timezone: self.timezone@,
            groups: item_view(self.groups),
            application_roles: item_view(self.application_roles),
        }
    }
}

/// The user that a document describes: the document is an object, and each
/// member that is there has the type of its field. A member that is not
/// there leaves its field empty, false or absent.
pub open spec fn user_in(document: JsonView) -> Option<UserView> {
    if document is Object && bool_field(document, "active"@) is Some && pairs_field(
        document,
        "avatarUrls"@,
    ) is Some && text_field(document, "displayName"@) is Some && text_field(
        document,
        "emailAddress"@,
    ) is Some && text_field(document, "key"@) is Some && text_field(document, "name"@) is Some
        && text_field(document, "self"@) is Some && text_field(document, "timeZone"@) is Some
        && item_field(document, "groups"@) is Some && item_field(
        document,
        "applicationRoles"@,
    ) is Some {
        Some(
            UserView {
                active: bool_field(document, "active"@).unwrap(),
                avatar_urls: pairs_field(document, "avatarUrls"@).unwrap(),
                display_name: text_field(document, "displayName"@).unwrap(),
                email_address: text_field(document, "emailAddress"@).unwrap(),
                key: text_field(document, "key"@).unwrap(),
                name: text_field(document, "name"@).unwrap(),
                self_link: text_field(document, "self"@).unwrap(),
                timezone: text_field(document, "timeZone"@).unwrap(),
                groups: item_field(document, "groups"@).unwrap(),
                application_roles: item_field(document, "applicationRoles"@).unwrap(),
            },
        )
    } else {
        None
    }
}

/// The users that a document lists: the document is an array, and each item
/// describes a user.
pub open spec fn users_in(document: JsonView) -> Option<Seq<UserView>> {
    match document {
        JsonView::Array(items) => {
            if forall|i: int| 0 <= i < items.len() ==> user_in(#[trigger] items[i]) is Some {
                Some(Seq::new(items.len(), |i: int| user_in(items[i]).unwrap()))
            } else {
                None
            }
        },
        _ => None,
    }
}

impl User {
    /// The request that lists the users whose name matches `search`.
    pub fn search(c: &Client, search: &str, opts: Option<UserOptions>, page: Option<Pagination>) -> (res:
        Result<Request, Error>)
        ensures
            match res {
                Ok(r) => config_fault(c@.credentials) is None && r@ == request_of(
                    c@,
                    Method::Get,
                    "api"@,
                    "2"@,
                    "user/search"@,
                    search_query(search@, opts, page),
                    Seq::empty(),
                    None,
                ),
                Err(e) => config_fault(c@.credentials) matches Some(fault) && e@ == (
                ErrorView::Configuration { fault }),
            },
    {
        let mut query = Params::new();
        query.insert(String::from_str("username"), search.to_owned());
        assert(query@ =~= seq![("username"@, search@)]);
        match &opts {
            Some(o) => {
                let set = o.to_query();
                query.extend(&set);
            },
            None => {},
        }
        match &page {
            Some(p) => {
                let set = p.to_query();
                query.extend(&set);
            },
            None => {},
        }
        c.get("api", "2", "user/search", Some(query), None)
    }

    /// The request that fetches the user with the account name `username`.
    pub fn from_username(c: &Client, username: &str, expand: &[Expand]) -> (res: Result<
        Request,
        Error,
    >)
        ensures
            match res {
                Ok(r) => config_fault(c@.credentials) is None && r@ == request_of(
                    c@,
                    Method::Get,
                    "api"@,
                    "2"@,
                    "user"@,
                    lookup_query("username"@, username@, expand@),
                    Seq::empty(),
                    None,
                ),
                Err(e) => config_fault(c@.credentials) matches Some(fault) && e@ == (
                ErrorView::Configuration { fault }),
            },
    {
        let mut query = Params::new();
        query.insert(String::from_str("username"), username.to_owned());
        assert(query@ =~= seq![("username"@, username@)]);
        query.extend(&expand_to_hashmap(expand));
        c.get("api", "2", "user", Some(query), None)
    }

    /// The request that fetches the user with the key `key`.
    pub fn from_key(c: &Client, key: &str, expand: &[Expand]) -> (res: Result<Request, Error>)
        ensures
            match res {
                Ok(r) => config_fault(c@.credentials) is None && r@ == request_of(
                    c@,
                    Method::Get,
                    "api"@,
                    "2"@,
                    "user"@,
                    lookup_query("key"@, key@, expand@),
                    Seq::empty(),
                    None,
                ),
                Err(e) => config_fault(c@.credentials) matches Some(fault) && e@ == (
                ErrorView::Configuration { fault }),
            },
    {
        let mut query = Params::new();
        query.insert(String::from_str("key"), key.to_owned());
        assert(query@ =~= seq![("key"@, key@)]);
        query.extend(&expand_to_hashmap(expand));
        c.get("api", "2", "user", Some(query), None)
    }

    /// Reads a user from a document.
    pub fn from_json(document: &Json) -> (res: Option<User>)
        ensures
            match res {
                Some(user) => user_in(document@) == Some(user@),
                None => user_in(document@) is None,
            },
    {
        if document.as_members().is_none() {
            return None;
        }
        let active = match document.read_bool("active") {
            Some(v) => v,
            None => {
                return None;
            },
        };
        let avatar_urls = match read_pairs(document, "avatarUrls") {
            Some(v) => v,
            None => {
                return None;
            },
        };
        let display_name = match document.read_text("displayName") {
            Some(v) => v,
            None => {
                return None;
            },
        };
        let email_address = match document.read_text("emailAddress") {
            Some(v) => v,
            None => {
                return None;
            },
        };
        let key = match document.read_text("key") {
            Some(v) => v,
            None => {
                return None;
            },
        };
        let name = match document.read_text("name") {
            Some(v) => v,
            None => {
                return None;
            },
        };
        let self_link = match document.read_text("self") {
            Some(v) => v,
            None => {
                return None;
            },
        };
        let timezone = match document.read_text("timeZone") {
            Some(v) => v,
            None => {
                return None;
            },
        };
        let groups = match read_item(document, "groups") {
            Some(v) => v,
            None => {
                return None;
            },
        };
        let application_roles = match read_item(document, "applicationRoles") {
            Some(v) => v,
            None => {
                return None;
            },
        };
        Some(
            User {
                active,
                avatar_urls,
                display_name,
                email_address,
                key,
                name,
                self_link,
                timezone,
                groups,
                application_roles,
            },
        )
    }

    /// Reads a list of users from a document.
    pub fn list_from_json(document: &Json) -> (res: Option<Vec<User>>)
        ensures
            match res {
                Some(users) => users_in(document@) == Some(users@.map_values(|u: User| u@)),
                None => users_in(document@) is None,
            },
    {
        let items = match document.as_items() {
            Some(items) => items,
            None => {
                return None;
            },
        };
        let ghost models = items@.map_values(|item: Json| item@);
        let mut users: Vec<User> = Vec::new();
        let mut i: usize = 0;
        while i < items.len()
            invariant
                i <= items.len(),
                users.len() == i,
                models == items@.map_values(|item: Json| item@),
                document@ == JsonView::Array(models),
                forall|j: int| 0 <= j < i ==> user_in(#[trigger] models[j]) == Some(users[j]@),
            decreases items.len() - i,
        {
            match User::from_json(&items[i]) {
                Some(user) => {
                    users.push(user);
                },
                None => {
                    assert(user_in(models[i as int]) is None);
                    return None;
                },
            }
            i += 1;
        }
        assert(users@.map_values(|u: User| u@) =~= users_in(document@).unwrap());
        Some(users)
    }

    /// The groups that the user belongs to: none where the server sent no
    /// list, and no result where the list does not describe groups.
    pub fn groups(&self) -> (res: Option<Vec<Group>>)
        ensures
            match self.groups {
                None => res matches Some(groups) && groups@.len() == 0,
                Some(item) => match groups_in(item.items@) {
                    Some(listed) => res matches Some(groups) && groups@.map_values(|g: Group| g@)
                        == listed,
                    None => res is None,
                },
            },
    {
        match &self.groups {
            Some(item) => Group::list_from_json(&item.items),
            None => Some(Vec::new()),
        }
    }

    /// The application roles that the user has: none where the server sent
    /// no list, and no result where the list does not describe roles.
    pub fn application_roles(&self) -> (res: Option<Vec<ApplicationRole>>)
        ensures
            match self.application_roles {
                None => res matches Some(roles) && roles@.len() == 0,
                Some(item) => match roles_in(item.items@) {
                    Some(listed) => res matches Some(roles) && roles@.map_values(
                        |r: ApplicationRole| r@,
                    ) == listed,
                    None => res is None,
                },
            },
    {
        match &self.application_roles {
            Some(item) => ApplicationRole::list_from_json(&item.items),
            None => Some(Vec::new()),
        }
    }

    /// Reads the answer to a request for one user.
    pub fn read(outcome: Outcome) -> (res: Result<Resp<User>, Error>)
        ensures
            match failure_of(outcome) {
                Some(failure) => res matches Err(e) && e@ == failure,
                None => match user_in(document_of(outcome)) {
                    Some(user) => res matches Ok(r) && r.data@ == user && r.headers
                        == outcome->headers,
                    None => res matches Err(e) && e@ == (ErrorView::Decode {
                        raw_body: outcome->body@,
                        cause: DecodeCause::Shape,
                    }),
                },
            },
    {
        match classify(outcome) {
            Ok(answer) => finish(User::from_json(&answer.document), answer.headers, answer.raw_body),
            Err(e) => Err(e),
        }
    }

    /// Reads the answer to a search.
    pub fn read_list(outcome: Outcome) -> (res: Result<Resp<Vec<User>>, Error>)
        ensures
            match failure_of(outcome) {
                Some(failure) => res matches Err(e) && e@ == failure,
                None => match users_in(document_of(outcome)) {
                    Some(users) => res matches Ok(r) && r.data@.map_values(|u: User| u@) == users
                        && r.headers == outcome->headers,
                    None => res matches Err(e) && e@ == (ErrorView::Decode {
                        raw_body: outcome->body@,
                        cause: DecodeCause::Shape,
                    }),
                },
            },
    {
        match classify(outcome) {
            Ok(answer) => finish(
                User::list_from_json(&answer.document),
                answer.headers,
                answer.raw_body,
            ),
            Err(e) => Err(e),
        }
    }
}

} // verus!
