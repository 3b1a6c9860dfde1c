//! Bookmarks resource.

use crate::request::{
    Expected, ObjectBuilder, GraphQLRequest, request, field, opt_text, opt_int, request_is, group_lookup, lemma_variable_described, variable, text_of, sent_text, sent_int,
};
use vstd::prelude::*;

verus! {

broadcast use vstd::string::group_string_axioms;

/// Options for [`BookmarkService::list`].
#[derive(Debug, Default, Clone)]
#[non_exhaustive]
pub struct ListBookmarksOptions {
    /// Filter by event ID.
    pub event_id: Option<String>,
    /// Free-text search.
    pub search: Option<String>,
    /// Offset-based page size.
    pub limit: Option<i32>,
    /// Offset-based page offset.
    pub offset: Option<i32>,
    /// Cursor for cursor-based pagination.
    pub after: Option<String>,
    /// Page size for cursor-based pagination.
    pub first: Option<i32>,
}

impl ListBookmarksOptions {
    /// The members of the variables object these options are sent as:
    /// camelCase names, absent options left out.
    pub open spec fn members(self) -> Seq<(Seq<char>, Expected)> {
        opt_text("eventId"@, self.event_id)
            + opt_text("search"@, self.search)
            + opt_int("limit"@, self.limit)
            + opt_int("offset"@, self.offset)
            + opt_text("after"@, self.after)
            + opt_int("first"@, self.first)
    }
}

/// The GraphQL document of `BookmarkService::list`.
pub const LIST_QUERY: &'static str = "query($eventId: UUID, $search: String, $limit: Int, $offset: Int, $after: String, $first: Int) {\n                bookmarks(eventId: $eventId, search: $search, limit: $limit, offset: $offset, after: $after, first: $first) {\n                    nodes { id eventId name notes createdAt }\n                    pageInfo { total limit offset endCursor hasNextPage }\n                }\n            }";

/// The GraphQL document of `BookmarkService::get`.
pub const GET_QUERY: &'static str = "query($id: UUID!) { bookmark(id: $id) { id eventId name notes createdAt } }";

/// The GraphQL document of `BookmarkService::create`.
pub const CREATE_QUERY: &'static str = "mutation($eventId: UUID!, $name: String, $notes: String) { createBookmark(eventId: $eventId, name: $name, notes: $notes) { id eventId name notes createdAt } }";

/// The GraphQL document of `BookmarkService::delete`.
pub const DELETE_QUERY: &'static str = "mutation($id: UUID!) { deleteBookmark(id: $id) }";

/// Service for managing [`Bookmark`] resources.
pub struct BookmarkService;

impl BookmarkService {
    /// List bookmarks.
    pub fn list(&self, options: ListBookmarksOptions) -> (r: GraphQLRequest)
        ensures
            request_is(r, LIST_QUERY@, Some(options.members()), "bookmarks"@),
    {
        let ghost spec = options.members();
        let mut v = ObjectBuilder::new();
        v.put_opt_text("eventId", options.event_id);
        v.put_opt_text("search", options.search);
        v.put_opt_int("limit", options.limit);
        v.put_opt_int("offset", options.offset);
        v.put_opt_text("after", options.after);
        v.put_opt_int("first", options.first);
        proof {
            assert(v.expected@ =~= spec);
        }
        request(LIST_QUERY, v, "bookmarks")
    }

    /// Get a bookmark by ID.
    pub fn get(&self, id: &str) -> (r: GraphQLRequest)
        ensures
            request_is(r, GET_QUERY@, Some(field("id"@, Expected::Text(id@))), "bookmark"@),
    {
        let ghost spec = field("id"@, Expected::Text(id@));
        let mut v = ObjectBuilder::new();
        v.put_text("id", id);
        proof {
            assert(v.expected@ =~= spec);
        }
        request(GET_QUERY, v, "bookmark")
    }

    /// Create a bookmark on an event.
    pub fn create(&self, event_id: &str, name: &str, notes: &str) -> (r: GraphQLRequest)
        ensures
            request_is(
                r,
                CREATE_QUERY@,
                Some(
                    field("eventId"@, Expected::Text(event_id@))
                        + field("name"@, Expected::Text(name@))
                        + field("notes"@, Expected::Text(notes@)),
                ),
                "createBookmark"@,
            ),
    {
        let ghost spec =
            field("eventId"@, Expected::Text(event_id@))
                + field("name"@, Expected::Text(name@))
                + field("notes"@, Expected::Text(notes@));
        let mut v = ObjectBuilder::new();
        v.put_text("eventId", event_id);
        v.put_text("name", name);
        v.put_text("notes", notes);
        proof {
            assert(v.expected@ =~= spec);
        }
        request(CREATE_QUERY, v, "createBookmark")
    }

    /// Delete a bookmark.
    pub fn delete(&self, id: &str) -> (r: GraphQLRequest)
        ensures
            request_is(
                r,
                DELETE_QUERY@,
                Some(field("id"@, Expected::Text(id@))),
                "deleteBookmark"@,
            ),
    {
        let ghost spec = field("id"@, Expected::Text(id@));
        let mut v = ObjectBuilder::new();
        v.put_text("id", id);
        proof {
            assert(v.expected@ =~= spec);
        }
        request(DELETE_QUERY, v, "deleteBookmark")
    }
}

/// Async variant of the bookmark service.
pub struct AsyncBookmarkService;

impl AsyncBookmarkService {
    /// List bookmarks.
    pub fn list(&self, options: ListBookmarksOptions) -> (r: GraphQLRequest)
        ensures
            request_is(r, LIST_QUERY@, Some(options.members()), "bookmarks"@),
    {
        BookmarkService.list(options)
    }

    /// Get a bookmark by ID.
    pub fn get(&self, id: &str) -> (r: GraphQLRequest)
        ensures
            request_is(r, GET_QUERY@, Some(field("id"@, Expected::Text(id@))), "bookmark"@),
    {
        BookmarkService.get(id)
    }

    /// Create a bookmark on an event.
    pub fn create(&self, event_id: &str, name: &str, notes: &str) -> (r: GraphQLRequest)
        ensures
            request_is(
                r,
                CREATE_QUERY@,
                Some(
                    field("eventId"@, Expected::Text(event_id@))
                        + field("name"@, Expected::Text(name@))
                        + field("notes"@, Expected::Text(notes@)),
                ),
                "createBookmark"@,
            ),
    {
        BookmarkService.create(event_id, name, notes)
    }

    /// Delete a bookmark.
    pub fn delete(&self, id: &str) -> (r: GraphQLRequest)
        ensures
            request_is(
                r,
                DELETE_QUERY@,
                Some(field("id"@, Expected::Text(id@))),
                "deleteBookmark"@,
            ),
    {
        BookmarkService.delete(id)
    }
}

/// What [`BookmarkService::list`] sends: each argument, and each field of an
/// options or input argument, under its own camelCase name, holding that
/// value; an absent optional one is left out.
pub proof fn lemma_list_sends_arguments(options: ListBookmarksOptions, r: GraphQLRequest)
    requires
        request_is(r, LIST_QUERY@, Some(options.members()), "bookmarks"@),
    ensures
        sent_text(variable(r, "eventId"@), options.event_id),
        sent_text(variable(r, "search"@), options.search),
        sent_int(variable(r, "limit"@), options.limit),
        sent_int(variable(r, "offset"@), options.offset),
        sent_text(variable(r, "after"@), options.after),
        sent_int(variable(r, "first"@), options.first),
{
    broadcast use group_lookup;

    reveal_strlit("after");
    assert("after"@.len() == 5);
    reveal_strlit("eventId");
    assert("eventId"@.len() == 7);
    reveal_strlit("first");
    assert("first"@.len() == 5);
    reveal_strlit("limit");
    assert("limit"@.len() == 5);
    reveal_strlit("offset");
    assert("offset"@.len() == 6);
    reveal_strlit("search");
    assert("search"@.len() == 6);
    assert("after"@[0] == 'a');
    assert("first"@[0] == 'f');
    assert("limit"@[0] == 'l');
    assert("offset"@[0] == 'o');
    assert("search"@[0] == 's');
    let fields = options.members();
    lemma_variable_described(r, LIST_QUERY@, fields, "bookmarks"@, "eventId"@);
    lemma_variable_described(r, LIST_QUERY@, fields, "bookmarks"@, "search"@);
    lemma_variable_described(r, LIST_QUERY@, fields, "bookmarks"@, "limit"@);
    lemma_variable_described(r, LIST_QUERY@, fields, "bookmarks"@, "offset"@);
    lemma_variable_described(r, LIST_QUERY@, fields, "bookmarks"@, "after"@);
    lemma_variable_described(r, LIST_QUERY@, fields, "bookmarks"@, "first"@);
}

/// What [`BookmarkService::get`] sends: each argument, and each field of an
/// options or input argument, under its own camelCase name, holding that
/// value; an absent optional one is left out.
pub proof fn lemma_get_sends_arguments(id: &str, r: GraphQLRequest)
    requires
        request_is(r, GET_QUERY@, Some(field("id"@, Expected::Text(id@))), "bookmark"@),
    ensures
        text_of(variable(r, "id"@)) == Some(id@),
{
    broadcast use group_lookup;

    reveal_strlit("id");
    assert("id"@.len() == 2);
    let fields = field("id"@, Expected::Text(id@));
    lemma_variable_described(r, GET_QUERY@, fields, "bookmark"@, "id"@);
}

/// What [`BookmarkService::create`] sends: each argument, and each field of an
/// options or input argument, under its own camelCase name, holding that
/// value; an absent optional one is left out.
pub proof fn lemma_create_sends_arguments(
    event_id: &str,
    name: &str,
    notes: &str,
    r: GraphQLRequest,
)
    requires
        request_is(
            r,
            CREATE_QUERY@,
            Some(
                field("eventId"@, Expected::Text(event_id@))
                    + field("name"@, Expected::Text(name@))
                    + field("notes"@, Expected::Text(notes@)),
            ),
            "createBookmark"@,
        ),
    ensures
        text_of(variable(r, "eventId"@)) == Some(event_id@),
        text_of(variable(r, "name"@)) == Some(name@),
        text_of(variable(r, "notes"@)) == Some(notes@),
{
    broadcast use group_lookup;

    reveal_strlit("eventId");
    assert("eventId"@.len() == 7);
    reveal_strlit("name");
    assert("name"@.len() == 4);
    reveal_strlit("notes");
    assert("notes"@.len() == 5);
    let fields = field(
        "eventId"@,
        Expected::Text(event_id@)) + field("name"@,
        Expected::Text(name@)) + field("notes"@,
        Expected::Text(notes@),
    );
    lemma_variable_described(r, CREATE_QUERY@, fields, "createBookmark"@, "eventId"@);
    lemma_variable_described(r, CREATE_QUERY@, fields, "createBookmark"@, "name"@);
    lemma_variable_described(r, CREATE_QUERY@, fields, "createBookmark"@, "notes"@);
}

/// What [`BookmarkService::delete`] sends: each argument, and each field of an
/// options or input argument, under its own camelCase name, holding that
/// value; an absent optional one is left out.
pub proof fn lemma_delete_sends_arguments(id: &str, r: GraphQLRequest)
    requires
        request_is(r, DELETE_QUERY@, Some(field("id"@, Expected::Text(id@))), "deleteBookmark"@),
    ensures
        text_of(variable(r, "id"@)) == Some(id@),
{
    broadcast use group_lookup;

    reveal_strlit("id");
    assert("id"@.len() == 2);
    let fields = field("id"@, Expected::Text(id@));
    lemma_variable_described(r, DELETE_QUERY@, fields, "deleteBookmark"@, "id"@);
}

} // verus!
