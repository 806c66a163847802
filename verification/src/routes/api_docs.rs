//! The description of the API: the page that people read and the one that tools do.

use vstd::prelude::*;
use vstd::string::*;

use crate::json::{array_view, object_view, Json, JsonView};
use crate::routes::api_v1::{
    guild_json, list_json, page_size, relation_column, single_json, whoami_json, Page, UserRow, DEFAULT_LIMIT,
    MAX_LIMIT,
};
use crate::services::api_key::{ApiKeyContext, RATE_BURST, RATE_PER_MINUTE, SCOPE_USERS_READ, TOKEN_PREFIX};
use crate::text::{decimal, decimal_of, replace, replaced};

verus! {

/// The page that people read, from its template.
pub fn page(template: &str, base_url: &str) -> (r: String)
    ensures
        r@ == replaced(template@, "{{BASE_URL}}"@, base_url@),
{
    proof {
        reveal_strlit("{{BASE_URL}}");
        assert("{{BASE_URL}}"@.len() == 12);
    }
    replace(template, "{{BASE_URL}}", base_url)
}

/// A reference to another part of the description.
pub open spec fn reference_json(to: Seq<char>) -> JsonView {
    object_view().with("$ref"@, JsonView::Str(to))
}

/// A reference to another part of the description.
fn reference(to: &str) -> (r: Json)
    ensures
        r@ == reference_json(to@),
{
    Json::object().with("$ref", Json::text(to))
}

/// A schema that says no more than the type.
pub open spec fn typed_json(name: Seq<char>) -> JsonView {
    object_view().with("type"@, JsonView::Str(name))
}

/// A schema that says no more than the type.
fn typed(name: &str) -> (r: Json)
    ensures
        r@ == typed_json(name@),
{
    Json::object().with("type", Json::text(name))
}

/// The body of a failure.
pub open spec fn error_content_json() -> JsonView {
    object_view()
        .with(
            "application/json"@,
            object_view()
                .with("schema"@, reference_json("#/components/schemas/Error"@)),
        )
}

/// The body of a failure.
fn error_content() -> (r: Json)
    ensures
        r@ == error_content_json(),
{
    Json::object()
        .with(
            "application/json",
            Json::object()
                .with("schema", reference("#/components/schemas/Error")),
        )
}

/// What the API is.
pub open spec fn info_json(base: Seq<char>) -> JsonView {
    object_view()
        .with("title"@, JsonView::Str("Kick Channel Role API"@))
        .with("version"@, JsonView::Str("1.0.0"@))
        .with(
            "summary"@,
            JsonView::Str("Read-only access to one Discord server's linked Kick accounts."@),
        )
        .with(
            "description"@,
            JsonView::Str("Every API key is scoped to exactly one Discord server, which is why no endpoint takes a server id — the key carries it.\n\nKeys are minted by a member with Manage Server from the plugin's role settings in the RoleLogic dashboard. Server-to-server only: browsers on third-party origins are blocked by CORS so keys stay out of frontend bundles.\n\nFull guide: "@ + base + "/api/v1/docs"@),
        )
}

/// What the API is.
fn info(base: &str) -> (r: Json)
    ensures
        r@ == info_json(base@),
{
    Json::object()
        .with("title", Json::text("Kick Channel Role API"))
        .with("version", Json::text("1.0.0"))
        .with("summary", Json::text("Read-only access to one Discord server's linked Kick accounts."))
        .with(
            "description",
            Json::Str("Every API key is scoped to exactly one Discord server, which is why no endpoint takes a server id — the key carries it.\n\nKeys are minted by a member with Manage Server from the plugin's role settings in the RoleLogic dashboard. Server-to-server only: browsers on third-party origins are blocked by CORS so keys stay out of frontend bundles.\n\nFull guide: ".to_owned().concat(base).concat("/api/v1/docs")),
        )
}

/// The groups of endpoints.
pub open spec fn tags_json() -> JsonView {
    array_view()
        .and(
            object_view()
                .with("name"@, JsonView::Str("Key"@))
                .with("description"@, JsonView::Str("Credential introspection."@)),
        )
        .and(
            object_view()
                .with("name"@, JsonView::Str("Users"@))
                .with("description"@, JsonView::Str("Linked members of the server."@)),
        )
}

/// The groups of endpoints.
fn tags() -> (r: Json)
    ensures
        r@ == tags_json(),
{
    Json::list()
        .and(
            Json::object()
                .with("name", Json::text("Key"))
                .with("description", Json::text("Credential introspection.")),
        )
        .and(
            Json::object()
                .with("name", Json::text("Users"))
                .with("description", Json::text("Linked members of the server.")),
        )
}

/// The endpoint that tells of a key.
pub open spec fn whoami_path_json() -> JsonView {
    object_view()
        .with(
            "get"@,
            object_view()
                .with(
                    "tags"@,
                    array_view()
                        .and(JsonView::Str("Key"@)),
                )
                .with("operationId"@, JsonView::Str("whoami"@))
                .with("summary"@, JsonView::Str("Confirm a key and see which server it points at"@))
                .with(
                    "responses"@,
                    object_view()
                        .with(
                            "200"@,
                            object_view()
                                .with("description"@, JsonView::Str("The key is valid."@))
                                .with(
                                    "content"@,
                                    object_view()
                                        .with(
                                            "application/json"@,
                                            object_view()
                                                .with(
                                                    "schema"@,
                                                    object_view()
                                                        .with("type"@, JsonView::Str("object"@))
                                                        .with(
                                                            "required"@,
                                                            array_view()
                                                                .and(JsonView::Str("guild"@))
                                                                .and(JsonView::Str("key"@)),
                                                        )
                                                        .with(
                                                            "properties"@,
                                                            object_view()
                                                                .with(
                                                                    "guild"@,
                                                                    reference_json("#/components/schemas/Guild"@),
                                                                )
                                                                .with(
                                                                    "key"@,
                                                                    object_view()
                                                                        .with(
                                                                            "type"@,
                                                                            JsonView::Str("object"@),
                                                                        )
                                                                        .with(
                                                                            "properties"@,
                                                                            object_view()
                                                                                .with(
                                                                                    "label"@,
                                                                                    typed_json("string"@),
                                                                                )
                                                                                .with(
                                                                                    "scopes"@,
                                                                                    object_view()
                                                                                        .with(
                                                                                            "type"@,
                                                                                            JsonView::Str("array"@),
                                                                                        )
                                                                                        .with(
                                                                                            "items"@,
                                                                                            typed_json("string"@),
                                                                                        ),
                                                                                ),
                                                                        ),
                                                                ),
                                                        ),
                                                ),
                                        ),
                                ),
                        )
                        .with("401"@, reference_json("#/components/responses/Unauthorized"@))
                        .with("429"@, reference_json("#/components/responses/RateLimited"@)),
                ),
        )
}

/// The endpoint that tells of a key.
fn whoami_path() -> (r: Json)
    ensures
        r@ == whoami_path_json(),
{
    Json::object()
        .with(
            "get",
            Json::object()
                .with(
                    "tags",
                    Json::list()
                        .and(Json::text("Key")),
                )
                .with("operationId", Json::text("whoami"))
                .with("summary", Json::text("Confirm a key and see which server it points at"))
                .with(
                    "responses",
                    Json::object()
                        .with(
                            "200",
                            Json::object()
                                .with("description", Json::text("The key is valid."))
                                .with(
                                    "content",
                                    Json::object()
                                        .with(
                                            "application/json",
                                            Json::object()
                                                .with(
                                                    "schema",
                                                    Json::object()
                                                        .with("type", Json::text("object"))
                                                        .with(
                                                            "required",
                                                            Json::list()
                                                                .and(Json::text("guild"))
                                                                .and(Json::text("key")),
                                                        )
                                                        .with(
                                                            "properties",
                                                            Json::object()
                                                                .with(
                                                                    "guild",
                                                                    reference("#/components/schemas/Guild"),
                                                                )
                                                                .with(
                                                                    "key",
                                                                    Json::object()
                                                                        .with(
                                                                            "type",
                                                                            Json::text("object"),
                                                                        )
                                                                        .with(
                                                                            "properties",
                                                                            Json::object()
                                                                                .with(
                                                                                    "label",
                                                                                    typed("string"),
                                                                                )
                                                                                .with(
                                                                                    "scopes",
                                                                                    Json::object()
                                                                                        .with(
                                                                                            "type",
                                                                                            Json::text("array"),
                                                                                        )
                                                                                        .with(
                                                                                            "items",
                                                                                            typed("string"),
                                                                                        ),
                                                                                ),
                                                                        ),
                                                                ),
                                                        ),
                                                ),
                                        ),
                                ),
                        )
                        .with("401", reference("#/components/responses/Unauthorized"))
                        .with("429", reference("#/components/responses/RateLimited")),
                ),
        )
}

/// The relations that can be asked for.
pub open spec fn relation_names_json() -> JsonView {
    array_view()
        .and(JsonView::Str("follower"@))
        .and(JsonView::Str("subscriber"@))
        .and(JsonView::Str("vip"@))
        .and(JsonView::Str("og"@))
        .and(JsonView::Str("moderator"@))
}

/// The relations that can be asked for.
fn relation_names() -> (r: Json)
    ensures
        r@ == relation_names_json(),
{
    Json::list()
        .and(Json::text("follower"))
        .and(Json::text("subscriber"))
        .and(Json::text("vip"))
        .and(Json::text("og"))
        .and(Json::text("moderator"))
}

/// The parameters of a request for a page.
pub open spec fn list_parameters_json() -> JsonView {
    array_view()
        .and(
            object_view()
                .with("name"@, JsonView::Str("limit"@))
                .with("in"@, JsonView::Str("query"@))
                .with("required"@, JsonView::Bool(false))
                .with(
                    "description"@,
                    JsonView::Str("Page size. Out-of-range values are clamped, not rejected."@),
                )
                .with(
                    "schema"@,
                    object_view()
                        .with("type"@, JsonView::Str("integer"@))
                        .with("minimum"@, JsonView::Int(1))
                        .with("maximum"@, JsonView::Int(MAX_LIMIT))
                        .with("default"@, JsonView::Int(DEFAULT_LIMIT)),
                ),
        )
        .and(
            object_view()
                .with("name"@, JsonView::Str("cursor"@))
                .with("in"@, JsonView::Str("query"@))
                .with("required"@, JsonView::Bool(false))
                .with("description"@, JsonView::Str("Opaque. Pass back page.next_cursor verbatim."@))
                .with("schema"@, typed_json("string"@)),
        )
        .and(
            object_view()
                .with("name"@, JsonView::Str("updated_since"@))
                .with("in"@, JsonView::Str("query"@))
                .with("required"@, JsonView::Bool(false))
                .with(
                    "description"@,
                    JsonView::Str("RFC 3339 instant. Only users whose record changed at or after it. Note that removals are not reported this way — do a periodic full pass to detect them."@),
                )
                .with(
                    "schema"@,
                    object_view()
                        .with("type"@, JsonView::Str("string"@))
                        .with("format"@, JsonView::Str("date-time"@)),
                )
                .with("example"@, JsonView::Str("2026-07-27T00:00:00Z"@)),
        )
        .and(
            object_view()
                .with("name"@, JsonView::Str("relation"@))
                .with("in"@, JsonView::Str("query"@))
                .with("required"@, JsonView::Bool(false))
                .with("description"@, JsonView::Str("Return only users holding this relation."@))
                .with(
                    "schema"@,
                    object_view()
                        .with("type"@, JsonView::Str("string"@))
                        .with("enum"@, relation_names_json()),
                ),
        )
}

/// The parameters of a request for a page.
fn list_parameters() -> (r: Json)
    ensures
        r@ == list_parameters_json(),
{
    Json::list()
        .and(
            Json::object()
                .with("name", Json::text("limit"))
                .with("in", Json::text("query"))
                .with("required", Json::Bool(false))
                .with(
                    "description",
                    Json::text("Page size. Out-of-range values are clamped, not rejected."),
                )
                .with(
                    "schema",
                    Json::object()
                        .with("type", Json::text("integer"))
                        .with("minimum", Json::Int(1))
                        .with("maximum", Json::Int(MAX_LIMIT))
                        .with("default", Json::Int(DEFAULT_LIMIT)),
                ),
        )
        .and(
            Json::object()
                .with("name", Json::text("cursor"))
                .with("in", Json::text("query"))
                .with("required", Json::Bool(false))
                .with("description", Json::text("Opaque. Pass back page.next_cursor verbatim."))
                .with("schema", typed("string")),
        )
        .and(
            Json::object()
                .with("name", Json::text("updated_since"))
                .with("in", Json::text("query"))
                .with("required", Json::Bool(false))
                .with(
                    "description",
                    Json::text("RFC 3339 instant. Only users whose record changed at or after it. Note that removals are not reported this way — do a periodic full pass to detect them."),
                )
                .with(
                    "schema",
                    Json::object()
                        .with("type", Json::text("string"))
                        .with("format", Json::text("date-time")),
                )
                .with("example", Json::text("2026-07-27T00:00:00Z")),
        )
        .and(
            Json::object()
                .with("name", Json::text("relation"))
                .with("in", Json::text("query"))
                .with("required", Json::Bool(false))
                .with("description", Json::text("Return only users holding this relation."))
                .with(
                    "schema",
                    Json::object()
                        .with("type", Json::text("string"))
                        .with("enum", relation_names()),
                ),
        )
}

/// The endpoint that lists users.
pub open spec fn users_path_json() -> JsonView {
    object_view()
        .with(
            "get"@,
            object_view()
                .with(
                    "tags"@,
                    array_view()
                        .and(JsonView::Str("Users"@)),
                )
                .with("operationId"@, JsonView::Str("listUsers"@))
                .with("summary"@, JsonView::Str("List linked users, cursor-paginated"@))
                .with(
                    "description"@,
                    JsonView::Str("Ordered by an immutable unique id so the cursor stays stable while records change. Keep calling with cursor=page.next_cursor until page.has_more is false."@),
                )
                .with("parameters"@, list_parameters_json())
                .with(
                    "responses"@,
                    object_view()
                        .with(
                            "200"@,
                            object_view()
                                .with("description"@, JsonView::Str("A page of linked users."@))
                                .with(
                                    "content"@,
                                    object_view()
                                        .with(
                                            "application/json"@,
                                            object_view()
                                                .with(
                                                    "schema"@,
                                                    object_view()
                                                        .with("type"@, JsonView::Str("object"@))
                                                        .with(
                                                            "required"@,
                                                            array_view()
                                                                .and(JsonView::Str("guild"@))
                                                                .and(JsonView::Str("users"@))
                                                                .and(JsonView::Str("page"@)),
                                                        )
                                                        .with(
                                                            "properties"@,
                                                            object_view()
                                                                .with(
                                                                    "guild"@,
                                                                    reference_json("#/components/schemas/Guild"@),
                                                                )
                                                                .with(
                                                                    "users"@,
                                                                    object_view()
                                                                        .with(
                                                                            "type"@,
                                                                            JsonView::Str("array"@),
                                                                        )
                                                                        .with(
                                                                            "items"@,
                                                                            reference_json("#/components/schemas/User"@),
                                                                        ),
                                                                )
                                                                .with(
                                                                    "page"@,
                                                                    reference_json("#/components/schemas/Page"@),
                                                                ),
                                                        ),
                                                ),
                                        ),
                                ),
                        )
                        .with("400"@, reference_json("#/components/responses/BadRequest"@))
                        .with("401"@, reference_json("#/components/responses/Unauthorized"@))
                        .with("429"@, reference_json("#/components/responses/RateLimited"@))
                        .with("500"@, reference_json("#/components/responses/ServerError"@)),
                ),
        )
}

/// The endpoint that lists users.
fn users_path() -> (r: Json)
    ensures
        r@ == users_path_json(),
{
    Json::object()
        .with(
            "get",
            Json::object()
                .with(
                    "tags",
                    Json::list()
                        .and(Json::text("Users")),
                )
                .with("operationId", Json::text("listUsers"))
                .with("summary", Json::text("List linked users, cursor-paginated"))
                .with(
                    "description",
                    Json::text("Ordered by an immutable unique id so the cursor stays stable while records change. Keep calling with cursor=page.next_cursor until page.has_more is false."),
                )
                .with("parameters", list_parameters())
                .with(
                    "responses",
                    Json::object()
                        .with(
                            "200",
                            Json::object()
                                .with("description", Json::text("A page of linked users."))
                                .with(
                                    "content",
                                    Json::object()
                                        .with(
                                            "application/json",
                                            Json::object()
                                                .with(
                                                    "schema",
                                                    Json::object()
                                                        .with("type", Json::text("object"))
                                                        .with(
                                                            "required",
                                                            Json::list()
                                                                .and(Json::text("guild"))
                                                                .and(Json::text("users"))
                                                                .and(Json::text("page")),
                                                        )
                                                        .with(
                                                            "properties",
                                                            Json::object()
                                                                .with(
                                                                    "guild",
                                                                    reference("#/components/schemas/Guild"),
                                                                )
                                                                .with(
                                                                    "users",
                                                                    Json::object()
                                                                        .with(
                                                                            "type",
                                                                            Json::text("array"),
                                                                        )
                                                                        .with(
                                                                            "items",
                                                                            reference("#/components/schemas/User"),
                                                                        ),
                                                                )
                                                                .with(
                                                                    "page",
                                                                    reference("#/components/schemas/Page"),
                                                                ),
                                                        ),
                                                ),
                                        ),
                                ),
                        )
                        .with("400", reference("#/components/responses/BadRequest"))
                        .with("401", reference("#/components/responses/Unauthorized"))
                        .with("429", reference("#/components/responses/RateLimited"))
                        .with("500", reference("#/components/responses/ServerError")),
                ),
        )
}

/// The endpoint that tells of one user.
pub open spec fn user_path_json() -> JsonView {
    object_view()
        .with(
            "get"@,
            object_view()
                .with(
                    "tags"@,
                    array_view()
                        .and(JsonView::Str("Users"@)),
                )
                .with("operationId"@, JsonView::Str("getUser"@))
                .with("summary"@, JsonView::Str("Look up one member"@))
                .with(
                    "parameters"@,
                    array_view()
                        .and(
                            object_view()
                                .with("name"@, JsonView::Str("discord_id"@))
                                .with("in"@, JsonView::Str("path"@))
                                .with("required"@, JsonView::Bool(true))
                                .with("description"@, JsonView::Str("Discord snowflake, as a string."@))
                                .with("schema"@, typed_json("string"@))
                                .with("example"@, JsonView::Str("273645509182736451"@)),
                        ),
                )
                .with(
                    "responses"@,
                    object_view()
                        .with(
                            "200"@,
                            object_view()
                                .with(
                                    "description"@,
                                    JsonView::Str("The member is linked and visible to this key."@),
                                )
                                .with(
                                    "content"@,
                                    object_view()
                                        .with(
                                            "application/json"@,
                                            object_view()
                                                .with(
                                                    "schema"@,
                                                    object_view()
                                                        .with("type"@, JsonView::Str("object"@))
                                                        .with(
                                                            "required"@,
                                                            array_view()
                                                                .and(JsonView::Str("guild"@))
                                                                .and(JsonView::Str("user"@)),
                                                        )
                                                        .with(
                                                            "properties"@,
                                                            object_view()
                                                                .with(
                                                                    "guild"@,
                                                                    reference_json("#/components/schemas/Guild"@),
                                                                )
                                                                .with(
                                                                    "user"@,
                                                                    reference_json("#/components/schemas/User"@),
                                                                ),
                                                        ),
                                                ),
                                        ),
                                ),
                        )
                        .with("401"@, reference_json("#/components/responses/Unauthorized"@))
                        .with(
                            "404"@,
                            object_view()
                                .with(
                                    "description"@,
                                    JsonView::Str("Nothing to report about this person. Deliberately does not distinguish not-a-member from never-linked from opted-out, which would leak the server's membership list."@),
                                )
                                .with("content"@, error_content_json()),
                        )
                        .with("429"@, reference_json("#/components/responses/RateLimited"@))
                        .with("500"@, reference_json("#/components/responses/ServerError"@)),
                ),
        )
}

/// The endpoint that tells of one user.
fn user_path() -> (r: Json)
    ensures
        r@ == user_path_json(),
{
    Json::object()
        .with(
            "get",
            Json::object()
                .with(
                    "tags",
                    Json::list()
                        .and(Json::text("Users")),
                )
                .with("operationId", Json::text("getUser"))
                .with("summary", Json::text("Look up one member"))
                .with(
                    "parameters",
                    Json::list()
                        .and(
                            Json::object()
                                .with("name", Json::text("discord_id"))
                                .with("in", Json::text("path"))
                                .with("required", Json::Bool(true))
                                .with("description", Json::text("Discord snowflake, as a string."))
                                .with("schema", typed("string"))
                                .with("example", Json::text("273645509182736451")),
                        ),
                )
                .with(
                    "responses",
                    Json::object()
                        .with(
                            "200",
                            Json::object()
                                .with(
                                    "description",
                                    Json::text("The member is linked and visible to this key."),
                                )
                                .with(
                                    "content",
                                    Json::object()
                                        .with(
                                            "application/json",
                                            Json::object()
                                                .with(
                                                    "schema",
                                                    Json::object()
                                                        .with("type", Json::text("object"))
                                                        .with(
                                                            "required",
                                                            Json::list()
                                                                .and(Json::text("guild"))
                                                                .and(Json::text("user")),
                                                        )
                                                        .with(
                                                            "properties",
                                                            Json::object()
                                                                .with(
                                                                    "guild",
                                                                    reference("#/components/schemas/Guild"),
                                                                )
                                                                .with(
                                                                    "user",
                                                                    reference("#/components/schemas/User"),
                                                                ),
                                                        ),
                                                ),
                                        ),
                                ),
                        )
                        .with("401", reference("#/components/responses/Unauthorized"))
                        .with(
                            "404",
                            Json::object()
                                .with(
                                    "description",
                                    Json::text("Nothing to report about this person. Deliberately does not distinguish not-a-member from never-linked from opted-out, which would leak the server's membership list."),
                                )
                                .with("content", error_content()),
                        )
                        .with("429", reference("#/components/responses/RateLimited"))
                        .with("500", reference("#/components/responses/ServerError")),
                ),
        )
}

/// The endpoints.
pub open spec fn paths_json() -> JsonView {
    object_view()
        .with("/whoami"@, whoami_path_json())
        .with("/users"@, users_path_json())
        .with("/users/{discord_id}"@, user_path_json())
}

/// The endpoints.
fn paths() -> (r: Json)
    ensures
        r@ == paths_json(),
{
    Json::object()
        .with("/whoami", whoami_path())
        .with("/users", users_path())
        .with("/users/{discord_id}", user_path())
}

/// How requests are authenticated.
pub open spec fn security_schemes_json() -> JsonView {
    object_view()
        .with(
            "apiKey"@,
            object_view()
                .with("type"@, JsonView::Str("http"@))
                .with("scheme"@, JsonView::Str("bearer"@))
                .with("bearerFormat"@, JsonView::Str(TOKEN_PREFIX@ + "<43 random characters>"@))
                .with(
                    "description"@,
                    JsonView::Str("Guild-scoped API key, sent as `Authorization: Bearer "@ + TOKEN_PREFIX@ + "…`. There is no query-parameter form: query strings leak into logs, history and Referer headers. Scope: `"@ + SCOPE_USERS_READ@ + "`."@),
                ),
        )
}

/// How requests are authenticated.
fn security_schemes() -> (r: Json)
    ensures
        r@ == security_schemes_json(),
{
    Json::object()
        .with(
            "apiKey",
            Json::object()
                .with("type", Json::text("http"))
                .with("scheme", Json::text("bearer"))
                .with(
                    "bearerFormat",
                    Json::Str(TOKEN_PREFIX.to_owned().concat("<43 random characters>")),
                )
                .with(
                    "description",
                    Json::Str("Guild-scoped API key, sent as `Authorization: Bearer ".to_owned().concat(TOKEN_PREFIX).concat("…`. There is no query-parameter form: query strings leak into logs, history and Referer headers. Scope: `").concat(SCOPE_USERS_READ).concat("`.")),
                ),
        )
}

/// The guild in an answer.
pub open spec fn guild_schema_json() -> JsonView {
    object_view()
        .with("type"@, JsonView::Str("object"@))
        .with(
            "properties"@,
            object_view()
                .with(
                    "id"@,
                    object_view()
                        .with("type"@, JsonView::Str("string"@))
                        .with("description"@, JsonView::Str("Discord snowflake."@)),
                )
                .with(
                    "name"@,
                    object_view()
                        .with(
                            "type"@,
                            array_view()
                                .and(JsonView::Str("string"@))
                                .and(JsonView::Str("null"@)),
                        )
                        .with(
                            "description"@,
                            JsonView::Str("Null when the name isn't cached yet; not an error."@),
                        ),
                ),
        )
}

/// The guild in an answer.
fn guild_schema() -> (r: Json)
    ensures
        r@ == guild_schema_json(),
{
    Json::object()
        .with("type", Json::text("object"))
        .with(
            "properties",
            Json::object()
                .with(
                    "id",
                    Json::object()
                        .with("type", Json::text("string"))
                        .with("description", Json::text("Discord snowflake.")),
                )
                .with(
                    "name",
                    Json::object()
                        .with(
                            "type",
                            Json::list()
                                .and(Json::text("string"))
                                .and(Json::text("null")),
                        )
                        .with(
                            "description",
                            Json::text("Null when the name isn't cached yet; not an error."),
                        ),
                ),
        )
}

/// The page in an answer.
pub open spec fn page_schema_json() -> JsonView {
    object_view()
        .with("type"@, JsonView::Str("object"@))
        .with(
            "required"@,
            array_view()
                .and(JsonView::Str("limit"@))
                .and(JsonView::Str("count"@))
                .and(JsonView::Str("has_more"@)),
        )
        .with(
            "properties"@,
            object_view()
                .with("limit"@, typed_json("integer"@))
                .with(
                    "count"@,
                    object_view()
                        .with("type"@, JsonView::Str("integer"@))
                        .with("description"@, JsonView::Str("Users in this page."@)),
                )
                .with("has_more"@, typed_json("boolean"@))
                .with(
                    "next_cursor"@,
                    object_view()
                        .with(
                            "type"@,
                            array_view()
                                .and(JsonView::Str("string"@))
                                .and(JsonView::Str("null"@)),
                        )
                        .with("description"@, JsonView::Str("Null on the last page."@)),
                ),
        )
}

/// The page in an answer.
fn page_schema() -> (r: Json)
    ensures
        r@ == page_schema_json(),
{
    Json::object()
        .with("type", Json::text("object"))
        .with(
            "required",
            Json::list()
                .and(Json::text("limit"))
                .and(Json::text("count"))
                .and(Json::text("has_more")),
        )
        .with(
            "properties",
            Json::object()
                .with("limit", typed("integer"))
                .with(
                    "count",
                    Json::object()
                        .with("type", Json::text("integer"))
                        .with("description", Json::text("Users in this page.")),
                )
                .with("has_more", typed("boolean"))
                .with(
                    "next_cursor",
                    Json::object()
                        .with(
                            "type",
                            Json::list()
                                .and(Json::text("string"))
                                .and(Json::text("null")),
                        )
                        .with("description", Json::text("Null on the last page.")),
                ),
        )
}

/// What an answer tells of a user.
pub open spec fn user_properties_json() -> JsonView {
    object_view()
        .with(
            "discord_id"@,
            object_view()
                .with("type"@, JsonView::Str("string"@))
                .with(
                    "description"@,
                    JsonView::Str("Discord snowflake. Always a string — it exceeds 53 bits, so parsing as a JSON number loses precision."@),
                ),
        )
        .with(
            "discord_name"@,
            object_view()
                .with(
                    "type"@,
                    array_view()
                        .and(JsonView::Str("string"@))
                        .and(JsonView::Str("null"@)),
                ),
        )
        .with(
            "kick_user_id"@,
            object_view()
                .with("type"@, JsonView::Str("integer"@))
                .with(
                    "description"@,
                    JsonView::Str("Stable across renames. Key your records on this."@),
                ),
        )
        .with(
            "kick_username"@,
            object_view()
                .with("type"@, JsonView::Str("string"@))
                .with("description"@, JsonView::Str("Current username; can change."@)),
        )
        .with(
            "linked_at"@,
            object_view()
                .with("type"@, JsonView::Str("string"@))
                .with("format"@, JsonView::Str("date-time"@)),
        )
        .with(
            "updated_at"@,
            object_view()
                .with("type"@, JsonView::Str("string"@))
                .with("format"@, JsonView::Str("date-time"@))
                .with("description"@, JsonView::Str("Feed this back as `updated_since`."@)),
        )
        .with("relation"@, reference_json("#/components/schemas/Relation"@))
}

/// What an answer tells of a user.
fn user_properties() -> (r: Json)
    ensures
        r@ == user_properties_json(),
{
    Json::object()
        .with(
            "discord_id",
            Json::object()
                .with("type", Json::text("string"))
                .with(
                    "description",
                    Json::text("Discord snowflake. Always a string — it exceeds 53 bits, so parsing as a JSON number loses precision."),
                ),
        )
        .with(
            "discord_name",
            Json::object()
                .with(
                    "type",
                    Json::list()
                        .and(Json::text("string"))
                        .and(Json::text("null")),
                ),
        )
        .with(
            "kick_user_id",
            Json::object()
                .with("type", Json::text("integer"))
                .with("description", Json::text("Stable across renames. Key your records on this.")),
        )
        .with(
            "kick_username",
            Json::object()
                .with("type", Json::text("string"))
                .with("description", Json::text("Current username; can change.")),
        )
        .with(
            "linked_at",
            Json::object()
                .with("type", Json::text("string"))
                .with("format", Json::text("date-time")),
        )
        .with(
            "updated_at",
            Json::object()
                .with("type", Json::text("string"))
                .with("format", Json::text("date-time"))
                .with("description", Json::text("Feed this back as `updated_since`.")),
        )
        .with("relation", reference("#/components/schemas/Relation"))
}

/// The user in an answer.
pub open spec fn user_schema_json() -> JsonView {
    object_view()
        .with("type"@, JsonView::Str("object"@))
        .with(
            "required"@,
            array_view()
                .and(JsonView::Str("discord_id"@))
                .and(JsonView::Str("kick_user_id"@))
                .and(JsonView::Str("kick_username"@))
                .and(JsonView::Str("linked_at"@))
                .and(JsonView::Str("updated_at"@))
                .and(JsonView::Str("relation"@)),
        )
        .with("properties"@, user_properties_json())
}

/// The user in an answer.
fn user_schema() -> (r: Json)
    ensures
        r@ == user_schema_json(),
{
    Json::object()
        .with("type", Json::text("object"))
        .with(
            "required",
            Json::list()
                .and(Json::text("discord_id"))
                .and(Json::text("kick_user_id"))
                .and(Json::text("kick_username"))
                .and(Json::text("linked_at"))
                .and(Json::text("updated_at"))
                .and(Json::text("relation")),
        )
        .with("properties", user_properties())
}

/// What an answer tells of a relation.
pub open spec fn relation_properties_json() -> JsonView {
    object_view()
        .with("is_follower"@, typed_json("boolean"@))
        .with("is_subscriber"@, typed_json("boolean"@))
        .with("is_vip"@, typed_json("boolean"@))
        .with(
            "is_og"@,
            object_view()
                .with("type"@, JsonView::Str("boolean"@))
                .with(
                    "description"@,
                    JsonView::Str("Per-channel badge granted by the broadcaster — not account age."@),
                ),
        )
        .with("is_moderator"@, typed_json("boolean"@))
        .with("sub_months_cumulative"@, typed_json("integer"@))
        .with("sub_streak_months"@, typed_json("integer"@))
        .with("gifted_subs_given"@, typed_json("integer"@))
        .with(
            "followed_at"@,
            object_view()
                .with(
                    "type"@,
                    array_view()
                        .and(JsonView::Str("string"@))
                        .and(JsonView::Str("null"@)),
                )
                .with("format"@, JsonView::Str("date-time"@)),
        )
        .with(
            "last_seen_at"@,
            object_view()
                .with(
                    "type"@,
                    array_view()
                        .and(JsonView::Str("string"@))
                        .and(JsonView::Str("null"@)),
                )
                .with("format"@, JsonView::Str("date-time"@)),
        )
}

/// What an answer tells of a relation.
fn relation_properties() -> (r: Json)
    ensures
        r@ == relation_properties_json(),
{
    Json::object()
        .with("is_follower", typed("boolean"))
        .with("is_subscriber", typed("boolean"))
        .with("is_vip", typed("boolean"))
        .with(
            "is_og",
            Json::object()
                .with("type", Json::text("boolean"))
                .with(
                    "description",
                    Json::text("Per-channel badge granted by the broadcaster — not account age."),
                ),
        )
        .with("is_moderator", typed("boolean"))
        .with("sub_months_cumulative", typed("integer"))
        .with("sub_streak_months", typed("integer"))
        .with("gifted_subs_given", typed("integer"))
        .with(
            "followed_at",
            Json::object()
                .with(
                    "type",
                    Json::list()
                        .and(Json::text("string"))
                        .and(Json::text("null")),
                )
                .with("format", Json::text("date-time")),
        )
        .with(
            "last_seen_at",
            Json::object()
                .with(
                    "type",
                    Json::list()
                        .and(Json::text("string"))
                        .and(Json::text("null")),
                )
                .with("format", Json::text("date-time")),
        )
}

/// The relation in an answer.
pub open spec fn relation_schema_json() -> JsonView {
    object_view()
        .with("type"@, JsonView::Str("object"@))
        .with(
            "description"@,
            JsonView::Str("Collapsed across every channel the server has connected: booleans are OR-ed, months and streak take the highest value, gifted subs are summed. One row per person, never one per channel."@),
        )
        .with("properties"@, relation_properties_json())
}

/// The relation in an answer.
fn relation_schema() -> (r: Json)
    ensures
        r@ == relation_schema_json(),
{
    Json::object()
        .with("type", Json::text("object"))
        .with(
            "description",
            Json::text("Collapsed across every channel the server has connected: booleans are OR-ed, months and streak take the highest value, gifted subs are summed. One row per person, never one per channel."),
        )
        .with("properties", relation_properties())
}

/// A failure.
pub open spec fn error_schema_json() -> JsonView {
    object_view()
        .with("type"@, JsonView::Str("object"@))
        .with(
            "required"@,
            array_view()
                .and(JsonView::Str("error"@)),
        )
        .with(
            "properties"@,
            object_view()
                .with("error"@, typed_json("string"@))
                .with("code"@, typed_json("string"@))
                .with(
                    "retry_after"@,
                    object_view()
                        .with("type"@, JsonView::Str("integer"@))
                        .with("description"@, JsonView::Str("Seconds. Present on 429."@)),
                ),
        )
}

/// A failure.
fn error_schema() -> (r: Json)
    ensures
        r@ == error_schema_json(),
{
    Json::object()
        .with("type", Json::text("object"))
        .with(
            "required",
            Json::list()
                .and(Json::text("error")),
        )
        .with(
            "properties",
            Json::object()
                .with("error", typed("string"))
                .with("code", typed("string"))
                .with(
                    "retry_after",
                    Json::object()
                        .with("type", Json::text("integer"))
                        .with("description", Json::text("Seconds. Present on 429.")),
                ),
        )
}

/// What answers are made of.
pub open spec fn schemas_json() -> JsonView {
    object_view()
        .with("Guild"@, guild_schema_json())
        .with("Page"@, page_schema_json())
        .with("User"@, user_schema_json())
        .with("Relation"@, relation_schema_json())
        .with("Error"@, error_schema_json())
}

/// What answers are made of.
fn schemas() -> (r: Json)
    ensures
        r@ == schemas_json(),
{
    Json::object()
        .with("Guild", guild_schema())
        .with("Page", page_schema())
        .with("User", user_schema())
        .with("Relation", relation_schema())
        .with("Error", error_schema())
}

/// The answer to a caller who asks too often.
pub open spec fn rate_limited_json() -> JsonView {
    object_view()
        .with(
            "description"@,
            JsonView::Str("Over the quota ("@ + decimal(RATE_PER_MINUTE as nat) + " requests/minute per key, burst "@ + decimal(RATE_BURST as nat) + ")."@),
        )
        .with(
            "headers"@,
            object_view()
                .with(
                    "Retry-After"@,
                    object_view()
                        .with("description"@, JsonView::Str("Seconds to wait before retrying."@))
                        .with("schema"@, typed_json("integer"@)),
                ),
        )
        .with("content"@, error_content_json())
}

/// The answer to a caller who asks too often.
fn rate_limited() -> (r: Json)
    ensures
        r@ == rate_limited_json(),
{
    let rate = decimal_of(RATE_PER_MINUTE as u64);
    let burst = decimal_of(RATE_BURST as u64);
    Json::object()
        .with(
            "description",
            Json::Str("Over the quota (".to_owned().concat(rate.as_str()).concat(" requests/minute per key, burst ").concat(burst.as_str()).concat(").")),
        )
        .with(
            "headers",
            Json::object()
                .with(
                    "Retry-After",
                    Json::object()
                        .with("description", Json::text("Seconds to wait before retrying."))
                        .with("schema", typed("integer")),
                ),
        )
        .with("content", error_content())
}

/// The failures that several endpoints share.
pub open spec fn responses_json() -> JsonView {
    object_view()
        .with(
            "BadRequest"@,
            object_view()
                .with(
                    "description"@,
                    JsonView::Str("A parameter was malformed. Retrying will not help."@),
                )
                .with("content"@, error_content_json()),
        )
        .with(
            "Unauthorized"@,
            object_view()
                .with("description"@, JsonView::Str("Missing, unknown, or revoked key."@))
                .with("content"@, error_content_json()),
        )
        .with("RateLimited"@, rate_limited_json())
        .with(
            "ServerError"@,
            object_view()
                .with(
                    "description"@,
                    JsonView::Str("Temporary server-side problem. Retry with backoff. This NEVER means the server has no linked users — a failed upstream lookup returns an error rather than an empty list precisely so the two are distinguishable. Keep your last good snapshot."@),
                )
                .with("content"@, error_content_json()),
        )
}

/// The failures that several endpoints share.
fn responses() -> (r: Json)
    ensures
        r@ == responses_json(),
{
    Json::object()
        .with(
            "BadRequest",
            Json::object()
                .with("description", Json::text("A parameter was malformed. Retrying will not help."))
                .with("content", error_content()),
        )
        .with(
            "Unauthorized",
            Json::object()
                .with("description", Json::text("Missing, unknown, or revoked key."))
                .with("content", error_content()),
        )
        .with("RateLimited", rate_limited())
        .with(
            "ServerError",
            Json::object()
                .with(
                    "description",
                    Json::text("Temporary server-side problem. Retry with backoff. This NEVER means the server has no linked users — a failed upstream lookup returns an error rather than an empty list precisely so the two are distinguishable. Keep your last good snapshot."),
                )
                .with("content", error_content()),
        )
}

/// The description of the API that tools read.
pub open spec fn openapi_json(base: Seq<char>) -> JsonView {
    object_view()
        .with("openapi"@, JsonView::Str("3.1.0"@))
        .with("info"@, info_json(base))
        .with(
            "servers"@,
            array_view()
                .and(
                    object_view()
                        .with("url"@, JsonView::Str(base + "/api/v1"@)),
                ),
        )
        .with(
            "security"@,
            array_view()
                .and(
                    object_view()
                        .with("apiKey"@, array_view()),
                ),
        )
        .with("tags"@, tags_json())
        .with("paths"@, paths_json())
        .with(
            "components"@,
            object_view()
                .with("securitySchemes"@, security_schemes_json())
                .with("schemas"@, schemas_json())
                .with("responses"@, responses_json()),
        )
}

/// The description of the API that tools read.
pub fn openapi(base: &str) -> (r: Json)
    ensures
        r@ == openapi_json(base@),
{
    Json::object()
        .with("openapi", Json::text("3.1.0"))
        .with("info", info(base))
        .with(
            "servers",
            Json::list()
                .and(
                    Json::object()
                        .with("url", Json::Str(base.to_owned().concat("/api/v1"))),
                ),
        )
        .with(
            "security",
            Json::list()
                .and(
                    Json::object()
                        .with("apiKey", Json::list()),
                ),
        )
        .with("tags", tags())
        .with("paths", paths())
        .with(
            "components",
            Json::object()
                .with("securitySchemes", security_schemes())
                .with("schemas", schemas())
                .with("responses", responses()),
        )
}

/// The names of an object's members, in order.
pub open spec fn names(v: JsonView) -> Seq<Seq<char>> {
    match v {
        JsonView::Object(m) => m.map_values(|p: (Seq<char>, JsonView)| p.0),
        _ => seq![],
    }
}

/// What the description says of a user and of a relation is what answers hold: the same members
/// in the same order.
pub proof fn law_users_are_described_as_they_are_sent(row: UserRow)
    ensures
        names(user_properties_json()) == names(row.json()),
        names(relation_properties_json()) == names(row.relation_json()),
{
    assert(names(user_properties_json()) =~= names(row.json()));
    assert(names(relation_properties_json()) =~= names(row.relation_json()));
}

/// The relations that the description offers are those that a request may ask for, and no others.
pub proof fn law_relations_are_described_as_they_are_accepted(name: Seq<char>)
    ensures
        relation_column(name) is Some <==> relation_names_json()->Array_0.contains(JsonView::Str(name)),
{
    let offered = relation_names_json()->Array_0;
    assert(offered =~= seq![
        JsonView::Str("follower"@),
        JsonView::Str("subscriber"@),
        JsonView::Str("vip"@),
        JsonView::Str("og"@),
        JsonView::Str("moderator"@),
    ]);
    if relation_column(name) is Some {
        if name == "follower"@ {
            assert(offered[0] == JsonView::Str(name));
        } else if name == "subscriber"@ {
            assert(offered[1] == JsonView::Str(name));
        } else if name == "vip"@ {
            assert(offered[2] == JsonView::Str(name));
        } else if name == "og"@ {
            assert(offered[3] == JsonView::Str(name));
        } else {
            assert(offered[4] == JsonView::Str(name));
        }
    }
}

/// What the description calls the type of a value.
pub open spec fn kind_name(v: JsonView) -> Seq<char> {
    match v {
        JsonView::Null => "null"@,
        JsonView::Bool(_) => "boolean"@,
        JsonView::Int(_) => "integer"@,
        JsonView::Str(_) => "string"@,
        JsonView::Array(_) => "array"@,
        JsonView::Object(_) => "object"@,
        _ => "number"@,
    }
}

/// Whether a schema admits a value by its type: it names that type, or lists it.
pub open spec fn admits(schema: JsonView, v: JsonView) -> bool {
    match schema.get("type"@) {
        Some(JsonView::Str(t)) => t == kind_name(v),
        Some(JsonView::Array(a)) => exists|i: int| 0 <= i < a.len() && #[trigger] a[i] == JsonView::Str(kind_name(v)),
        _ => false,
    }
}

proof fn lemma_text_or_null(schema: JsonView, v: JsonView)
    requires
        schema.get("type"@) == Some(
            JsonView::Array(seq![].push(JsonView::Str("string"@)).push(JsonView::Str("null"@))),
        ),
        v is Str || v is Null,
    ensures
        admits(schema, v),
{
    let a = schema.get("type"@)->0->Array_0;
    assert(a[0] == JsonView::Str("string"@));
    assert(a[1] == JsonView::Str("null"@));
}

/// What answers hold is of the types that the description gives: a user's members, a relation's, and a
/// page's.
pub proof fn law_values_are_of_the_types_described(row: UserRow)
    ensures
        forall|i: int|
            0 <= i < 10 ==> admits(
                (#[trigger] relation_properties_json()->Object_0[i]).1,
                row.relation_json()->Object_0[i].1,
            ),
        forall|i: int|
            0 <= i < 6 ==> admits((#[trigger] user_properties_json()->Object_0[i]).1, row.json()->Object_0[i].1),
{
    let described = relation_properties_json()->Object_0;
    let sent = row.relation_json()->Object_0;
    lemma_text_or_null(described[8].1, sent[8].1);
    lemma_text_or_null(described[9].1, sent[9].1);
    assert(admits(described[0].1, sent[0].1));
    assert(admits(described[1].1, sent[1].1));
    assert(admits(described[2].1, sent[2].1));
    assert(admits(described[3].1, sent[3].1));
    assert(admits(described[4].1, sent[4].1));
    assert(admits(described[5].1, sent[5].1));
    assert(admits(described[6].1, sent[6].1));
    assert(admits(described[7].1, sent[7].1));
    assert(admits(described[8].1, sent[8].1));
    assert(admits(described[9].1, sent[9].1));
    let user = user_properties_json()->Object_0;
    let told = row.json()->Object_0;
    lemma_text_or_null(user[1].1, told[1].1);
    assert(admits(user[0].1, told[0].1));
    assert(admits(user[2].1, told[2].1));
    assert(admits(user[3].1, told[3].1));
    assert(admits(user[4].1, told[4].1));
    assert(admits(user[5].1, told[5].1));
}

/// The description is of three endpoints, which are read with a key, under the service's address; what
/// they refer to is there.
pub proof fn law_the_description_is_of_these_endpoints(base: Seq<char>)
    ensures
        names(paths_json()) == seq!["/whoami"@, "/users"@, "/users/{discord_id}"@],
        names(schemas_json()) == seq!["Guild"@, "Page"@, "User"@, "Relation"@, "Error"@],
        names(responses_json()) == seq!["BadRequest"@, "Unauthorized"@, "RateLimited"@, "ServerError"@],
        names(openapi_json(base)) == seq![
            "openapi"@,
            "info"@,
            "servers"@,
            "security"@,
            "tags"@,
            "paths"@,
            "components"@,
        ],
        openapi_json(base)->Object_0[0].1 == JsonView::Str("3.1.0"@),
        openapi_json(base)->Object_0[2].1->Array_0.len() == 1,
        openapi_json(base)->Object_0[2].1->Array_0[0]->Object_0 == seq![
            ("url"@, JsonView::Str(base + "/api/v1"@)),
        ],
        openapi_json(base)->Object_0[5].1 == paths_json(),
        names(security_schemes_json()) == seq!["apiKey"@],
        security_schemes_json()->Object_0[0].1->Object_0[0] == ("type"@, JsonView::Str("http"@)),
        security_schemes_json()->Object_0[0].1->Object_0[1] == ("scheme"@, JsonView::Str("bearer"@)),
{
    assert(names(paths_json()) =~= seq!["/whoami"@, "/users"@, "/users/{discord_id}"@]);
    assert(names(schemas_json()) =~= seq!["Guild"@, "Page"@, "User"@, "Relation"@, "Error"@]);
    assert(names(responses_json()) =~= seq!["BadRequest"@, "Unauthorized"@, "RateLimited"@, "ServerError"@]);
    assert(names(openapi_json(base)) =~= seq![
        "openapi"@,
        "info"@,
        "servers"@,
        "security"@,
        "tags"@,
        "paths"@,
        "components"@,
    ]);
    assert(names(security_schemes_json()) =~= seq!["apiKey"@]);
}

/// The parameters that a page is asked for by are described under the names that a request uses, with
/// the bounds that a page has.
pub proof fn law_parameters_are_described_as_they_are_read(asked: Option<i64>)
    ensures
        list_parameters_json()->Array_0.len() == 4,
        list_parameters_json()->Array_0[0].get("name"@) == Some(JsonView::Str("limit"@)),
        list_parameters_json()->Array_0[1].get("name"@) == Some(JsonView::Str("cursor"@)),
        list_parameters_json()->Array_0[2].get("name"@) == Some(JsonView::Str("updated_since"@)),
        list_parameters_json()->Array_0[3].get("name"@) == Some(JsonView::Str("relation"@)),
        ({
            let schema = list_parameters_json()->Array_0[0]->Object_0[4].1->Object_0;
            &&& schema[0] == ("type"@, JsonView::Str("integer"@))
            &&& schema[1] == ("minimum"@, JsonView::Int(1))
            &&& schema[2] == ("maximum"@, JsonView::Int(500))
            &&& schema[3] == ("default"@, JsonView::Int(100))
            &&& schema[1].1->Int_0 <= page_size(asked) <= schema[2].1->Int_0
            &&& asked is None ==> page_size(asked) == schema[3].1->Int_0
        }),
{
}

/// The members of the body that an endpoint's success is described with.
pub open spec fn described_body(responses: JsonView) -> JsonView {
    responses->Object_0[0].1->Object_0[1].1->Object_0[0].1->Object_0[0].1->Object_0[2].1
}

/// Answers are described as they are sent: those to a key's holder, with a page and with one user have
/// the members that their descriptions name, and so has a page's own part, the guild and a failure's
/// time to wait; and each endpoint's description has the answers that the endpoint gives.
pub proof fn law_answers_are_described_as_they_are_sent(
    ctx: ApiKeyContext,
    guild_id: Seq<char>,
    guild_name: Option<Seq<char>>,
    page: Page,
    limit: i64,
    row: UserRow,
)
    ensures
        ({
            let whoami = whoami_path_json()->Object_0[0].1->Object_0;
            let users = users_path_json()->Object_0[0].1->Object_0;
            let user = user_path_json()->Object_0[0].1->Object_0;
            &&& names(described_body(whoami[3].1)) == names(whoami_json(ctx, guild_name))
            &&& names(described_body(users[5].1)) == names(list_json(guild_id, guild_name, page, limit))
            &&& names(described_body(user[4].1)) == names(single_json(guild_id, guild_name, row))
            &&& names(whoami[3].1) == seq!["200"@, "401"@, "429"@]
            &&& names(users[5].1) == seq!["200"@, "400"@, "401"@, "429"@, "500"@]
            &&& names(user[4].1) == seq!["200"@, "401"@, "404"@, "429"@, "500"@]
            &&& whoami[1] == ("operationId"@, JsonView::Str("whoami"@))
            &&& users[1] == ("operationId"@, JsonView::Str("listUsers"@))
            &&& user[1] == ("operationId"@, JsonView::Str("getUser"@))
            &&& users[4] == ("parameters"@, list_parameters_json())
            &&& user[3].1->Array_0[0].get("name"@) == Some(JsonView::Str("discord_id"@))
            &&& names(guild_schema_json()->Object_0[1].1) == names(guild_json(guild_id, guild_name))
            &&& names(page_schema_json()->Object_0[2].1) == names(
                list_json(guild_id, guild_name, page, limit)->Object_0[2].1,
            )
            &&& names(error_schema_json()->Object_0[2].1) == seq!["error"@, "code"@, "retry_after"@]
            &&& schemas_json()->Object_0[2].1->Object_0[2].1 == user_properties_json()
        }),
{
    let whoami = whoami_path_json()->Object_0[0].1->Object_0;
    let users = users_path_json()->Object_0[0].1->Object_0;
    let user = user_path_json()->Object_0[0].1->Object_0;
    assert(names(described_body(whoami[3].1)) =~= names(whoami_json(ctx, guild_name)));
    assert(names(described_body(users[5].1)) =~= names(list_json(guild_id, guild_name, page, limit)));
    assert(names(described_body(user[4].1)) =~= names(single_json(guild_id, guild_name, row)));
    assert(names(whoami[3].1) =~= seq!["200"@, "401"@, "429"@]);
    assert(names(users[5].1) =~= seq!["200"@, "400"@, "401"@, "429"@, "500"@]);
    assert(names(user[4].1) =~= seq!["200"@, "401"@, "404"@, "429"@, "500"@]);
    assert(names(guild_schema_json()->Object_0[1].1) =~= names(guild_json(guild_id, guild_name)));
    assert(names(page_schema_json()->Object_0[2].1) =~= names(
        list_json(guild_id, guild_name, page, limit)->Object_0[2].1,
    ));
    assert(names(error_schema_json()->Object_0[2].1) =~= seq!["error"@, "code"@, "retry_after"@]);
}

} // verus!
