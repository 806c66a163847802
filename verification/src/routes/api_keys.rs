//! A manager's dealings with a guild's keys.

use vstd::prelude::*;
use vstd::string::*;

use crate::error::{AppError, ErrorView};
use crate::json::{array_view, object_view, Json, JsonView};
use crate::routes::api_v1::{
    json_strings, json_time, json_time_or_null, strings_json, time_json, time_or_null,
};
use crate::services::api_key::{Minted, MAX_ACTIVE_KEYS_PER_GUILD, SCOPE_USERS_READ};
use crate::text::{decimal, decimal_of, texts, trim, trimmed};
use crate::time::{valid_opt, Timestamp};

verus! {

/// How many characters a key's label may have.
pub const MAX_LABEL_LEN: usize = 60;

/// A key as a manager sees it.
#[derive(Debug)]
pub struct KeyRow {
    pub id: i64,
    pub label: String,
    pub prefix: String,
    pub scopes: Vec<String>,
    pub created_by: String,
    pub created_at: Timestamp,
    pub last_used_at: Option<Timestamp>,
}

impl KeyRow {
    /// Whether the row's instants are in the calendar.
    pub open spec fn valid(self) -> bool {
        self.created_at.valid() && valid_opt(self.last_used_at)
    }

    /// What a manager is told of the key.
    pub open spec fn json(self) -> JsonView {
        object_view().with("id"@, JsonView::Int(self.id)).with("label"@, JsonView::Str(self.label@)).with(
            "prefix"@,
            JsonView::Str(self.prefix@),
        ).with("scopes"@, strings_json(texts(self.scopes@))).with(
            "created_by"@,
            JsonView::Str(self.created_by@),
        ).with("created_at"@, time_json(self.created_at)).with("last_used_at"@, time_or_null(self.last_used_at))
    }

    /// What a manager is told of the key.
    pub fn to_json(&self) -> (r: Json)
        requires
            self.valid(),
        ensures
            r@ == self.json(),
    {
        Json::object().with("id", Json::Int(self.id)).with("label", Json::text(self.label.as_str())).with(
            "prefix",
            Json::text(self.prefix.as_str()),
        ).with("scopes", json_strings(&self.scopes)).with("created_by", Json::text(self.created_by.as_str())).with(
            "created_at",
            json_time(self.created_at),
        ).with("last_used_at", json_time_or_null(self.last_used_at))
    }
}

/// What a manager is told of the keys.
pub open spec fn key_list(rows: Seq<KeyRow>) -> JsonView
    decreases rows.len(),
{
    if rows.len() == 0 {
        array_view()
    } else {
        key_list(rows.drop_last()).and(rows.last().json())
    }
}

/// What a manager is told of a guild's keys.
pub fn list_body(rows: &Vec<KeyRow>, base_url: &str) -> (r: Json)
    requires
        forall|i: int| 0 <= i < rows.len() ==> (#[trigger] rows@[i]).valid(),
    ensures
        r@ == object_view().with("keys"@, key_list(rows@)).with(
            "max_keys"@,
            JsonView::Int(MAX_ACTIVE_KEYS_PER_GUILD),
        ).with("docs_url"@, JsonView::Str(base_url@ + "/api/v1"@)),
{
    let mut keys = Json::list();
    let mut i: usize = 0;
    assert(rows@.take(0) =~= seq![]);
    while i < rows.len()
        invariant
            i <= rows.len(),
            forall|j: int| 0 <= j < rows.len() ==> (#[trigger] rows@[j]).valid(),
            keys@ == key_list(rows@.take(i as int)),
        decreases rows.len() - i,
    {
        assert(rows@.take(i + 1).drop_last() =~= rows@.take(i as int));
        assert(rows@.take(i + 1).last() == rows@[i as int]);
        keys = keys.and(rows[i].to_json());
        i = i + 1;
    }
    assert(rows@.take(i as int) =~= rows@);
    Json::object().with("keys", keys).with("max_keys", Json::Int(MAX_ACTIVE_KEYS_PER_GUILD)).with(
        "docs_url",
        Json::Str(base_url.to_owned().concat("/api/v1")),
    )
}

/// What a manager asks for.
#[derive(Debug)]
pub struct CreateBody {
    pub label: String,
}

/// The label that a key gets, or why it gets none.
pub open spec fn label_of(label: Seq<char>) -> Result<Seq<char>, ErrorView> {
    let label = trimmed(label);
    if label.len() == 0 {
        Err(ErrorView::BadRequest("Give the key a label so you can tell your integrations apart."@))
    } else if label.len() > MAX_LABEL_LEN {
        Err(
            ErrorView::BadRequest(
                "Label is too long (max "@ + decimal(MAX_LABEL_LEN as nat) + " characters)."@,
            ),
        )
    } else {
        Ok(label)
    }
}

/// The label that a key gets.
pub fn check_label(body: &CreateBody) -> (r: Result<String, AppError>)
    ensures
        match label_of(body.label@) {
            Ok(label) => r is Ok && r->Ok_0@ == label,
            Err(e) => r is Err && r->Err_0@ == e,
        },
{
    let label = trim(body.label.as_str());
    let length: usize = label.as_str().unicode_len();
    if length == 0 {
        return Err(
            AppError::BadRequest("Give the key a label so you can tell your integrations apart.".to_owned()),
        );
    }
    if length > MAX_LABEL_LEN {
        let most = decimal_of(MAX_LABEL_LEN as u64);
        return Err(
            AppError::BadRequest(
                "Label is too long (max ".to_owned().concat(most.as_str()).concat(" characters)."),
            ),
        );
    }
    Ok(label)
}

/// Whether a guild with so many live keys may have another.
pub fn check_quota(live: i64) -> (r: Result<(), AppError>)
    ensures
        if live >= MAX_ACTIVE_KEYS_PER_GUILD {
            r is Err && r->Err_0@ == ErrorView::BadRequest(
                "This server already has "@ + decimal(MAX_ACTIVE_KEYS_PER_GUILD as nat)
                    + " active API keys. Revoke one before creating another."@,
            )
        } else {
            r is Ok
        },
{
    if live >= MAX_ACTIVE_KEYS_PER_GUILD {
        let most = decimal_of(MAX_ACTIVE_KEYS_PER_GUILD as u64);
        return Err(
            AppError::BadRequest(
                "This server already has ".to_owned().concat(most.as_str()).concat(
                    " active API keys. Revoke one before creating another.",
                ),
            ),
        );
    }
    Ok(())
}

/// The answer with a new key: the one time that the key itself is shown.
pub fn created_body(id: i64, label: &str, minted: &Minted) -> (r: Json)
    ensures
        r@ == object_view().with("id"@, JsonView::Int(id)).with("label"@, JsonView::Str(label@)).with(
            "prefix"@,
            JsonView::Str(minted.prefix@),
        ).with("scopes"@, array_view().and(JsonView::Str(SCOPE_USERS_READ@))).with(
            "token"@,
            JsonView::Str(minted.raw@),
        ).with(
            "warning"@,
            JsonView::Str("Copy this token now — it is stored hashed and cannot be shown again."@),
        ),
{
    Json::object().with("id", Json::Int(id)).with("label", Json::text(label)).with(
        "prefix",
        Json::text(minted.prefix.as_str()),
    ).with("scopes", Json::list().and(Json::text(SCOPE_USERS_READ))).with(
        "token",
        Json::text(minted.raw.as_str()),
    ).with("warning", Json::text("Copy this token now — it is stored hashed and cannot be shown again."))
}

/// What a manager is told after revoking a key, by how many keys that changed.
pub fn revoked(affected: u64) -> (r: Result<(), AppError>)
    ensures
        if affected == 0 {
            r is Err && r->Err_0@ == ErrorView::NotFound("No such active API key for this server."@)
        } else {
            r is Ok
        },
{
    if affected == 0 {
        return Err(AppError::NotFound("No such active API key for this server.".to_owned()));
    }
    Ok(())
}

} // verus!
