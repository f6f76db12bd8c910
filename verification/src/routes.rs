//! The dispatch router: resolves a locator, collection and operation into a
//! fully-qualified backend URL.
//!
//! Every operation's URL is one of exactly two fixed templates, chosen by the
//! locator variant; the match is exhaustive by construction, with no default
//! branch. The router performs no I/O and has no side effects.

use vstd::prelude::*;
use crate::id::{uuid_chars, UuidValue, WebsiteUuid};
use crate::locator::{CollectionName, UuidType};
use crate::query::{query_string, spec_query_string, CmsQuery};
use crate::strutil::{append_str_chars, chars_to_string};

verus! {

/// The base address of the main (site) backend.
pub open spec fn main_api_address() -> Seq<char> {
    "http://127.0.0.1:5998"@
}

/// The base address of the addon backend.
pub open spec fn addon_address() -> Seq<char> {
    "http://127.0.0.1:5950"@
}

/// The data scope that owns a collection: the site template
/// `{main}/cms/s:{id}/data/{collection}` or the addon template
/// `{addon}/addon/{id}/schema/{collection}`.
pub open spec fn spec_data_scope_url(uuid: UuidType, coll: Seq<char>) -> Seq<char> {
    match uuid {
        UuidType::Site(id) => main_api_address() + "/cms/s:"@ + uuid_chars(id.0.value as nat)
            + "/data/"@ + coll,
        UuidType::Addon(id) => addon_address() + "/addon/"@ + uuid_chars(id.0.value as nat)
            + "/schema/"@ + coll,
    }
}

/// Appends the rendered identifier text.
fn append_uuid(out: &mut Vec<char>, v: &UuidValue)
    ensures
        final(out)@ == old(out)@ + uuid_chars(v.value as nat),
{
    let rendered = v.render();
    append_str_chars(out, rendered.as_str());
}

/// Appends the data scope of `(uuid, coll)`.
fn append_data_scope(out: &mut Vec<char>, uuid: &UuidType, coll: &CollectionName)
    ensures
        final(out)@ == old(out)@ + spec_data_scope_url(*uuid, coll.name@),
{
    match uuid {
        UuidType::Site(id) => {
            append_str_chars(out, "http://127.0.0.1:5998");
            append_str_chars(out, "/cms/s:");
            append_uuid(out, &id.0);
            append_str_chars(out, "/data/");
            append_str_chars(out, coll.name.as_str());
            assert(out@ =~= old(out)@ + spec_data_scope_url(*uuid, coll.name@));
        },
        UuidType::Addon(id) => {
            append_str_chars(out, "http://127.0.0.1:5950");
            append_str_chars(out, "/addon/");
            append_uuid(out, &id.0);
            append_str_chars(out, "/schema/");
            append_str_chars(out, coll.name.as_str());
            assert(out@ =~= old(out)@ + spec_data_scope_url(*uuid, coll.name@));
        },
    }
}

/// The URL a row query is sent to: the data scope followed by
/// `/query?{query-string}`.
pub open spec fn spec_query_cms_rows_url(uuid: UuidType, coll: Seq<char>, q: CmsQuery) -> Seq<
    char,
> {
    spec_data_scope_url(uuid, coll) + "/query?"@ + spec_query_string(q)
}

/// Builds the row-query URL for a locator, collection and query.
pub fn query_cms_rows_url(uuid: &UuidType, collection: &CollectionName, query: &CmsQuery) -> (r:
    String)
    ensures
        r@ == spec_query_cms_rows_url(*uuid, collection.name@, *query),
{
    let mut out: Vec<char> = Vec::new();
    append_data_scope(&mut out, uuid, collection);
    append_str_chars(&mut out, "/query?");
    let qs = query_string(query);
    append_str_chars(&mut out, qs.as_str());
    assert(out@ =~= spec_query_cms_rows_url(*uuid, collection.name@, *query));
    chars_to_string(&out)
}

/// The URL a single row is fetched from: the data scope followed by
/// `/row/{row_id}`.
pub open spec fn spec_get_cms_row_by_id_url(uuid: UuidType, coll: Seq<char>, row_id: Seq<char>)
    -> Seq<char> {
    spec_data_scope_url(uuid, coll) + "/row/"@ + row_id
}

/// Builds the single-row URL for a locator, collection and row id.
pub fn get_cms_row_by_id_url(uuid: &UuidType, collection: &CollectionName, row_id: &str) -> (r:
    String)
    ensures
        r@ == spec_get_cms_row_by_id_url(*uuid, collection.name@, row_id@),
{
    let mut out: Vec<char> = Vec::new();
    append_data_scope(&mut out, uuid, collection);
    append_str_chars(&mut out, "/row/");
    append_str_chars(&mut out, row_id);
    assert(out@ =~= spec_get_cms_row_by_id_url(*uuid, collection.name@, row_id@));
    chars_to_string(&out)
}

/// The URL a new collection is created at: `{main}/cms/s:{id}/new` on the
/// site backend, `{addon}/addon/{id}/schema/new` on the addon backend.
pub open spec fn spec_create_cms_collection_url(uuid: UuidType) -> Seq<char> {
    match uuid {
        UuidType::Site(id) => main_api_address() + "/cms/s:"@ + uuid_chars(id.0.value as nat)
            + "/new"@,
        UuidType::Addon(id) => addon_address() + "/addon/"@ + uuid_chars(id.0.value as nat)
            + "/schema/new"@,
    }
}

/// Builds the collection-creation URL for a locator.
pub fn create_cms_collection_url(uuid: &UuidType) -> (r: String)
    ensures
        r@ == spec_create_cms_collection_url(*uuid),
{
    let mut out: Vec<char> = Vec::new();
    match uuid {
        UuidType::Site(id) => {
            append_str_chars(&mut out, "http://127.0.0.1:5998");
            append_str_chars(&mut out, "/cms/s:");
            append_uuid(&mut out, &id.0);
            append_str_chars(&mut out, "/new");
        },
        UuidType::Addon(id) => {
            append_str_chars(&mut out, "http://127.0.0.1:5950");
            append_str_chars(&mut out, "/addon/");
            append_uuid(&mut out, &id.0);
            append_str_chars(&mut out, "/schema/new");
        },
    }
    assert(out@ =~= spec_create_cms_collection_url(*uuid));
    chars_to_string(&out)
}

/// The URL a column tag is created at: the data scope followed by
/// `/column/{column_id}/tag`.
pub open spec fn spec_create_cms_collection_tags_url(
    uuid: UuidType,
    coll: Seq<char>,
    column_id: Seq<char>,
) -> Seq<char> {
    spec_data_scope_url(uuid, coll) + "/column/"@ + column_id + "/tag"@
}

/// Builds the tag-creation URL for a locator, collection and column.
pub fn create_cms_collection_tags_url(
    uuid: &UuidType,
    collection: &CollectionName,
    column_id: &str,
) -> (r: String)
    ensures
        r@ == spec_create_cms_collection_tags_url(*uuid, collection.name@, column_id@),
{
    let mut out: Vec<char> = Vec::new();
    append_data_scope(&mut out, uuid, collection);
    append_str_chars(&mut out, "/column/");
    append_str_chars(&mut out, column_id);
    append_str_chars(&mut out, "/tag");
    assert(out@ =~= spec_create_cms_collection_tags_url(*uuid, collection.name@, column_id@));
    chars_to_string(&out)
}

/// The URL a bulk import is posted to: the data scope followed by `/import`.
pub open spec fn spec_import_data_rows_url(uuid: UuidType, coll: Seq<char>) -> Seq<char> {
    spec_data_scope_url(uuid, coll) + "/import"@
}

/// Builds the bulk-import URL for a locator and collection.
pub fn import_data_rows_url(uuid: &UuidType, collection: &CollectionName) -> (r: String)
    ensures
        r@ == spec_import_data_rows_url(*uuid, collection.name@),
{
    let mut out: Vec<char> = Vec::new();
    append_data_scope(&mut out, uuid, collection);
    append_str_chars(&mut out, "/import");
    assert(out@ =~= spec_import_data_rows_url(*uuid, collection.name@));
    chars_to_string(&out)
}

/// The URL a website form is created at: `{main}/form/{site_id}/create`.
/// Forms live on the site backend only; no addon template exists for them.
pub open spec fn spec_create_website_form_url(website_id: WebsiteUuid) -> Seq<char> {
    main_api_address() + "/form/"@ + uuid_chars(website_id.0.value as nat) + "/create"@
}

/// Builds the form-creation URL for a website.
pub fn create_website_form_url(website_id: &WebsiteUuid) -> (r: String)
    ensures
        r@ == spec_create_website_form_url(*website_id),
{
    let mut out: Vec<char> = Vec::new();
    append_str_chars(&mut out, "http://127.0.0.1:5998");
    append_str_chars(&mut out, "/form/");
    append_uuid(&mut out, &website_id.0);
    append_str_chars(&mut out, "/create");
    assert(out@ =~= spec_create_website_form_url(*website_id));
    chars_to_string(&out)
}

/// The URL a form action is posted to:
/// `{main}/form/{site_id}/{form_id}/actions`; site backend only.
pub open spec fn spec_create_website_form_action_url(
    website_id: WebsiteUuid,
    form_id: UuidValue,
) -> Seq<char> {
    main_api_address() + "/form/"@ + uuid_chars(website_id.0.value as nat) + "/"@ + uuid_chars(
        form_id.value as nat,
    ) + "/actions"@
}

/// Builds the form-action URL for a website and form.
pub fn create_website_form_action_url(website_id: &WebsiteUuid, form_id: &UuidValue) -> (r:
    String)
    ensures
        r@ == spec_create_website_form_action_url(*website_id, *form_id),
{
    let mut out: Vec<char> = Vec::new();
    append_str_chars(&mut out, "http://127.0.0.1:5998");
    append_str_chars(&mut out, "/form/");
    append_uuid(&mut out, &website_id.0);
    append_str_chars(&mut out, "/");
    append_uuid(&mut out, form_id);
    append_str_chars(&mut out, "/actions");
    assert(out@ =~= spec_create_website_form_action_url(*website_id, *form_id));
    chars_to_string(&out)
}

/// Every data operation's scope is one of exactly two fixed templates:
/// the site template under the main backend address or the addon template
/// under the addon address.
pub proof fn lemma_data_scope_two_templates(uuid: UuidType, coll: Seq<char>)
    ensures
        match uuid {
            UuidType::Site(id) => spec_data_scope_url(uuid, coll) == main_api_address()
                + "/cms/s:"@ + uuid_chars(id.0.value as nat) + "/data/"@ + coll,
            UuidType::Addon(id) => spec_data_scope_url(uuid, coll) == addon_address()
                + "/addon/"@ + uuid_chars(id.0.value as nat) + "/schema/"@ + coll,
        },
{
}

/// The router resolves every `(locator, collection, query)` into one of
/// exactly two fixed templates: the site template under the main backend
/// address or the addon template under the addon address, each with the
/// deterministic query string of `q` after `?`.
pub proof fn lemma_query_url_two_templates(uuid: UuidType, coll: Seq<char>, q: CmsQuery)
    ensures
        match uuid {
            UuidType::Site(id) => spec_query_cms_rows_url(uuid, coll, q) == main_api_address()
                + "/cms/s:"@ + uuid_chars(id.0.value as nat) + "/data/"@ + coll + "/query?"@
                + spec_query_string(q),
            UuidType::Addon(id) => spec_query_cms_rows_url(uuid, coll, q) == addon_address()
                + "/addon/"@ + uuid_chars(id.0.value as nat) + "/schema/"@ + coll + "/query?"@
                + spec_query_string(q),
        },
{
    match uuid {
        UuidType::Site(id) => {
            assert(spec_query_cms_rows_url(uuid, coll, q) =~= main_api_address() + "/cms/s:"@
                + uuid_chars(id.0.value as nat) + "/data/"@ + coll + "/query?"@
                + spec_query_string(q));
        },
        UuidType::Addon(id) => {
            assert(spec_query_cms_rows_url(uuid, coll, q) =~= addon_address() + "/addon/"@
                + uuid_chars(id.0.value as nat) + "/schema/"@ + coll + "/query?"@
                + spec_query_string(q));
        },
    }
}

} // verus!
