use cms_client::decode::{decode_body, DecodeError};
use cms_client::envelope::{ApiError, ListResponse, WrappingResponse};
use cms_client::id::{AddonInstanceUuid, UuidValue, WebsiteUuid};
use cms_client::locator::{Backend, CollectionName, UuidType};
use cms_client::query::{query_string, CmsQuery};
use cms_client::registration::InstallResponse;
use cms_client::request::{
    finish_import_call, import_data_row_body, import_data_rows_body, unwrap_response,
    CallFailure, RequestError, SimpleValue,
};
use cms_client::routes::{
    create_cms_collection_tags_url, create_cms_collection_url, create_website_form_action_url,
    create_website_form_url, get_cms_row_by_id_url, import_data_rows_url, query_cms_rows_url,
};

fn site_x() -> UuidType {
    UuidType::Site(WebsiteUuid::from_value(0x00112233_4455_6677_8899_aabbccddeeff))
}

fn addon_y() -> UuidType {
    UuidType::Addon(AddonInstanceUuid::from_value(0xffee_ddcc_bbaa))
}

fn posts() -> CollectionName {
    CollectionName::new(String::from("posts"))
}

#[test]
fn list_response_all_covers_everything() {
    let r = ListResponse::all(vec![10, 20, 30]);
    assert_eq!(r.offset, 0);
    assert_eq!(r.limit, 3);
    assert_eq!(r.total, 3);
    assert_eq!(r.items, vec![10, 20, 30]);
    let empty: ListResponse<u32> = ListResponse::all(vec![]);
    assert_eq!(empty.offset, 0);
    assert_eq!(empty.limit, 0);
    assert_eq!(empty.total, 0);
}

#[test]
fn query_url_site_template() {
    let mut q = CmsQuery::new();
    q.limit = Some(10);
    let url = query_cms_rows_url(&site_x(), &posts(), &q);
    assert_eq!(
        url,
        "http://127.0.0.1:5998/cms/s:00112233-4455-6677-8899-aabbccddeeff/data/posts/query?limit=10"
    );
}

#[test]
fn query_url_addon_template() {
    let mut q = CmsQuery::new();
    q.limit = Some(10);
    let url = query_cms_rows_url(&addon_y(), &posts(), &q);
    assert_eq!(
        url,
        "http://127.0.0.1:5950/addon/00000000-0000-0000-0000-ffeeddccbbaa/schema/posts/query?limit=10"
    );
}

#[test]
fn query_string_orders_keys_deterministically() {
    let mut q = CmsQuery::new();
    assert_eq!(query_string(&q), "");
    q.limit = Some(10);
    assert_eq!(query_string(&q), "limit=10");
    q.offset = Some(5);
    assert_eq!(query_string(&q), "offset=5&limit=10");
    q.search = Some(String::from("abc"));
    assert_eq!(query_string(&q), "offset=5&limit=10&search=abc");
}

#[test]
fn query_string_largest_offset() {
    let mut q = CmsQuery::new();
    q.offset = Some(u64::MAX);
    assert_eq!(query_string(&q), "offset=18446744073709551615");
}

#[test]
fn query_string_percent_encodes_search() {
    let mut q = CmsQuery::new();
    q.search = Some(String::from("hello world/100%"));
    assert_eq!(query_string(&q), "search=hello%20world%2F100%25");
    q.search = Some(String::from("caf\u{e9}"));
    assert_eq!(query_string(&q), "search=caf%C3%A9");
    q.search = Some(String::from("a-b_c.d~e"));
    assert_eq!(query_string(&q), "search=a-b_c.d~e");
}

#[test]
fn row_url_both_templates() {
    assert_eq!(
        get_cms_row_by_id_url(&site_x(), &posts(), "row-1"),
        "http://127.0.0.1:5998/cms/s:00112233-4455-6677-8899-aabbccddeeff/data/posts/row/row-1"
    );
    assert_eq!(
        get_cms_row_by_id_url(&addon_y(), &posts(), "row-1"),
        "http://127.0.0.1:5950/addon/00000000-0000-0000-0000-ffeeddccbbaa/schema/posts/row/row-1"
    );
}

#[test]
fn create_collection_url_both_templates() {
    assert_eq!(
        create_cms_collection_url(&site_x()),
        "http://127.0.0.1:5998/cms/s:00112233-4455-6677-8899-aabbccddeeff/new"
    );
    assert_eq!(
        create_cms_collection_url(&addon_y()),
        "http://127.0.0.1:5950/addon/00000000-0000-0000-0000-ffeeddccbbaa/schema/new"
    );
}

#[test]
fn tag_url_both_templates() {
    assert_eq!(
        create_cms_collection_tags_url(&site_x(), &posts(), "col9"),
        "http://127.0.0.1:5998/cms/s:00112233-4455-6677-8899-aabbccddeeff/data/posts/column/col9/tag"
    );
    assert_eq!(
        create_cms_collection_tags_url(&addon_y(), &posts(), "col9"),
        "http://127.0.0.1:5950/addon/00000000-0000-0000-0000-ffeeddccbbaa/schema/posts/column/col9/tag"
    );
}

#[test]
fn import_url_both_templates() {
    assert_eq!(
        import_data_rows_url(&site_x(), &posts()),
        "http://127.0.0.1:5998/cms/s:00112233-4455-6677-8899-aabbccddeeff/data/posts/import"
    );
    assert_eq!(
        import_data_rows_url(&addon_y(), &posts()),
        "http://127.0.0.1:5950/addon/00000000-0000-0000-0000-ffeeddccbbaa/schema/posts/import"
    );
}

#[test]
fn form_urls_site_only() {
    let w = WebsiteUuid::from_value(3);
    assert_eq!(
        create_website_form_url(&w),
        "http://127.0.0.1:5998/form/00000000-0000-0000-0000-000000000003/create"
    );
    assert_eq!(
        create_website_form_action_url(&w, &UuidValue::from_value(4)),
        "http://127.0.0.1:5998/form/00000000-0000-0000-0000-000000000003/00000000-0000-0000-0000-000000000004/actions"
    );
}

#[test]
fn map_transforms_success_only() {
    let ok: WrappingResponse<u32> = WrappingResponse::Resp(21);
    let doubled = ok.map(|v| v * 2);
    assert_eq!(doubled, WrappingResponse::Resp(42));

    let err: WrappingResponse<u32> = WrappingResponse::error(String::from("boom"));
    let mapped = err.map(|v| v * 2);
    assert_eq!(
        mapped,
        WrappingResponse::Error(ApiError {
            description: String::from("boom")
        })
    );
}

#[test]
fn map_identity_and_composition() {
    let w: WrappingResponse<u32> = WrappingResponse::Resp(7);
    assert_eq!(w.clone().map(|v| v), w);
    let once = w.clone().map(|v| v + 1).map(|v| v * 3);
    let composed = w.map(|v| (v + 1) * 3);
    assert_eq!(once, composed);
}

#[test]
fn ok_unwraps_both_sides() {
    let ok: WrappingResponse<u32> = WrappingResponse::Resp(5);
    assert_eq!(ok.ok(), Ok(5));
    let err: WrappingResponse<u32> = WrappingResponse::error(String::from("nope"));
    assert_eq!(
        err.ok(),
        Err(ApiError {
            description: String::from("nope")
        })
    );
}

#[test]
fn as_ok_borrows_both_sides() {
    let ok: WrappingResponse<u32> = WrappingResponse::Resp(5);
    assert_eq!(ok.as_ok(), Ok(&5));
    let err: WrappingResponse<u32> = WrappingResponse::error(String::from("nope"));
    assert_eq!(
        err.as_ok(),
        Err(&ApiError {
            description: String::from("nope")
        })
    );
}

#[test]
fn decode_success_body() {
    let r = decode_body(true, "{\"type\":\"Resp\",\"value\":{\"id\":1}}").unwrap();
    assert_eq!(r, WrappingResponse::Resp(String::from("{\"id\":1}")));
}

#[test]
fn decode_success_status_rejects_other_bodies() {
    assert_eq!(
        decode_body(true, "oops"),
        Err(DecodeError {
            body: String::from("oops")
        })
    );
    assert_eq!(
        decode_body(true, "{\"type\":\"Error\",\"value\":{\"description\":\"x\"}}"),
        Err(DecodeError {
            body: String::from("{\"type\":\"Error\",\"value\":{\"description\":\"x\"}}")
        })
    );
}

#[test]
fn decode_error_envelope() {
    let r = decode_body(false, "{\"type\":\"Error\",\"value\":{\"description\":\"not found\"}}")
        .unwrap();
    let failure = unwrap_response::<String>(Backend::Site, r).unwrap_err();
    assert_eq!(failure.description, "not found");
    assert_eq!(failure.message(), "API Response Error: not found");
}

#[test]
fn decode_error_envelope_with_escapes() {
    let body = "{\"type\":\"Error\",\"value\":{\"description\":\"a\\\"b\\\\c\\nd\\u0007e\"}}";
    let r = decode_body(false, body).unwrap();
    match r {
        WrappingResponse::Error(e) => {
            assert_eq!(e.description, "a\"b\\c\nd\u{7}e");
        }
        WrappingResponse::Resp(_) => panic!("error body decoded as success"),
    }
}

#[test]
fn decode_fallback_keeps_raw_body() {
    let r = decode_body(false, "not json").unwrap();
    assert_eq!(
        r,
        WrappingResponse::Error(ApiError {
            description: String::from("not json")
        })
    );
}

#[test]
fn unwrap_response_annotates_backend() {
    let err: WrappingResponse<u32> = WrappingResponse::error(String::from("bad"));
    let site_err = unwrap_response(Backend::Site, err.clone()).unwrap_err();
    assert_eq!(site_err.message(), "API Response Error: bad");
    let addon_err = unwrap_response(Backend::Addon, err).unwrap_err();
    assert_eq!(addon_err.message(), "Addon Response Error: bad");
    assert_eq!(
        addon_err,
        RequestError {
            backend: Backend::Addon,
            description: String::from("bad")
        }
    );
    let ok: Result<u32, RequestError> = unwrap_response(Backend::Site, WrappingResponse::Resp(9));
    assert_eq!(ok, Ok(9));
}

#[test]
fn import_rows_body_serializes_mapping() {
    let rows = vec![
        (
            String::from("name"),
            vec![
                SimpleValue::Text(String::from("x")),
                SimpleValue::Number(-5),
                SimpleValue::Bool(true),
                SimpleValue::Null,
            ],
        ),
        (String::from("age"), vec![SimpleValue::Number(30)]),
    ];
    assert_eq!(
        import_data_rows_body(&rows),
        "{\"name\":[\"x\",-5,true,null],\"age\":[30]}"
    );
}

#[test]
fn import_rows_body_escapes_text() {
    let rows = vec![(
        String::from("k\"ey"),
        vec![SimpleValue::Text(String::from("a\"b\\c\nd"))],
    )];
    assert_eq!(
        import_data_rows_body(&rows),
        "{\"k\\\"ey\":[\"a\\\"b\\\\c\\nd\"]}"
    );
}

#[test]
fn import_rows_body_smallest_number() {
    let rows = vec![(String::from("n"), vec![SimpleValue::Number(i64::MIN)])];
    assert_eq!(
        import_data_rows_body(&rows),
        "{\"n\":[-9223372036854775808]}"
    );
}

#[test]
fn import_row_wraps_each_value_in_one_element_sequence() {
    let single = vec![(String::from("k"), SimpleValue::Text(String::from("v")))];
    let wrapped = vec![(
        String::from("k"),
        vec![SimpleValue::Text(String::from("v"))],
    )];
    assert_eq!(import_data_row_body(&single), import_data_rows_body(&wrapped));
    assert_eq!(import_data_row_body(&single), "{\"k\":[\"v\"]}");
}

#[test]
fn finish_import_returns_job_identifier() {
    let r = finish_import_call(Backend::Site, true, "{\"type\":\"Resp\",\"value\":\"import-123\"}");
    assert_eq!(r, Ok(String::from("import-123")));
}

#[test]
fn finish_import_rejects_non_string_payload() {
    let r = finish_import_call(Backend::Site, true, "{\"type\":\"Resp\",\"value\":7}");
    match r {
        Err(CallFailure::Decode(e)) => assert_eq!(e.body, "{\"type\":\"Resp\",\"value\":7}"),
        other => panic!("expected a decode failure, got {:?}", other),
    }
}

#[test]
fn finish_import_surfaces_backend_error() {
    let r = finish_import_call(
        Backend::Addon,
        false,
        "{\"type\":\"Error\",\"value\":{\"description\":\"full\"}}",
    );
    match r {
        Err(CallFailure::Api(e)) => {
            assert_eq!(e.message(), "Addon Response Error: full");
        }
        other => panic!("expected an error envelope failure, got {:?}", other),
    }
    let fallback = finish_import_call(Backend::Site, false, "bad gateway");
    match fallback {
        Err(CallFailure::Api(e)) => assert_eq!(e.description, "bad gateway"),
        other => panic!("expected the lenient fallback, got {:?}", other),
    }
}

#[test]
fn install_response_shapes() {
    assert!(InstallResponse::Complete.is_complete());
    let redirect = InstallResponse::Redirect(String::from("https://example.test/setup"));
    assert!(!redirect.is_complete());
    assert_eq!(
        redirect.redirect_location(),
        Some(String::from("https://example.test/setup"))
    );
    assert_eq!(InstallResponse::Complete.redirect_location(), None);
}
