use rag::app_profile::domain::profile_domain::Profile;
use rag::app_profile::handler::profile_handler::claims_user_id;
use rag::app_profile::usecase::profile_usecase::profile_answer;
use rag::config::environment::EnvConfig;
use rag::helper::id::parse_id_or;
use rag::middleware::auth_middleware::{bearer_token, BEARER_PREFIX};
use rag::request::pagination::{page_request, paging_in_range, query_window, PaginationRequest, QueryWindow};
use rag::response::error::{bad_request, not_found, ResponseError};

fn s(v: &str) -> Option<String> {
    Some(v.to_string())
}

#[test]
fn settings_from_values() {
    let r = EnvConfig::from_values(s("pg"), s("b"), s("ak"), s("sk"), s("http://minio"), s("us"), s("col"));
    assert_eq!(
        r,
        Ok(EnvConfig {
            database: "pg".into(),
            storage_bucket: "b".into(),
            storage_access_key: "ak".into(),
            storage_secret_key: "sk".into(),
            storage_region: "us".into(),
            storage_endpoint: "http://minio".into(),
            qdrant_collection: "col".into(),
        })
    );
}

#[test]
fn first_missing_setting_is_reported() {
    let all = || [s("pg"), s("b"), s("ak"), s("sk"), s("e"), s("r"), s("c")];
    let messages = [
        "database is not set",
        "storage bucket is not set",
        "storage access key is not set",
        "storage secret key is not set",
        "storage endpoint is not set",
        "storage region is not set",
        "qdrant collection is not set",
    ];
    for (i, m) in messages.iter().enumerate() {
        let mut v = all();
        v[i] = None;
        if i + 1 < v.len() {
            v[i + 1] = None;
        }
        let [a, b, c, d, e, f, g] = v;
        assert_eq!(EnvConfig::from_values(a, b, c, d, e, f, g), Err(m.to_string()));
    }
}

#[test]
fn bearer_token_cases() {
    assert_eq!(BEARER_PREFIX, "Bearer ");
    assert_eq!(bearer_token(Some("Bearer abc.def")), Ok("abc.def"));
    assert_eq!(bearer_token(Some("Bearer ")), Ok(""));
    assert_eq!(bearer_token(Some("bearer abc")), Err(ResponseError::Unauthorized));
    assert_eq!(bearer_token(Some("Basic abc")), Err(ResponseError::Unauthorized));
    assert_eq!(bearer_token(Some("Bear")), Err(ResponseError::Unauthorized));
    assert_eq!(bearer_token(None), Err(ResponseError::Unauthorized));
    assert_eq!(bearer_token(Some("Bearer ünï")), Ok("ünï"));
}

#[test]
fn query_window_limits_and_offsets() {
    let q = PaginationRequest { page: Some(2), per_page: Some(10), offset: Some(10), search: None, sort: None };
    assert_eq!(query_window(&q, Some(1)), QueryWindow { limit: Some(10), offset: Some(10) });
    let q = PaginationRequest { page: None, per_page: None, offset: None, search: None, sort: None };
    assert_eq!(query_window(&q, Some(10)), QueryWindow { limit: Some(10), offset: None });
    assert_eq!(query_window(&q, None), QueryWindow { limit: None, offset: None });
    let q = PaginationRequest { page: None, per_page: Some(u32::MAX), offset: Some(u32::MAX), search: None, sort: None };
    assert_eq!(query_window(&q, None), QueryWindow { limit: Some(u32::MAX as i64), offset: Some(u32::MAX as i64) });
}

#[test]
fn page_request_offset_is_page_times_size() {
    let q = PaginationRequest { page: Some(5), per_page: None, offset: Some(99), search: Some("x".into()), sort: None };
    let r = page_request(q, Some(7), "name");
    assert_eq!(r, PaginationRequest { page: Some(5), per_page: Some(7), offset: Some(28), search: Some("".into()), sort: Some("name".into()) });
}

#[test]
fn profile_answers() {
    let p = Profile {
        id: "67e55044-10b1-426f-9247-bb680e5fe0c8".into(),
        name: "Ann".into(),
        username: "ann".into(),
        email: "ann@example.com".into(),
        photo_profile: None,
        phone_number: Some("+62".into()),
    };
    assert_eq!(profile_answer(Ok(Some(p.clone()))), Ok(p));
    assert_eq!(profile_answer(Ok(None)), Err(ResponseError::NotFound("profile not found".into())));
    assert_eq!(profile_answer(Err(())), Err(ResponseError::DatabaseError));
}

#[test]
fn token_subject_ids() {
    assert_eq!(claims_user_id("67e55044-10b1-426f-9247-bb680e5fe0c8"), Ok(0x67e5504410b1426f9247bb680e5fe0c8));
    assert_eq!(claims_user_id("67e5504410b1426f9247bb680e5fe0c8"), Ok(0x67e5504410b1426f9247bb680e5fe0c8));
    assert_eq!(claims_user_id("not-a-uuid"), Err(ResponseError::Unauthorized));
    assert_eq!(parse_id_or("", ResponseError::InvalidToken), Err(ResponseError::InvalidToken));
    assert_eq!(
        parse_id_or("{67e55044-10b1-426f-9247-bb680e5fe0c8}", ResponseError::InvalidToken),
        Ok(0x67e5504410b1426f9247bb680e5fe0c8)
    );
}

#[test]
fn response_error_builders() {
    assert_eq!(bad_request("x"), ResponseError::BadRequest("x".into()));
    assert_eq!(not_found("y"), ResponseError::NotFound("y".into()));
}

#[test]
fn page_window_skips_earlier_pages() {
    let q = PaginationRequest { page: Some(3), per_page: Some(15), offset: None, search: None, sort: None };
    let r = page_request(q, None, "-created_at");
    assert_eq!(query_window(&r, None), QueryWindow { limit: Some(15), offset: Some(30) });
    let q = PaginationRequest { page: Some(3), per_page: None, offset: None, search: None, sort: None };
    let r = page_request(q, None, "-created_at");
    assert_eq!(query_window(&r, None), QueryWindow { limit: None, offset: None });
}

#[test]
fn paging_in_range_cases() {
    let q = |page: Option<u32>, per_page: Option<u32>| PaginationRequest { page, per_page, offset: None, search: None, sort: None };
    assert!(paging_in_range(&q(None, None), None));
    assert!(paging_in_range(&q(Some(0), None), None));
    assert!(!paging_in_range(&q(Some(0), None), Some(10)));
    assert!(!paging_in_range(&q(Some(0), Some(5)), None));
    assert!(paging_in_range(&q(Some(2), Some(u32::MAX)), None));
    assert!(!paging_in_range(&q(Some(3), Some(u32::MAX)), None));
    assert!(paging_in_range(&q(Some(u32::MAX), Some(1)), None));
    assert!(!paging_in_range(&q(Some(u32::MAX), Some(2)), None));
}

#[test]
fn ids_of_wrong_length_are_refused() {
    assert_eq!(parse_id_or("67e55044-10b1-426f-9247-bb680e5fe0c", ResponseError::InvalidToken), Err(ResponseError::InvalidToken));
    assert_eq!(parse_id_or("67e55044-10b1-426f-9247-bb680e5fe0c80", ResponseError::InvalidToken), Err(ResponseError::InvalidToken));
    assert_eq!(
        parse_id_or("urn:uuid:67e55044-10b1-426f-9247-bb680e5fe0c8", ResponseError::InvalidToken),
        Ok(0x67e5504410b1426f9247bb680e5fe0c8)
    );
}
