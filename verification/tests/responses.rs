use babe_verify::api::common::types::{
    AppDataQuery, ClientResponse, FfiSafeAppDataQuery, LatestBlockResponse,
};
use hyper::StatusCode;

#[test]
fn status_of_every_answer() {
    assert_eq!(ClientResponse::Normal(LatestBlockResponse { latest_block: 3 }).status_code(), 200);
    assert_eq!(ClientResponse::<u8>::NotFound.status_code(), 404);
    assert_eq!(ClientResponse::<u8>::NotFinalized.status_code(), 400);
    assert_eq!(ClientResponse::<u8>::InProcess.status_code(), 401);
    assert_eq!(ClientResponse::<u8>::Error(String::from("boom")).status_code(), 500);
}

#[test]
fn status_of_every_answer_as_hyper_has_it() {
    assert_eq!(ClientResponse::Normal(7u8).status(), StatusCode::OK);
    assert_eq!(ClientResponse::<u8>::NotFound.status(), StatusCode::NOT_FOUND);
    assert_eq!(ClientResponse::<u8>::NotFinalized.status(), StatusCode::BAD_REQUEST);
    assert_eq!(ClientResponse::<u8>::InProcess.status(), StatusCode::UNAUTHORIZED);
    assert_eq!(
        ClientResponse::<u8>::Error(String::from("boom")).status(),
        StatusCode::INTERNAL_SERVER_ERROR
    );
    // The status holds the number, not the other way round.
    assert_eq!(ClientResponse::<u8>::NotFound.status().as_u16(), 404);
    assert_eq!(ClientResponse::<u8>::NotFound.status().as_str(), "404");
}

#[test]
fn text_of_every_answer() {
    assert_eq!(ClientResponse::Normal(7u8).message(), None);
    assert_eq!(ClientResponse::<u8>::NotFound.message(), Some("Not found"));
    assert_eq!(ClientResponse::<u8>::NotFinalized.message(), Some("Not synced"));
    assert_eq!(ClientResponse::<u8>::InProcess.message(), Some("Processing block"));
    assert_eq!(ClientResponse::<u8>::Error(String::from("boom")).message(), Some("boom"));
}

#[test]
fn queries_hold_their_flag() {
    assert_eq!(AppDataQuery { decode: None }.decode, None);
    assert_eq!(AppDataQuery { decode: Some(true) }.decode, Some(true));
    assert!(!FfiSafeAppDataQuery { decode: false }.decode);
}
