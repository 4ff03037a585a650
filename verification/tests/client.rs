use jm_downloader::{
    build_api_url, build_auth, chapter_query, comic_query, encrypt_data, extract_envelope,
    extract_redirect_aid, favorite_query, img_fetch_needs_retry, login_form, process_response,
    rewrite_user_photo, scramble_query, search_outcome, search_query, sign, toggle_favorite_form,
    tokenparam, unwrap_envelope, ApiPath, ClientError, CryptoError, FavoriteSort,
    GetUserProfileRespData, JmResp, SearchOutcome, SearchSort,
};

#[test]
fn api_paths_match_the_remote_surface() {
    assert_eq!(ApiPath::Login.as_str(), "/login");
    assert_eq!(ApiPath::GetUserProfile.as_str(), "/login");
    assert_eq!(ApiPath::Search.as_str(), "/search");
    assert_eq!(ApiPath::GetComic.as_str(), "/album");
    assert_eq!(ApiPath::GetChapter.as_str(), "/chapter");
    assert_eq!(ApiPath::GetScrambleId.as_str(), "/chapter_view_template");
    assert_eq!(ApiPath::GetFavoriteFolder.as_str(), "/favorite");
}

#[test]
fn api_urls_name_the_api_domain() {
    assert_eq!(
        build_api_url(ApiPath::Search),
        "https://www.cdnblackmyth.club/search"
    );
}

#[test]
fn tokenparam_joins_timestamp_and_version() {
    assert_eq!(tokenparam(5), "5,1.7.5");
    assert_eq!(tokenparam(1700000000), "1700000000,1.7.5");
}

#[test]
fn auth_uses_the_endpoint_secret() {
    let ts = 1700000000;
    let (token, param) = build_auth(ApiPath::GetComic, ts);
    assert_eq!(token, sign(ts, "18comicAPP"));
    assert_eq!(param, "1700000000,1.7.5");
    // the descrambling endpoint signs with its own secret
    let (token2, _) = build_auth(ApiPath::GetScrambleId, ts);
    assert_eq!(token2, sign(ts, "18comicAPPContent"));
    assert_ne!(token, token2);
}

#[test]
fn non_success_status_is_a_status_error() {
    let r = unwrap_envelope(503, None, "gateway down".to_string(), 1);
    assert!(matches!(
        r,
        Err(ClientError::RemoteStatusError { status: 503, ref body }) if body == "gateway down"
    ));
}

#[test]
fn missing_envelope_is_a_schema_error() {
    let r = unwrap_envelope(200, None, "not json".to_string(), 1);
    assert!(matches!(
        r,
        Err(ClientError::RemoteSchemaError { ref raw }) if raw == "not json"
    ));
}

#[test]
fn non_success_code_is_an_api_error() {
    let envelope = JmResp {
        code: 401,
        data: String::new(),
        error_msg: "expired".to_string(),
    };
    let r = unwrap_envelope(200, Some(envelope), "body".to_string(), 1);
    assert!(matches!(
        r,
        Err(ClientError::RemoteApiError { code: 401, ref body }) if body == "body"
    ));
}

#[test]
fn successful_envelope_decrypts_the_data() {
    let ts = 1234;
    let envelope = JmResp {
        code: 200,
        data: encrypt_data(ts, "{\"name\":\"x\"}"),
        error_msg: String::new(),
    };
    let r = unwrap_envelope(200, Some(envelope), "body".to_string(), ts);
    assert_eq!(r.unwrap(), "{\"name\":\"x\"}");
}

#[test]
fn undecryptable_data_is_a_crypto_error() {
    let envelope = JmResp {
        code: 200,
        data: "%%%".to_string(),
        error_msg: String::new(),
    };
    let r = unwrap_envelope(200, Some(envelope), "body".to_string(), 1);
    assert!(matches!(
        r,
        Err(ClientError::Crypto(CryptoError::DecodeError))
    ));
}

#[test]
fn envelope_is_read_from_json() {
    let body = "{\"code\":200,\"data\":\"abc\",\"errorMsg\":\"\"}";
    let e = extract_envelope(body).unwrap();
    assert_eq!(e.code, 200);
    assert_eq!(e.data, "abc");
    assert_eq!(e.error_msg, "");
}

#[test]
fn envelope_extraction_rejects_wrong_shapes() {
    assert!(extract_envelope("not json at all").is_none());
    assert!(extract_envelope("{\"code\":\"200\",\"data\":\"x\"}").is_none());
    assert!(extract_envelope("{\"code\":200}").is_none());
    assert!(extract_envelope("{\"code\":200,\"data\":7}").is_none());
}

#[test]
fn envelope_without_error_message_reads_empty() {
    let e = extract_envelope("{\"code\":401,\"data\":\"x\"}").unwrap();
    assert_eq!(e.code, 401);
    assert_eq!(e.data, "x");
    assert_eq!(e.error_msg, "");
}

#[test]
fn response_processing_names_each_failure_stage() {
    // a success status with an unreadable body is a schema error
    let r = process_response(200, "<html>".to_string(), 1);
    assert!(matches!(
        r,
        Err(ClientError::RemoteSchemaError { ref raw }) if raw == "<html>"
    ));
    // a well-formed envelope with a failure code is an api error
    let body = "{\"code\":500,\"data\":\"\",\"errorMsg\":\"busy\"}".to_string();
    let r = process_response(200, body.clone(), 1);
    assert!(matches!(
        r,
        Err(ClientError::RemoteApiError { code: 500, body: ref b }) if *b == body
    ));
    // a success envelope whose data does not decrypt is a crypto error
    let body = "{\"code\":200,\"data\":\"%%%\"}".to_string();
    let r = process_response(200, body, 1);
    assert!(matches!(
        r,
        Err(ClientError::Crypto(CryptoError::DecodeError))
    ));
}

#[test]
fn full_response_processing_round_trips() {
    let ts = 777;
    let body = format!(
        "{{\"code\":200,\"data\":\"{}\",\"errorMsg\":\"\"}}",
        encrypt_data(ts, "payload")
    );
    assert_eq!(process_response(200, body, ts).unwrap(), "payload");
}

#[test]
fn redirected_search_is_detected_by_schema() {
    let data = "{\"search_query\":\"q\",\"total\":1,\"redirect_aid\":\"4321\"}";
    let aid = extract_redirect_aid(data);
    assert_eq!(aid.as_deref(), Some("4321"));
    let outcome = search_outcome(aid, data.to_string()).unwrap();
    assert_eq!(outcome, SearchOutcome::Redirect(4321));
}

#[test]
fn list_search_stays_a_list() {
    let data = "{\"search_query\":\"q\",\"total\":2,\"content\":[]}";
    let aid = extract_redirect_aid(data);
    assert!(aid.is_none());
    assert_eq!(
        search_outcome(aid, data.to_string()).unwrap(),
        SearchOutcome::List
    );
}

#[test]
fn non_numeric_redirect_id_is_a_schema_error() {
    let r = search_outcome(Some("abc".to_string()), "raw".to_string());
    assert!(matches!(
        r,
        Err(ClientError::RemoteSchemaError { ref raw }) if raw == "raw"
    ));
}

#[test]
fn empty_image_body_is_retried_once() {
    assert!(img_fetch_needs_retry(&Vec::new(), false));
    assert!(!img_fetch_needs_retry(&Vec::new(), true));
    assert!(!img_fetch_needs_retry(&vec![1, 2, 3], false));
}

#[test]
fn user_photo_is_prefixed_with_the_cdn_path() {
    let mut profile = GetUserProfileRespData {
        uid: String::new(),
        username: String::new(),
        email: String::new(),
        photo: "me.jpg".to_string(),
        fname: String::new(),
        gender: String::new(),
        message: None,
        coin: 0,
        album_favorites: 0,
        s: String::new(),
        level_name: String::new(),
        level: 0,
        next_level_exp: 0,
        exp: String::new(),
        album_favorites_max: 0,
        ad_free: false,
        charge: String::new(),
        jar: String::new(),
        invitation_qrcode: String::new(),
        invitation_url: String::new(),
        invited_cnt: String::new(),
    };
    rewrite_user_photo(&mut profile);
    assert_eq!(
        profile.photo,
        "https://cdn-msp2.jmapiproxy2.cc/media/users/me.jpg"
    );
}

#[test]
fn endpoint_queries_match_the_wire_shape() {
    let pair = |p: &(String, String)| (p.0.clone(), p.1.clone());

    assert_eq!(
        login_form("me", "secret").iter().map(pair).collect::<Vec<_>>(),
        vec![
            ("username".to_string(), "me".to_string()),
            ("password".to_string(), "secret".to_string()),
        ]
    );
    assert_eq!(
        search_query("dragon", 2, SearchSort::View)
            .iter()
            .map(pair)
            .collect::<Vec<_>>(),
        vec![
            ("main_tag".to_string(), "0".to_string()),
            ("search_query".to_string(), "dragon".to_string()),
            ("page".to_string(), "2".to_string()),
            ("o".to_string(), "mv".to_string()),
        ]
    );
    assert_eq!(
        comic_query(42).iter().map(pair).collect::<Vec<_>>(),
        vec![("id".to_string(), "42".to_string())]
    );
    assert_eq!(
        chapter_query(-3).iter().map(pair).collect::<Vec<_>>(),
        vec![("id".to_string(), "-3".to_string())]
    );
    assert_eq!(
        scramble_query(7, 99).iter().map(pair).collect::<Vec<_>>(),
        vec![
            ("id".to_string(), "7".to_string()),
            ("v".to_string(), "99".to_string()),
            ("mode".to_string(), "vertical".to_string()),
            ("page".to_string(), "0".to_string()),
            ("app_img_shunt".to_string(), "1".to_string()),
            ("express".to_string(), "off".to_string()),
        ]
    );
    assert_eq!(
        favorite_query(5, 1, FavoriteSort::UpdateTime)
            .iter()
            .map(pair)
            .collect::<Vec<_>>(),
        vec![
            ("page".to_string(), "1".to_string()),
            ("o".to_string(), "mp".to_string()),
            ("folder_id".to_string(), "5".to_string()),
        ]
    );
    assert_eq!(
        toggle_favorite_form(8).iter().map(pair).collect::<Vec<_>>(),
        vec![("aid".to_string(), "8".to_string())]
    );
}
