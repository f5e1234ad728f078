use gravatar_api::gravatar::classify::{
    classify, classify_decoded, classify_fetch, status_is_success, FetchOutcome, Fetched,
    ProfileLookup, NOT_FOUND,
};
use gravatar_api::gravatar::{
    bool_from_string, Account, Email, Gravatar, GravatarEntry, Link, Name, Photos,
    ProfileBackground, ShareFlags, StringOrBool,
};
use gravatar_api::serde_visitor::bool_form_string::StringOrBoolVisitor;
use gravatar_api::validation::ValidationErrors;
use gravatar_api::web::route_handler::user::get_user_info_by_gravatar::{
    build_gravatar_info_request, get_user_info_by_gravatar, ProfileRequest,
    QueryGravatarUserInfoParams, UserInfoEvent, UserInfoStep, USER_AGENT,
};
use gravatar_api::web::router::{GET_AVATAR_IN_GRAVATAR, GET_USER_INFO_BY_GRAVATAR, USER_SCOPE};
use gravatar_api::web::{create_api_rep_with_none, status_of, ApiRep, STATUS_BAD_REQUEST, STATUS_OK};

fn flag(value: &StringOrBool) -> bool {
    let read: Result<bool, ()> = bool_from_string(value);
    read.unwrap()
}

fn sample_entry() -> GravatarEntry {
    GravatarEntry {
        entry: vec![Gravatar {
            hash: "973dfe46".to_string(),
            request_hash: "973dfe46".to_string(),
            profile_url: "https://gravatar.com/tester".to_string(),
            preferred_username: "tester".to_string(),
            thumbnail_url: "https://0.gravatar.com/avatar/973dfe46".to_string(),
            photos: vec![Photos {
                value: "https://0.gravatar.com/avatar/973dfe46".to_string(),
                type_: "thumbnail".to_string(),
            }],
            last_profile_edit: "2024-01-02 03:04:05".to_string(),
            display_name: "Tester".to_string(),
            pronunciation: "TES-ter".to_string(),
            pronouns: "they/them".to_string(),
            about_me: "I test things.".to_string(),
            current_location: "Nowhere".to_string(),
            job_title: "Tester".to_string(),
            company: "Example".to_string(),
            emails: vec![
                Email { primary: flag(&StringOrBool::Str("true".to_string())), value: "test@example.com".to_string() },
                Email { primary: flag(&StringOrBool::Bool(false)), value: "other@example.com".to_string() },
            ],
            name: Name {
                given_name: "Test".to_string(),
                family_name: "Er".to_string(),
                formatted: "Test Er".to_string(),
            },
            full_name: "Test Er".to_string(),
            accounts: vec![Account {
                domain: "example.social".to_string(),
                display: "@tester".to_string(),
                url: "https://example.social/@tester".to_string(),
                icon_url: "https://gravatar.com/icons/example.svg".to_string(),
                username: "tester".to_string(),
                verified: "true".to_string(),
                name: "Example Social".to_string(),
                shortname: "example".to_string(),
            }],
            urls: vec![Link { title: "Home".to_string(), value: "https://example.com".to_string() }],
            profile_background: ProfileBackground { opacity: -1 },
            share_flags: ShareFlags { search_engines: true },
        }],
    }
}

fn response(status: u16, body: &str) -> FetchOutcome {
    FetchOutcome::Response { status, body: body.to_string() }
}

fn query(email: &str, size: Option<i16>) -> UserInfoEvent {
    UserInfoEvent::Query(QueryGravatarUserInfoParams { email: email.to_string(), size })
}

fn system_error() -> ApiRep<Option<GravatarEntry>> {
    ApiRep { message: "system error".to_string(), data: None }
}

fn not_found() -> ApiRep<Option<GravatarEntry>> {
    ApiRep { message: "user not found".to_string(), data: None }
}

#[test]
fn primary_flag_as_a_boolean() {
    assert!(flag(&StringOrBool::Bool(true)));
    assert!(!flag(&StringOrBool::Bool(false)));
}

#[test]
fn primary_flag_as_a_string() {
    assert!(flag(&StringOrBool::Str("true".to_string())));
    for other in ["false", "", "TRUE", "True", "1", "yes", " true", "true ", "truee"] {
        assert!(!flag(&StringOrBool::Str(other.to_string())));
    }
}

#[test]
fn visitor_reads_both_forms() {
    assert_eq!(StringOrBoolVisitor.visit_str::<()>("true"), Ok(true));
    assert_eq!(StringOrBoolVisitor.visit_str::<()>("false"), Ok(false));
    assert_eq!(StringOrBoolVisitor.visit_str::<()>("anything"), Ok(false));
    assert_eq!(StringOrBoolVisitor.visit_bool::<()>(true), Ok(true));
    assert_eq!(StringOrBoolVisitor.visit_bool::<()>(false), Ok(false));
}

#[test]
fn visitor_says_what_it_expects() {
    assert_eq!(StringOrBoolVisitor.expecting(), "a boolean or string representing a boolean");
}

#[test]
fn envelope_keeps_message_and_data() {
    let rep = create_api_rep_with_none("hello".to_string(), Some(7));
    assert_eq!(rep, ApiRep { message: "hello".to_string(), data: Some(7) });
    let empty: ApiRep<Option<u8>> = create_api_rep_with_none("none".to_string(), None);
    assert_eq!(empty.message, "none");
    assert_eq!(empty.data, None);
}

#[test]
fn success_statuses_are_the_2xx() {
    for status in 0..=u16::MAX {
        assert_eq!(status_is_success(status), (200..300).contains(&status));
    }
}

#[test]
fn not_found_is_404() {
    assert_eq!(NOT_FOUND, 404);
    assert_eq!(classify(response(404, ""), None), ProfileLookup::NotFound);
    assert_eq!(classify(response(404, "{}"), Some(sample_entry())), ProfileLookup::NotFound);
}

#[test]
fn success_carries_the_entry() {
    for status in [200, 201, 204, 299] {
        assert_eq!(
            classify(response(status, "{\"entry\":[]}"), Some(sample_entry())),
            ProfileLookup::Success(sample_entry())
        );
    }
}

#[test]
fn undecodable_success_body_is_a_system_error() {
    assert_eq!(classify(response(200, "not json"), None), ProfileLookup::SystemError);
}

#[test]
fn other_statuses_are_system_errors() {
    for status in [100, 199, 300, 301, 400, 401, 403, 405, 429, 500, 502, 503, 999] {
        assert_eq!(classify(response(status, ""), None), ProfileLookup::SystemError);
        assert_eq!(
            classify(response(status, ""), Some(sample_entry())),
            ProfileLookup::SystemError
        );
    }
}

#[test]
fn failed_transport_is_a_system_error() {
    assert_eq!(classify(FetchOutcome::TransportFailure, None), ProfileLookup::SystemError);
    assert_eq!(
        classify(FetchOutcome::TransportFailure, Some(sample_entry())),
        ProfileLookup::SystemError
    );
}

#[test]
fn unreadable_body_is_a_system_error_whatever_the_status() {
    for status in [200, 404, 500] {
        assert_eq!(
            classify(FetchOutcome::BodyReadFailure { status }, None),
            ProfileLookup::SystemError
        );
    }
}

#[test]
fn fetch_settles_or_hands_over_the_body() {
    assert_eq!(
        classify_fetch(FetchOutcome::TransportFailure),
        Fetched::Settled(ProfileLookup::SystemError)
    );
    assert_eq!(classify_fetch(response(404, "x")), Fetched::Settled(ProfileLookup::NotFound));
    assert_eq!(classify_fetch(response(500, "x")), Fetched::Settled(ProfileLookup::SystemError));
    assert_eq!(classify_fetch(response(200, "body")), Fetched::Undecoded("body".to_string()));
}

#[test]
fn decoding_settles_the_rest() {
    assert_eq!(classify_decoded(None), ProfileLookup::SystemError);
    assert_eq!(classify_decoded(Some(sample_entry())), ProfileLookup::Success(sample_entry()));
}

#[test]
fn messages_of_the_outcomes() {
    assert_eq!(ProfileLookup::Success(sample_entry()).message(), "success");
    assert_eq!(ProfileLookup::NotFound.message(), "user not found");
    assert_eq!(ProfileLookup::SystemError.message(), "system error");
}

#[test]
fn envelopes_of_the_outcomes() {
    assert_eq!(
        ProfileLookup::Success(sample_entry()).into_envelope(),
        ApiRep { message: "success".to_string(), data: Some(sample_entry()) }
    );
    assert_eq!(ProfileLookup::NotFound.into_envelope(), not_found());
    assert_eq!(ProfileLookup::SystemError.into_envelope(), system_error());
}

#[test]
fn request_for_a_hash() {
    assert_eq!(USER_AGENT, "rust api");
    assert_eq!(
        build_gravatar_info_request("abc123"),
        ProfileRequest {
            url: "https://gravatar.com/abc123.json".to_string(),
            user_agent: "rust api".to_string(),
        }
    );
}

#[test]
fn valid_query_leads_to_the_request() {
    let expected = UserInfoStep::Fetch(ProfileRequest {
        url: "https://gravatar.com/973dfe463ec85785f5f95af5ba3906eedb2d931c24e69824a89ea65dba4e813b.json"
            .to_string(),
        user_agent: "rust api".to_string(),
    });
    assert_eq!(get_user_info_by_gravatar(query("test@example.com", None)), expected);
    assert_eq!(get_user_info_by_gravatar(query("test@example.com", Some(2048))), expected);
}

#[test]
fn invalid_address_sends_nothing() {
    assert_eq!(
        get_user_info_by_gravatar(query("not-an-email", None)),
        UserInfoStep::Reject(ValidationErrors { email: true, size: false })
    );
}

#[test]
fn size_out_of_range_sends_nothing() {
    for size in [0, -7, 2049, i16::MAX] {
        assert_eq!(
            get_user_info_by_gravatar(query("test@example.com", Some(size))),
            UserInfoStep::Reject(ValidationErrors { email: false, size: true })
        );
    }
}

#[test]
fn no_query_with_a_bad_size_is_fetched() {
    for size in i16::MIN..=i16::MAX {
        let step = get_user_info_by_gravatar(query("a@b.c", Some(size)));
        assert_eq!(matches!(step, UserInfoStep::Fetch(_)), (1..=2048).contains(&size));
        assert_eq!(matches!(step, UserInfoStep::Reject(_)), !(1..=2048).contains(&size));
    }
}

#[test]
fn upstream_404_is_user_not_found() {
    assert_eq!(
        get_user_info_by_gravatar(UserInfoEvent::Fetched(response(404, "\"User not found\""))),
        UserInfoStep::Respond(not_found())
    );
}

#[test]
fn upstream_200_is_decoded() {
    assert_eq!(
        get_user_info_by_gravatar(UserInfoEvent::Fetched(response(200, "{\"entry\":[]}"))),
        UserInfoStep::Decode("{\"entry\":[]}".to_string())
    );
}

#[test]
fn decoded_entry_is_answered_unchanged() {
    assert_eq!(
        get_user_info_by_gravatar(UserInfoEvent::Decoded(Some(sample_entry()))),
        UserInfoStep::Respond(ApiRep { message: "success".to_string(), data: Some(sample_entry()) })
    );
    let empty = GravatarEntry { entry: vec![] };
    assert_eq!(
        get_user_info_by_gravatar(UserInfoEvent::Decoded(Some(empty.clone()))),
        UserInfoStep::Respond(ApiRep { message: "success".to_string(), data: Some(empty) })
    );
}

#[test]
fn malformed_body_is_a_system_error() {
    assert_eq!(
        get_user_info_by_gravatar(UserInfoEvent::Decoded(None)),
        UserInfoStep::Respond(system_error())
    );
}

#[test]
fn upstream_failures_are_system_errors() {
    assert_eq!(
        get_user_info_by_gravatar(UserInfoEvent::Fetched(FetchOutcome::TransportFailure)),
        UserInfoStep::Respond(system_error())
    );
    assert_eq!(
        get_user_info_by_gravatar(UserInfoEvent::Fetched(FetchOutcome::BodyReadFailure {
            status: 200
        })),
        UserInfoStep::Respond(system_error())
    );
    for status in [400, 401, 403, 410, 418, 500, 503] {
        assert_eq!(
            get_user_info_by_gravatar(UserInfoEvent::Fetched(response(status, "oops"))),
            UserInfoStep::Respond(system_error())
        );
    }
}

#[test]
fn endpoints_are_mounted_under_user() {
    assert_eq!(USER_SCOPE, "/user");
    assert_eq!(GET_AVATAR_IN_GRAVATAR, "/get_avatar_in_gravatar");
    assert_eq!(GET_USER_INFO_BY_GRAVATAR, "/get_user_info_by_gravatar");
}

#[test]
fn answers_are_200_but_for_rejections() {
    assert_eq!(STATUS_OK, 200);
    assert_eq!(STATUS_BAD_REQUEST, 400);
    let fine: Result<u8, ValidationErrors> = Ok(1);
    assert_eq!(status_of(&fine), 200);
    let bad: Result<u8, ValidationErrors> = Err(ValidationErrors { email: true, size: false });
    assert_eq!(status_of(&bad), 400);
}

#[test]
fn steps_name_the_status_of_an_answer() {
    assert_eq!(get_user_info_by_gravatar(query("not-an-email", None)).status(), Some(400));
    assert_eq!(get_user_info_by_gravatar(query("a@b.c", Some(0))).status(), Some(400));
    assert_eq!(get_user_info_by_gravatar(query("a@b.c", None)).status(), None);
    assert_eq!(
        get_user_info_by_gravatar(UserInfoEvent::Fetched(response(200, "{}"))).status(),
        None
    );
    for event in [
        UserInfoEvent::Fetched(response(404, "")),
        UserInfoEvent::Fetched(response(500, "")),
        UserInfoEvent::Fetched(FetchOutcome::TransportFailure),
        UserInfoEvent::Decoded(None),
        UserInfoEvent::Decoded(Some(sample_entry())),
    ] {
        assert_eq!(get_user_info_by_gravatar(event).status(), Some(200));
    }
}
