use opaque_auth::base64::{base64_decode, base64_encode};
use opaque_auth::client::{
    finish_client_login, finish_client_registration, start_client_login,
    start_client_registration, FinishClientLoginParams, FinishClientLoginResult,
    FinishClientRegistrationParams, FinishClientRegistrationResult, StartClientLoginParams,
    StartClientLoginResult, StartClientRegistrationParams,
};
use opaque_auth::error::ErrorKind;
use opaque_auth::identifiers::CustomIdentifiers;
use opaque_auth::ksf::KeyStretchingFunctionConfig;
use opaque_auth::server::{
    create_server_registration_response, create_server_setup, finish_server_login,
    get_server_public_key, start_server_login, CreateServerRegistrationResponseParams,
    FinishServerLoginParams, StartServerLoginParams, StartServerLoginResult,
};

const PASSWORD: &str = "_P4ssw0rd123!";
const USER: &str = "john.doe@example.com";

fn light() -> Option<KeyStretchingFunctionConfig> {
    Some(KeyStretchingFunctionConfig::Custom { iterations: 1, memory: 8, parallelism: 1 })
}

fn names(client: Option<&str>, server: Option<&str>) -> Option<CustomIdentifiers> {
    Some(CustomIdentifiers {
        client: client.map(|s| s.to_string()),
        server: server.map(|s| s.to_string()),
    })
}

fn register(
    setup: &str,
    user: &str,
    password: &str,
    identifiers: Option<CustomIdentifiers>,
    ksf: Option<KeyStretchingFunctionConfig>,
) -> FinishClientRegistrationResult {
    let started = start_client_registration(StartClientRegistrationParams {
        password: password.to_string(),
    })
    .unwrap();
    let response = create_server_registration_response(CreateServerRegistrationResponseParams {
        server_setup: setup.to_string(),
        user_identifier: user.to_string(),
        registration_request: started.registration_request,
    })
    .unwrap();
    finish_client_registration(FinishClientRegistrationParams {
        password: password.to_string(),
        registration_response: response.registration_response,
        client_registration_state: started.client_registration_state,
        identifiers,
        key_stretching_function_config: ksf,
    })
    .unwrap()
}

fn begin_login(
    setup: &str,
    user: &str,
    password: &str,
    record: Option<String>,
    identifiers: Option<CustomIdentifiers>,
) -> (StartClientLoginResult, StartServerLoginResult) {
    let client = start_client_login(StartClientLoginParams { password: password.to_string() })
        .unwrap();
    let server = start_server_login(StartServerLoginParams {
        server_setup: setup.to_string(),
        registration_record: record,
        start_login_request: client.start_login_request.clone(),
        user_identifier: user.to_string(),
        identifiers,
    })
    .unwrap();
    (client, server)
}

fn end_login(
    client: &StartClientLoginResult,
    server: &StartServerLoginResult,
    password: &str,
    identifiers: Option<CustomIdentifiers>,
    ksf: Option<KeyStretchingFunctionConfig>,
) -> Option<FinishClientLoginResult> {
    finish_client_login(FinishClientLoginParams {
        client_login_state: client.client_login_state.clone(),
        login_response: server.login_response.clone(),
        password: password.to_string(),
        identifiers,
        key_stretching_function_config: ksf,
    })
    .unwrap()
}

fn server_key(server: &StartServerLoginResult, finish_login_request: &str) -> String {
    finish_server_login(FinishServerLoginParams {
        server_login_state: server.server_login_state.clone(),
        finish_login_request: finish_login_request.to_string(),
    })
    .unwrap()
    .session_key
}

#[test]
fn registration_then_login_agree_on_the_session_key() {
    let setup = create_server_setup();
    let registered = register(&setup, USER, PASSWORD, None, light());
    let (client, server) =
        begin_login(&setup, USER, PASSWORD, Some(registered.registration_record.clone()), None);
    let finished = end_login(&client, &server, PASSWORD, None, light())
        .expect("Client login should succeed");
    let key = server_key(&server, &finished.finish_login_request);
    assert_eq!(finished.session_key, key, "Session keys should match");
    assert!(!key.is_empty());
    assert_eq!(base64_decode("sessionKey", &key).unwrap().len(), 64);
    assert_eq!(finished.export_key, registered.export_key);
    assert_eq!(finished.server_static_public_key, registered.server_static_public_key);
    assert_eq!(
        get_server_public_key(setup.clone()).unwrap(),
        registered.server_static_public_key
    );
}

#[test]
fn named_profile_round_trip() {
    let setup = create_server_setup();
    let profile = Some(KeyStretchingFunctionConfig::MemoryConstrained);
    let registered = register(&setup, USER, PASSWORD, None, profile);
    let (client, server) =
        begin_login(&setup, USER, PASSWORD, Some(registered.registration_record.clone()), None);
    let same_costs =
        Some(KeyStretchingFunctionConfig::Custom { iterations: 3, memory: 65536, parallelism: 4 });
    let finished = end_login(&client, &server, PASSWORD, None, same_costs)
        .expect("Client login should succeed");
    assert_eq!(finished.session_key, server_key(&server, &finished.finish_login_request));
    assert_eq!(finished.export_key, registered.export_key);
}

#[test]
fn round_trip_for_several_passwords_and_users() {
    let setup = create_server_setup();
    let cases = [
        ("a", "u"),
        ("correct horse battery staple", "alice@example.org"),
        ("p\u{e4}ssw\u{f6}rd \u{1f511}", "b\u{f6}b"),
        ("with\0nul", ""),
    ];
    for (password, user) in cases {
        let registered = register(&setup, user, password, None, light());
        let (client, server) =
            begin_login(&setup, user, password, Some(registered.registration_record), None);
        let finished = end_login(&client, &server, password, None, light())
            .expect("Client login should succeed");
        assert_eq!(finished.session_key, server_key(&server, &finished.finish_login_request));
    }
}

#[test]
fn wrong_password_gives_no_result_and_no_error() {
    let setup = create_server_setup();
    let registered = register(&setup, USER, PASSWORD, None, light());
    let (client, server) =
        begin_login(&setup, USER, "_P4ssw0rd123?", Some(registered.registration_record), None);
    let finished = finish_client_login(FinishClientLoginParams {
        client_login_state: client.client_login_state,
        login_response: server.login_response,
        password: "_P4ssw0rd123?".to_string(),
        identifiers: None,
        key_stretching_function_config: light(),
    });
    assert!(matches!(finished, Ok(None)));
}

#[test]
fn password_changed_between_the_two_steps_gives_no_result() {
    let setup = create_server_setup();
    let registered = register(&setup, USER, PASSWORD, None, light());
    let (client, server) =
        begin_login(&setup, USER, PASSWORD, Some(registered.registration_record), None);
    assert!(end_login(&client, &server, "other", None, light()).is_none());
}

#[test]
fn unknown_user_gets_a_response_that_no_client_can_finish() {
    let setup = create_server_setup();
    let known = register(&setup, USER, PASSWORD, None, light());
    let (_, with_record) =
        begin_login(&setup, USER, PASSWORD, Some(known.registration_record), None);
    let (client, server) = begin_login(&setup, "nobody@example.com", PASSWORD, None, None);
    let response = base64_decode("loginResponse", &server.login_response).unwrap();
    let state = base64_decode("serverLoginState", &server.server_login_state).unwrap();
    assert_eq!(
        response.len(),
        base64_decode("loginResponse", &with_record.login_response).unwrap().len()
    );
    assert_eq!(
        state.len(),
        base64_decode("serverLoginState", &with_record.server_login_state).unwrap().len()
    );
    let finished = finish_client_login(FinishClientLoginParams {
        client_login_state: client.client_login_state,
        login_response: server.login_response,
        password: PASSWORD.to_string(),
        identifiers: None,
        key_stretching_function_config: light(),
    });
    assert!(matches!(finished, Ok(None)));
}

#[test]
fn record_of_another_user_gives_no_result() {
    let setup = create_server_setup();
    let registered = register(&setup, "alice", PASSWORD, None, light());
    let (client, server) =
        begin_login(&setup, "bob", PASSWORD, Some(registered.registration_record), None);
    assert!(end_login(&client, &server, PASSWORD, None, light()).is_none());
}

#[test]
fn tampered_final_message_is_a_protocol_error() {
    let setup = create_server_setup();
    let registered = register(&setup, USER, PASSWORD, None, light());
    let (client, server) =
        begin_login(&setup, USER, PASSWORD, Some(registered.registration_record), None);
    let finished = end_login(&client, &server, PASSWORD, None, light()).unwrap();
    let message = base64_decode("finishLoginRequest", &finished.finish_login_request).unwrap();
    assert!(!message.is_empty());
    let mut at: usize = 0;
    while at < message.len() {
        let mut bit: u32 = 0;
        while bit < 8 {
            let mut changed = message.clone();
            changed[at] ^= 1 << bit;
            let outcome = finish_server_login(FinishServerLoginParams {
                server_login_state: server.server_login_state.clone(),
                finish_login_request: base64_encode(&changed),
            });
            let error = outcome.unwrap_err();
            assert_eq!(error.kind(), ErrorKind::Protocol);
            assert!(
                error.context() == "finish server login"
                    || error.context() == "deserialize finishLoginRequest"
            );
            bit += 1;
        }
        at += 1;
    }
    assert_eq!(server_key(&server, &finished.finish_login_request), finished.session_key);
}

#[test]
fn tampered_text_of_the_final_message_never_gives_a_key() {
    let setup = create_server_setup();
    let registered = register(&setup, USER, PASSWORD, None, light());
    let (client, server) =
        begin_login(&setup, USER, PASSWORD, Some(registered.registration_record), None);
    let finished = end_login(&client, &server, PASSWORD, None, light()).unwrap();
    let text = finished.finish_login_request.clone();
    let mut at: usize = 0;
    while at < text.len() {
        let mut changed = text.clone().into_bytes();
        changed[at] = if changed[at] == b'A' { b'B' } else { b'A' };
        let outcome = finish_server_login(FinishServerLoginParams {
            server_login_state: server.server_login_state.clone(),
            finish_login_request: String::from_utf8(changed).unwrap(),
        });
        let error = outcome.unwrap_err();
        assert!(error.kind() == ErrorKind::Protocol || error.kind() == ErrorKind::Encoding);
        at += 1;
    }
    let mut broken = text.clone();
    broken.push('=');
    let error = finish_server_login(FinishServerLoginParams {
        server_login_state: server.server_login_state.clone(),
        finish_login_request: broken,
    })
    .unwrap_err();
    assert_eq!(error.kind(), ErrorKind::Encoding);
    assert_eq!(error.context(), "finishLoginRequest");
}

#[test]
fn tampered_login_response_never_gives_a_result() {
    let setup = create_server_setup();
    let registered = register(&setup, USER, PASSWORD, None, light());
    let (client, server) =
        begin_login(&setup, USER, PASSWORD, Some(registered.registration_record), None);
    let response = base64_decode("loginResponse", &server.login_response).unwrap();
    let mut at: usize = 0;
    while at < response.len() {
        let mut changed = response.clone();
        changed[at] ^= 0x01;
        let outcome = finish_client_login(FinishClientLoginParams {
            client_login_state: client.client_login_state.clone(),
            login_response: base64_encode(&changed),
            password: PASSWORD.to_string(),
            identifiers: None,
            key_stretching_function_config: light(),
        });
        match outcome {
            Ok(None) => {}
            Ok(Some(_)) => panic!("a changed response was accepted at byte {}", at),
            Err(error) => {
                assert_eq!(error.kind(), ErrorKind::Protocol);
                assert_eq!(error.context(), "deserialize loginResponse");
            }
        }
        at += 1;
    }
    assert!(end_login(&client, &server, PASSWORD, None, light()).is_some());
}

#[test]
fn state_survives_a_trip_through_text() {
    let setup = create_server_setup();
    let started = start_client_registration(StartClientRegistrationParams {
        password: PASSWORD.to_string(),
    })
    .unwrap();
    let state = base64_decode("clientRegistrationState", &started.client_registration_state)
        .unwrap();
    assert_eq!(base64_encode(&state), started.client_registration_state);
    let response = create_server_registration_response(CreateServerRegistrationResponseParams {
        server_setup: setup.clone(),
        user_identifier: USER.to_string(),
        registration_request: started.registration_request,
    })
    .unwrap();
    let registered = finish_client_registration(FinishClientRegistrationParams {
        password: PASSWORD.to_string(),
        registration_response: response.registration_response,
        client_registration_state: base64_encode(&state),
        identifiers: None,
        key_stretching_function_config: light(),
    })
    .unwrap();

    let (client, server) =
        begin_login(&setup, USER, PASSWORD, Some(registered.registration_record), None);
    let client_state = base64_decode("clientLoginState", &client.client_login_state).unwrap();
    let server_state = base64_decode("serverLoginState", &server.server_login_state).unwrap();
    assert_eq!(base64_encode(&client_state), client.client_login_state);
    assert_eq!(base64_encode(&server_state), server.server_login_state);
    let again = StartClientLoginResult {
        client_login_state: base64_encode(&client_state),
        start_login_request: client.start_login_request.clone(),
    };
    let first = end_login(&client, &server, PASSWORD, None, light()).unwrap();
    let second = end_login(&again, &server, PASSWORD, None, light()).unwrap();
    assert_eq!(first.finish_login_request, second.finish_login_request);
    assert_eq!(first.session_key, second.session_key);
    assert_eq!(first.export_key, second.export_key);
    assert_eq!(first.server_static_public_key, second.server_static_public_key);
    let server_again = StartServerLoginResult {
        server_login_state: base64_encode(&server_state),
        login_response: server.login_response.clone(),
    };
    assert_eq!(
        server_key(&server, &first.finish_login_request),
        server_key(&server_again, &first.finish_login_request)
    );
}

#[test]
fn different_client_identifiers_give_different_session_keys() {
    let setup = create_server_setup();
    let mut keys = Vec::new();
    for client_name in ["alice", "bob"] {
        let registered =
            register(&setup, USER, PASSWORD, names(Some(client_name), None), light());
        let (client, server) = begin_login(
            &setup,
            USER,
            PASSWORD,
            Some(registered.registration_record),
            names(Some(client_name), None),
        );
        let finished =
            end_login(&client, &server, PASSWORD, names(Some(client_name), None), light())
                .expect("Client login should succeed");
        assert_eq!(finished.session_key, server_key(&server, &finished.finish_login_request));
        keys.push(finished.session_key);
    }
    assert_ne!(keys[0], keys[1]);
}

#[test]
fn identifiers_changed_after_registration_give_no_result() {
    let setup = create_server_setup();
    let registered = register(&setup, USER, PASSWORD, names(Some("alice"), Some("srv")), light());
    let (client, server) = begin_login(
        &setup,
        USER,
        PASSWORD,
        Some(registered.registration_record.clone()),
        names(Some("alice"), Some("srv")),
    );
    assert!(end_login(&client, &server, PASSWORD, names(Some("alice"), Some("srv")), light())
        .is_some());
    assert!(end_login(&client, &server, PASSWORD, names(Some("bob"), Some("srv")), light())
        .is_none());
    assert!(end_login(&client, &server, PASSWORD, names(Some("alice"), None), light()).is_none());
    assert!(end_login(&client, &server, PASSWORD, None, light()).is_none());
}

#[test]
fn server_that_binds_other_identifiers_is_not_authenticated() {
    let setup = create_server_setup();
    let registered = register(&setup, USER, PASSWORD, names(Some("alice"), None), light());
    let (client, server) = begin_login(
        &setup,
        USER,
        PASSWORD,
        Some(registered.registration_record),
        names(Some("mallory"), None),
    );
    assert!(end_login(&client, &server, PASSWORD, names(Some("alice"), None), light()).is_none());
}

#[test]
fn key_stretching_costs_changed_after_registration_give_no_result() {
    let setup = create_server_setup();
    let registered = register(&setup, USER, PASSWORD, None, light());
    let (client, server) =
        begin_login(&setup, USER, PASSWORD, Some(registered.registration_record), None);
    let other =
        Some(KeyStretchingFunctionConfig::Custom { iterations: 2, memory: 8, parallelism: 1 });
    assert!(end_login(&client, &server, PASSWORD, None, other).is_none());
    assert!(end_login(&client, &server, PASSWORD, None, light()).is_some());
}

#[test]
fn finishing_a_login_twice_gives_the_same_result() {
    let setup = create_server_setup();
    let registered = register(&setup, USER, PASSWORD, None, light());
    let (client, server) =
        begin_login(&setup, USER, PASSWORD, Some(registered.registration_record), None);
    let first = end_login(&client, &server, PASSWORD, None, light()).unwrap();
    let second = end_login(&client, &server, PASSWORD, None, light()).unwrap();
    assert_eq!(first.finish_login_request, second.finish_login_request);
    assert_eq!(first.session_key, second.session_key);
    assert_ne!(first.finish_login_request, server.login_response);
    assert_ne!(first.session_key, first.export_key);
    let key = server_key(&server, &first.finish_login_request);
    assert_eq!(key, server_key(&server, &first.finish_login_request));
    assert_ne!(key, server.server_login_state);
    assert_ne!(key, first.finish_login_request);
}

#[test]
fn registration_response_depends_on_setup_user_and_request_alone() {
    let setup = create_server_setup();
    let other_setup = create_server_setup();
    assert_ne!(setup, other_setup);
    let started = start_client_registration(StartClientRegistrationParams {
        password: PASSWORD.to_string(),
    })
    .unwrap();
    let answer = |setup: &str, user: &str| {
        create_server_registration_response(CreateServerRegistrationResponseParams {
            server_setup: setup.to_string(),
            user_identifier: user.to_string(),
            registration_request: started.registration_request.clone(),
        })
        .unwrap()
        .registration_response
    };
    let first = answer(&setup, USER);
    assert_eq!(first, answer(&setup, USER));
    assert_ne!(first, answer(&setup, "jane.doe@example.com"));
    assert_ne!(first, answer(&other_setup, USER));
    assert_ne!(first, started.registration_request);
    assert_ne!(first, setup);
    assert_eq!(base64_decode("registrationResponse", &first).unwrap().len(), 64);
}

#[test]
fn fresh_randomness_in_every_start() {
    let first = start_client_registration(StartClientRegistrationParams {
        password: PASSWORD.to_string(),
    })
    .unwrap();
    let second = start_client_registration(StartClientRegistrationParams {
        password: PASSWORD.to_string(),
    })
    .unwrap();
    assert_ne!(first.registration_request, second.registration_request);
    assert_ne!(first.client_registration_state, second.client_registration_state);
    let first = start_client_login(StartClientLoginParams { password: PASSWORD.to_string() })
        .unwrap();
    let second = start_client_login(StartClientLoginParams { password: PASSWORD.to_string() })
        .unwrap();
    assert_ne!(first.start_login_request, second.start_login_request);
    assert_ne!(first.client_login_state, second.client_login_state);
}

#[test]
fn server_public_key_is_that_of_the_setup() {
    let setup = create_server_setup();
    let key = get_server_public_key(setup.clone()).unwrap();
    assert_eq!(key, get_server_public_key(setup.clone()).unwrap());
    assert_eq!(base64_decode("key", &key).unwrap().len(), 32);
    assert_ne!(key, setup);
    assert_ne!(key, get_server_public_key(create_server_setup()).unwrap());
    assert_eq!(base64_decode("serverSetup", &setup).unwrap().len(), 128);
}
