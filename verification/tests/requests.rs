use telegram_bot::endpoint::Endpoint;
use telegram_bot::text::{integer_text, push_digits, push_integer};
use telegram_bot::{
    Api, Error, Exchange, Params, Response, UrlError, ADDRESS_LIMIT, API_URL, INVALID_RESPONSE,
};

#[test]
fn integers_are_written_in_decimal() {
    assert_eq!(integer_text(0), "0");
    assert_eq!(integer_text(7), "7");
    assert_eq!(integer_text(10), "10");
    assert_eq!(integer_text(57), "57");
    assert_eq!(integer_text(-1), "-1");
    assert_eq!(integer_text(-120), "-120");
    assert_eq!(integer_text(i64::MAX), "9223372036854775807");
    assert_eq!(integer_text(i64::MIN), "-9223372036854775808");
}

#[test]
fn digits_are_appended_to_what_is_there() {
    let mut s = String::from("id=");
    push_digits(&mut s, 1002003);
    assert_eq!(s, "id=1002003");
    push_integer(&mut s, -45);
    assert_eq!(s, "id=1002003-45");
    let mut t = String::new();
    push_digits(&mut t, u64::MAX);
    assert_eq!(t, "18446744073709551615");
}

#[test]
fn no_fields_give_an_empty_body() {
    let p = Params::new();
    assert_eq!(p.len(), 0);
    assert_eq!(p.encode(), "");
}

#[test]
fn fields_are_joined_in_the_order_added() {
    let mut p = Params::new();
    p.add_get("offset", 57);
    assert_eq!(p.encode(), "offset=57");
    p.add_get_opt("limit", Some(0));
    p.add_get_opt("timeout", None);
    p.add_get_text("text", "a b&c".to_string());
    assert_eq!(p.len(), 3);
    assert_eq!(p.encode(), "offset=57&limit=0&text=a b&c");
}

#[test]
fn the_endpoint_of_a_token_keeps_the_token_in_its_path() {
    assert_eq!(API_URL, "https://api.telegram.org/bot");
    let api = Api::from_token("123:abc").unwrap();
    let req = api.get_me();
    assert_eq!(req.url, "https://api.telegram.org/bot123:abc/getMe");
    assert_eq!(req.body, "");
    assert_eq!(api.clone().get_me(), req);
}

#[test]
fn a_method_name_replaces_the_last_segment_and_is_escaped() {
    let api = Api::from_token("t").unwrap();
    let req = api.request("a/b c", &Params::new());
    assert_eq!(req.url, "https://api.telegram.org/bott/a%2Fb%20c");
    let deep = Endpoint::parse("https://example.net/x/y/z?q=1".to_string()).unwrap();
    assert_eq!(deep.as_str(), "https://example.net/x/y/z?q=1");
    assert_eq!(deep.method_url("getMe"), "https://example.net/x/y/getMe?q=1");
    assert_eq!(deep.clone().method_url("m"), "https://example.net/x/y/m?q=1");
}

#[test]
fn an_address_that_cannot_be_a_base_is_left_as_it_is() {
    let mail = Endpoint::parse("mailto:me@example.com".to_string()).unwrap();
    assert_eq!(mail.method_url("getMe"), "mailto:me@example.com");
}

#[test]
fn a_text_that_is_no_absolute_url_is_no_endpoint() {
    assert!(matches!(
        Endpoint::parse("api.telegram.org/bot".to_string()),
        Err(UrlError::RelativeUrlWithoutBase)
    ));
    assert!(matches!(
        Endpoint::parse("https://".to_string()),
        Err(UrlError::EmptyHost)
    ));
}

#[test]
fn the_requests_of_the_methods() {
    let api = Api::from_token("42:x").unwrap();
    let req = api.forward_message(1, -2, 3);
    assert_eq!(req.url, "https://api.telegram.org/bot42:x/forwardMessage");
    assert_eq!(req.body, "chat_id=1&from_chat_id=-2&message_id=3");
    let req = api.get_user_profile_photos(9, None, Some(5));
    assert_eq!(req.url, "https://api.telegram.org/bot42:x/getUserProfilePhotos");
    assert_eq!(req.body, "user_id=9&limit=5");
    let req = api.get_user_profile_photos(9, Some(1), Some(5));
    assert_eq!(req.body, "user_id=9&offset=1&limit=5");
    let req = api.get_updates(Some(3), Some(10), None);
    assert_eq!(req.url, "https://api.telegram.org/bot42:x/getUpdates");
    assert_eq!(req.body, "offset=3&limit=10");
    assert_eq!(api.get_updates(None, None, None).body, "");
    assert_eq!(api.get_updates(Some(1), Some(2), Some(3)).body, "offset=1&limit=2&timeout=3");
}

#[test]
fn a_successful_envelope_gives_its_result() {
    let r = Response { ok: true, result: Some(17u32), description: None };
    assert!(r.into_result() == Ok(17));
    let r = Response { ok: true, result: Some("x".to_string()), description: Some("d".to_string()) };
    assert!(r.into_result() == Ok("x".to_string()));
}

#[test]
fn a_failed_envelope_gives_its_description() {
    let r: Response<u32> = Response { ok: false, result: None, description: Some("e".to_string()) };
    assert!(r.into_result() == Err(Error::Api("e".to_string())));
    let r = Response { ok: false, result: Some(1u32), description: Some("e".to_string()) };
    assert!(r.into_result() == Err(Error::Api("e".to_string())));
}

#[test]
fn success_without_a_result_is_an_invalid_state() {
    let r: Response<u32> = Response { ok: true, result: None, description: None };
    assert!(r.into_result() == Err(Error::InvalidState("Invalid server response".to_string())));
    let r: Response<u32> = Response { ok: true, result: None, description: Some("e".to_string()) };
    assert!(r.into_result() == Err(Error::InvalidState(INVALID_RESPONSE.to_string())));
}

#[test]
fn failure_without_a_description_is_an_invalid_state() {
    let r: Response<u32> = Response { ok: false, result: None, description: None };
    assert!(r.into_result() == Err(Error::InvalidState("Invalid server response".to_string())));
    let r = Response { ok: false, result: Some(3u32), description: None };
    assert!(r.into_result() == Err(Error::InvalidState("Invalid server response".to_string())));
}

#[test]
fn a_failed_exchange_is_a_transport_error() {
    let x: Exchange<u32> = Exchange::Failed("connection refused".to_string());
    assert!(x.into_result() == Err(Error::Transport("connection refused".to_string())));
}

#[test]
fn an_undecodable_body_is_a_decode_error() {
    let x: Exchange<u32> = Exchange::Undecodable("EOF".to_string());
    assert!(x.into_result() == Err(Error::Decode("EOF".to_string())));
}

#[test]
fn a_decoded_exchange_opens_its_envelope() {
    let x = Exchange::Decoded(Response { ok: true, result: Some(5u32), description: None });
    assert!(x.into_result() == Ok(5));
    let x: Exchange<u32> =
        Exchange::Decoded(Response { ok: false, result: None, description: Some("e".to_string()) });
    assert!(x.into_result() == Err(Error::Api("e".to_string())));
}

#[test]
fn the_webhook_address_is_sent_in_canonical_form() {
    let api = Api::from_token("42:x").unwrap();
    let req = api.set_webhook(Some("HTTPS://Example.COM/hook"));
    assert_eq!(req.url, "https://api.telegram.org/bot42:x/setWebhook");
    assert_eq!(req.body, "url=https://example.com/hook");
    assert_eq!(api.set_webhook(None).body, "url=");
    assert_eq!(api.try_set_webhook(Some("https://example.com")).unwrap().body, "url=https://example.com/");
    assert_eq!(api.try_set_webhook(None).unwrap().body, "url=");
}

#[test]
fn a_webhook_address_that_does_not_parse_gives_no_request() {
    let api = Api::from_token("42:x").unwrap();
    assert!(api.try_set_webhook(Some("example.com/hook")).is_none());
    assert!(api.try_set_webhook(Some("")).is_none());
}

#[test]
fn a_message_carries_the_options_that_are_given() {
    let api = Api::from_token("42:x").unwrap();
    let req = api.send_message(7, "hi".to_string(), None, None, None, None);
    assert_eq!(req.url, "https://api.telegram.org/bot42:x/sendMessage");
    assert_eq!(req.body, "chat_id=7&text=hi");
    let req = api.send_message(
        -7,
        "hi".to_string(),
        Some("Markdown".to_string()),
        Some(true),
        Some(12),
        Some("{}".to_string()),
    );
    assert_eq!(
        req.body,
        "chat_id=-7&text=hi&parse_mode=Markdown&disable_web_page_preview=true&reply_to_message_id=12&reply_markup={}"
    );
    let req = api.send_message(1, String::new(), None, Some(false), None, None);
    assert_eq!(req.body, "chat_id=1&text=&disable_web_page_preview=false");
}

#[test]
fn a_chat_action_is_sent_by_its_name() {
    let api = Api::from_token("42:x").unwrap();
    let req = api.send_chat_action(3, "typing".to_string());
    assert_eq!(req.url, "https://api.telegram.org/bot42:x/sendChatAction");
    assert_eq!(req.body, "chat_id=3&action=typing");
}

#[test]
fn a_token_from_the_environment_is_taken_like_any_other() {
    let api = Api::from_env(Ok("42:x".to_string())).unwrap();
    assert_eq!(api.get_me(), Api::from_token("42:x").unwrap().get_me());
}

#[test]
fn a_failed_lookup_of_the_token_is_passed_on() {
    match Api::from_env(Err("environment variable not found".to_string())) {
        Err(e) => assert_eq!(
            e,
            Error::InvalidEnvironmentVar("environment variable not found".to_string())
        ),
        Ok(_) => panic!("a bot without a token"),
    }
}

#[test]
fn optional_fields_are_left_out_where_nothing_is_given() {
    let mut p = Params::new();
    p.add_get_text_opt("a", None);
    p.add_get_bool_opt("b", None);
    p.add_get_opt("c", None);
    assert_eq!(p.len(), 0);
    p.add_get_text_opt("a", Some("x".to_string()));
    p.add_get_bool_opt("b", Some(false));
    p.add_get_opt("c", Some(-3));
    assert_eq!(p.encode(), "a=x&b=false&c=-3");
}

#[test]
fn the_parsers_reason_is_handed_on() {
    assert!(matches!(
        Endpoint::parse("https://example.com:99999/".to_string()),
        Err(UrlError::InvalidPort)
    ));
    assert!(matches!(
        Endpoint::parse("https://[::1/".to_string()),
        Err(UrlError::InvalidIpv6Address)
    ));
    assert!(matches!(
        Endpoint::parse("https://exa mple.com/".to_string()),
        Err(UrlError::InvalidDomainCharacter)
    ));
}

#[test]
fn a_long_token_is_taken_like_a_short_one() {
    let token = "a".repeat(2_000_000);
    let api = Api::from_token(&token).unwrap();
    assert!(api.has_room_for("getMe"));
    let req = api.get_me();
    assert_eq!(req.url.len(), API_URL.len() + token.len() + "/getMe".len());
    assert!(req.url.ends_with("aaaa/getMe"));
}

#[test]
fn a_method_has_room_while_its_address_stays_within_the_limit() {
    assert_eq!(ADDRESS_LIMIT as u64, u32::MAX as u64);
    let api = Api::from_token("t").unwrap();
    // The canonical address, https://api.telegram.org/bott/dummy, has 35 bytes.
    let most = (ADDRESS_LIMIT - 1 - 35) / 3;
    let name = "m".repeat(most + 1);
    assert!(api.has_room_for("getMe"));
    assert!(api.has_room_for(""));
    assert!(api.has_room_for(&name[..most]));
    assert!(!api.has_room_for(&name));
    assert!(api.try_request(&name, &Params::new()).is_none());
    let endpoint = Endpoint::parse("HTTPS://API.telegram.org/bott/dummy".to_string()).unwrap();
    assert!(endpoint.has_room_for(&name[..most]));
    assert!(!endpoint.has_room_for(&name));
    assert!(endpoint.try_method_url(&name).is_none());
}

#[test]
fn a_checked_request_is_the_request() {
    let api = Api::from_token("42:x").unwrap();
    let mut p = Params::new();
    p.add_get("chat_id", 4);
    let req = api.try_request("sendSticker", &p).unwrap();
    assert_eq!(req, api.request("sendSticker", &p));
    assert_eq!(req.url, "https://api.telegram.org/bot42:x/sendSticker");
    assert_eq!(req.body, "chat_id=4");
    let endpoint = Endpoint::parse("https://example.net/a/b".to_string()).unwrap();
    assert_eq!(endpoint.try_method_url("c").unwrap(), "https://example.net/a/c");
    // A name of the multi-byte kind counts by its bytes, each escaped to three.
    assert_eq!(endpoint.method_url("\u{e9}"), "https://example.net/a/%C3%A9");
}
