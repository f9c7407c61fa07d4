use saved_accounts::auth::{
    AccountPlanType, AgentIdentityAuthRecord, ApiAuthMode, AuthDotJson, IdTokenInfo, TokenData,
};
use saved_accounts::fetch::{after_refresh, after_usage, begin_fetch, FetchPhase};
use saved_accounts::limits::{
    map_backend_plan_type, map_rate_limit_reached_type, rate_limit_snapshots_from_payload,
    window_minutes_from_seconds, AdditionalRateLimitDetails, BackendPlanType,
    BackendRateLimitReachedKind, CreditStatusDetails, CreditsSnapshot, RateLimitReachedDetails,
    RateLimitReachedType, RateLimitSnapshot, RateLimitStatusDetails, RateLimitStatusPayload,
    RateLimitWindow, RateLimitWindowSnapshot,
};
use saved_accounts::refresh::{
    refresh_refusal, refresh_request, refresh_saved_chatgpt_auth, refresh_token_endpoint,
    should_refresh_proactively, RefreshReply, RefreshRequest, RefreshResponse,
};
use saved_accounts::time::{Timestamp, LAST_CLOCK_SECOND};
use saved_accounts::usage::{
    request_usage_payload, usage_headers, usage_refusal, usage_request, usage_request_url,
    UsageFetchError, UsageReply,
};

const DAY: i64 = 86_400;

fn at(secs: i64) -> Timestamp {
    Timestamp { secs, nanos: 0 }
}

fn claims() -> IdTokenInfo {
    IdTokenInfo {
        email: Some("a@example.com".to_string()),
        chatgpt_plan_type: None,
        chatgpt_user_id: None,
        chatgpt_account_id: Some("acct_claims".to_string()),
        chatgpt_account_is_fedramp: false,
        raw_jwt: "jwt".to_string(),
    }
}

fn tokens() -> TokenData {
    TokenData {
        id_token: claims(),
        access_token: "access".to_string(),
        refresh_token: "refresh".to_string(),
        account_id: Some("acct_stored".to_string()),
    }
}

fn auth() -> AuthDotJson {
    AuthDotJson {
        auth_mode: Some(ApiAuthMode::Chatgpt),
        openai_api_key: None,
        tokens: Some(tokens()),
        last_refresh: Some(at(0)),
        agent_identity: None,
    }
}

fn without_tokens() -> AuthDotJson {
    AuthDotJson { tokens: None, ..auth() }
}

fn window(used_percent: i32, seconds: i32, reset_at: i32) -> Option<Option<Box<RateLimitWindowSnapshot>>> {
    Some(Some(Box::new(RateLimitWindowSnapshot {
        used_percent,
        limit_window_seconds: seconds,
        reset_at,
    })))
}

fn bare_payload() -> RateLimitStatusPayload {
    RateLimitStatusPayload {
        plan_type: BackendPlanType::Plus,
        rate_limit: None,
        credits: None,
        additional_rate_limits: None,
        rate_limit_reached_type: None,
    }
}

fn bare_snapshot() -> RateLimitSnapshot {
    RateLimitSnapshot {
        limit_id: Some("codex".to_string()),
        limit_name: None,
        primary: None,
        secondary: None,
        credits: None,
        plan_type: Some(AccountPlanType::Plus),
        rate_limit_reached_type: None,
    }
}

#[test]
fn usage_urls_follow_the_base_address() {
    assert_eq!(usage_request_url(None), "https://chatgpt.com/backend-api/wham/usage");
    assert_eq!(
        usage_request_url(Some("https://chatgpt.com/backend-api/")),
        "https://chatgpt.com/backend-api/wham/usage"
    );
    assert_eq!(
        usage_request_url(Some("https://chat.openai.com//")),
        "https://chat.openai.com/backend-api/wham/usage"
    );
    assert_eq!(
        usage_request_url(Some("https://example.com/")),
        "https://example.com/api/codex/usage"
    );
    assert_eq!(
        usage_request_url(Some("https://example.com/backend-api")),
        "https://example.com/backend-api/wham/usage"
    );
    assert_eq!(usage_request_url(Some("///")), "/api/codex/usage");
    assert_eq!(
        usage_request_url(Some("https://example.com")),
        usage_request_url(Some("https://example.com/"))
    );
}

#[test]
fn usage_headers_name_agent_token_and_account() {
    let headers = usage_headers(&auth(), &tokens(), "codex/1.0");
    assert_eq!(headers.len(), 3);
    assert_eq!(headers["user-agent"], "codex/1.0");
    assert_eq!(headers["authorization"], "Bearer access");
    assert_eq!(headers["ChatGPT-Account-Id"], "acct_stored");
    assert!(headers.get("X-OpenAI-Fedramp").is_none());
}

#[test]
fn usage_headers_leave_out_what_no_header_can_hold() {
    let mut tokens = tokens();
    tokens.access_token = "line\nbreak".to_string();
    tokens.account_id = None;
    let headers = usage_headers(&auth(), &tokens, "tab\tis fine");
    assert_eq!(headers.len(), 2);
    assert_eq!(headers["user-agent"], "tab\tis fine");
    assert_eq!(headers["chatgpt-account-id"], "acct_claims");
    let refused = usage_headers(&auth(), &tokens, "\u{7f}");
    assert_eq!(refused.len(), 1);
    let wide = usage_headers(&auth(), &tokens, "caf\u{e9}");
    assert_eq!(wide["user-agent"].as_bytes(), "caf\u{e9}".as_bytes());
}

#[test]
fn usage_headers_prefer_the_agent_and_mark_fedramp() {
    let agent = AuthDotJson {
        agent_identity: Some(AgentIdentityAuthRecord {
            agent_runtime_id: String::new(),
            agent_private_key: String::new(),
            account_id: "acct_agent".to_string(),
            chatgpt_user_id: String::new(),
            email: "agent@example.com".to_string(),
            plan_type: AccountPlanType::Enterprise,
            chatgpt_account_is_fedramp: true,
        }),
        ..auth()
    };
    let headers = usage_headers(&agent, &tokens(), "ua");
    assert_eq!(headers["chatgpt-account-id"], "acct_agent");
    assert_eq!(headers["x-openai-fedramp"], "true");

    let mut fedramp = tokens();
    fedramp.id_token.chatgpt_account_is_fedramp = true;
    assert_eq!(usage_headers(&auth(), &fedramp, "ua")["x-openai-fedramp"], "true");
}

#[test]
fn usage_is_asked_for_with_tokens_only() {
    let request = usage_request(&auth(), Some("https://example.com"), "ua").expect("request");
    assert_eq!(request.url, "https://example.com/api/codex/usage");
    assert_eq!(request.headers.len(), 3);
    let refused = usage_request(&without_tokens(), None, "ua").expect_err("no tokens");
    assert_eq!(refused, UsageFetchError::Other("token data is not available".to_string()));
}

#[test]
fn usage_replies_are_sorted_out() {
    let answered = |status: u16, decoded: Result<RateLimitStatusPayload, String>| {
        request_usage_payload(UsageReply::Answered {
            status,
            content_type: "text/html".to_string(),
            decoded,
        })
    };
    assert_eq!(answered(200, Ok(bare_payload())), Ok(bare_payload()));
    assert_eq!(answered(401, Ok(bare_payload())), Err(UsageFetchError::Unauthorized));
    assert_eq!(
        answered(503, Ok(bare_payload())),
        Err(UsageFetchError::Other(
            "usage request failed: 503 Service Unavailable; content-type=text/html".to_string()
        ))
    );
    assert_eq!(
        answered(299, Err("eof".to_string())),
        Err(UsageFetchError::Other(
            "failed to decode usage payload: eof; content-type=text/html".to_string()
        ))
    );
    assert_eq!(
        request_usage_payload(UsageReply::Unsent("offline".to_string())),
        Err(UsageFetchError::Other("offline".to_string()))
    );
    assert_eq!(
        usage_refusal("599 <unknown status code>", ""),
        "usage request failed: 599 <unknown status code>; content-type="
    );
}

#[test]
fn tokens_are_refreshed_when_they_expired() {
    let now = at(100 * DAY);
    assert!(should_refresh_proactively(&auth(), Some(now), now));
    assert!(should_refresh_proactively(&auth(), Some(at(1)), now));
    let later = Timestamp { secs: now.secs, nanos: 1 };
    assert!(!should_refresh_proactively(&auth(), Some(later), now));
}

#[test]
fn tokens_are_refreshed_when_they_are_old() {
    let last = |secs: i64, nanos: u32| AuthDotJson {
        last_refresh: Some(Timestamp { secs, nanos }),
        ..auth()
    };
    let now = Timestamp { secs: 100 * DAY, nanos: 5 };
    assert!(should_refresh_proactively(&last(92 * DAY, 4), None, now));
    assert!(!should_refresh_proactively(&last(92 * DAY, 5), None, now));
    assert!(!should_refresh_proactively(&AuthDotJson { last_refresh: None, ..auth() }, None, now));
    // Without tokens the expiry is not looked at.
    assert!(should_refresh_proactively(&without_tokens(), Some(at(200 * DAY)), now));
    // The first and the last second that a clock can show.
    assert!(!should_refresh_proactively(&last(0, 0), None, at(0)));
    assert!(should_refresh_proactively(&last(0, 0), None, at(LAST_CLOCK_SECOND)));
    assert_eq!(LAST_CLOCK_SECOND, chrono::DateTime::<chrono::Utc>::MAX_UTC.timestamp());
}

#[test]
fn timestamps_are_ordered_as_dates_are() {
    let dates = |t: Timestamp| {
        chrono::DateTime::<chrono::Utc>::from_timestamp(t.secs, t.nanos).expect("date")
    };
    let times = [
        at(-1),
        at(0),
        Timestamp { secs: 59, nanos: 999_999_999 },
        Timestamp { secs: 59, nanos: 1_500_000_000 },
        at(60),
    ];
    for a in times {
        for b in times {
            assert_eq!(a.is_earlier_than(&b), dates(a) < dates(b));
        }
    }
}

#[test]
fn refresh_requests_carry_the_refresh_token() {
    assert_eq!(
        refresh_request(&auth(), "client"),
        Ok(RefreshRequest {
            client_id: "client".to_string(),
            grant_type: "refresh_token".to_string(),
            refresh_token: "refresh".to_string(),
        })
    );
    assert_eq!(
        refresh_request(&without_tokens(), "client"),
        Err("token data is not available".to_string())
    );
    let mut spent = auth();
    spent.tokens = Some(TokenData { refresh_token: String::new(), ..tokens() });
    assert_eq!(
        refresh_request(&spent, "client"),
        Err("credentials cannot be refreshed".to_string())
    );
    assert_eq!(refresh_token_endpoint(None), "https://auth.openai.com/oauth/token");
    assert_eq!(refresh_token_endpoint(Some("http://x".to_string())), "http://x");
}

#[test]
fn a_refresh_replaces_what_it_brings() {
    let mut refreshed = auth();
    let fresh = RefreshResponse {
        id_token: None,
        access_token: Some("new access".to_string()),
        refresh_token: None,
    };
    let reply = RefreshReply::Answered { status: 200, decoded: Ok(fresh) };
    assert_eq!(refresh_saved_chatgpt_auth(&mut refreshed, reply, at(5)), Ok(()));
    let expected = AuthDotJson {
        tokens: Some(TokenData { access_token: "new access".to_string(), ..tokens() }),
        last_refresh: Some(at(5)),
        ..auth()
    };
    assert_eq!(refreshed, expected);

    let parsed = IdTokenInfo { email: Some("b@example.com".to_string()), ..claims() };
    let fresh = RefreshResponse {
        id_token: Some(Ok(parsed.clone())),
        access_token: None,
        refresh_token: Some("new refresh".to_string()),
    };
    let reply = RefreshReply::Answered { status: 201, decoded: Ok(fresh) };
    assert_eq!(refresh_saved_chatgpt_auth(&mut refreshed, reply, at(6)), Ok(()));
    let tokens = refreshed.tokens.expect("tokens");
    assert_eq!(tokens.id_token, parsed);
    assert_eq!(tokens.access_token, "new access");
    assert_eq!(tokens.refresh_token, "new refresh");
    assert_eq!(tokens.account_id, Some("acct_stored".to_string()));
}

#[test]
fn a_refresh_that_fails_changes_nothing() {
    let nothing = || RefreshResponse { id_token: None, access_token: None, refresh_token: None };
    let bad_claims = RefreshResponse {
        id_token: Some(Err("no payload".to_string())),
        access_token: Some("new".to_string()),
        refresh_token: None,
    };
    let cases = vec![
        (RefreshReply::Unsent("offline".to_string()), "offline"),
        (
            RefreshReply::Answered { status: 401, decoded: Ok(nothing()) },
            "credentials expired",
        ),
        (
            RefreshReply::Answered { status: 500, decoded: Ok(nothing()) },
            "token refresh failed: 500 Internal Server Error",
        ),
        (
            RefreshReply::Answered { status: 200, decoded: Err("eof".to_string()) },
            "failed to decode refreshed credentials: eof",
        ),
        (
            RefreshReply::Answered { status: 200, decoded: Ok(bad_claims) },
            "failed to parse refreshed ID token: no payload",
        ),
    ];
    for (reply, error) in cases {
        let mut unchanged = auth();
        assert_eq!(
            refresh_saved_chatgpt_auth(&mut unchanged, reply, at(5)),
            Err(error.to_string())
        );
        assert_eq!(unchanged, auth());
    }
    let reply = RefreshReply::Answered { status: 200, decoded: Ok(nothing()) };
    assert_eq!(
        refresh_saved_chatgpt_auth(&mut without_tokens(), reply, at(5)),
        Err("token data is not available".to_string())
    );
    assert_eq!(refresh_refusal(404, "404 Not Found"), "token refresh failed: 404 Not Found");
}

#[test]
fn a_fetch_retries_once_after_a_refusal() {
    let start = begin_fetch(&auth(), None, at(DAY));
    assert_eq!(start, FetchPhase::FirstRequest);
    let refused = after_usage(start, Err(UsageFetchError::Unauthorized));
    assert_eq!(refused, FetchPhase::RefreshAgain);
    let again = after_refresh(refused, Ok(()));
    assert_eq!(again, FetchPhase::SecondRequest);
    assert_eq!(
        after_usage(again, Err(UsageFetchError::Unauthorized)),
        FetchPhase::Done(Err("credentials expired".to_string()))
    );
    assert_eq!(
        after_usage(FetchPhase::SecondRequest, Ok(bare_payload())),
        FetchPhase::Done(Ok(vec![bare_snapshot()]))
    );
}

#[test]
fn a_fetch_refreshes_stale_tokens_first() {
    let start = begin_fetch(&auth(), None, at(9 * DAY));
    assert_eq!(start, FetchPhase::RefreshFirst);
    assert_eq!(after_refresh(start, Ok(())), FetchPhase::FirstRequest);
    assert_eq!(
        after_refresh(FetchPhase::RefreshFirst, Err("no".to_string())),
        FetchPhase::Done(Err("no".to_string()))
    );
    assert_eq!(
        after_usage(FetchPhase::FirstRequest, Err(UsageFetchError::Other("bad".to_string()))),
        FetchPhase::Done(Err("bad".to_string()))
    );
}

#[test]
fn windows_are_measured_in_whole_minutes() {
    assert_eq!(window_minutes_from_seconds(-5), None);
    assert_eq!(window_minutes_from_seconds(0), None);
    assert_eq!(window_minutes_from_seconds(1), Some(1));
    assert_eq!(window_minutes_from_seconds(60), Some(1));
    assert_eq!(window_minutes_from_seconds(61), Some(2));
    assert_eq!(window_minutes_from_seconds(18_000), Some(300));
    assert_eq!(window_minutes_from_seconds(i32::MAX), Some(35_791_395));
}

#[test]
fn backend_plans_are_mapped() {
    assert_eq!(map_backend_plan_type(BackendPlanType::Guest), AccountPlanType::Free);
    assert_eq!(map_backend_plan_type(BackendPlanType::FreeWorkspace), AccountPlanType::Free);
    assert_eq!(map_backend_plan_type(BackendPlanType::Education), AccountPlanType::Edu);
    assert_eq!(map_backend_plan_type(BackendPlanType::Quorum), AccountPlanType::Unknown);
    assert_eq!(map_backend_plan_type(BackendPlanType::K12), AccountPlanType::Unknown);
    assert_eq!(map_backend_plan_type(BackendPlanType::ProLite), AccountPlanType::ProLite);
    assert_eq!(map_rate_limit_reached_type(BackendRateLimitReachedKind::Unknown), None);
    assert_eq!(
        map_rate_limit_reached_type(BackendRateLimitReachedKind::WorkspaceOwnerCreditsDepleted),
        Some(RateLimitReachedType::WorkspaceOwnerCreditsDepleted)
    );
}

#[test]
fn snapshots_list_the_main_limit_first() {
    let payload = RateLimitStatusPayload {
        plan_type: BackendPlanType::Plus,
        rate_limit: Some(Some(Box::new(RateLimitStatusDetails {
            primary_window: window(25, 18_000, 1_700_000_000),
            secondary_window: Some(None),
        }))),
        credits: Some(Some(Box::new(CreditStatusDetails {
            has_credits: true,
            unlimited: false,
            balance: Some(Some("4.20".to_string())),
        }))),
        additional_rate_limits: Some(Some(vec![AdditionalRateLimitDetails {
            limit_name: "Reviews".to_string(),
            metered_feature: "codex_reviews".to_string(),
            rate_limit: Some(Some(Box::new(RateLimitStatusDetails {
                primary_window: None,
                secondary_window: window(80, 0, 5),
            }))),
        }])),
        rate_limit_reached_type: Some(Some(Box::new(RateLimitReachedDetails {
            kind: BackendRateLimitReachedKind::RateLimitReached,
        }))),
    };
    let expected = vec![
        RateLimitSnapshot {
            primary: Some(RateLimitWindow {
                used_percent: 25,
                window_minutes: Some(300),
                resets_at: Some(1_700_000_000),
            }),
            credits: Some(CreditsSnapshot {
                has_credits: true,
                unlimited: false,
                balance: Some("4.20".to_string()),
            }),
            rate_limit_reached_type: Some(RateLimitReachedType::RateLimitReached),
            ..bare_snapshot()
        },
        RateLimitSnapshot {
            limit_id: Some("codex_reviews".to_string()),
            limit_name: Some("Reviews".to_string()),
            secondary: Some(RateLimitWindow {
                used_percent: 80,
                window_minutes: None,
                resets_at: Some(5),
            }),
            ..bare_snapshot()
        },
    ];
    assert_eq!(rate_limit_snapshots_from_payload(payload), expected);
    assert_eq!(rate_limit_snapshots_from_payload(bare_payload()), vec![bare_snapshot()]);
}
