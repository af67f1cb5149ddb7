use msl_cli::api::{
    combine_home_responses, outcome_from_fetch, ApiResponse, HomeDisplayData, NoticeData,
    TipsData,
};
use msl_cli::login::{
    acceptable_email, check_login_fields, check_password, interpret_login_response, login_form,
    parse_yes_no, AuthData, PasswordIssue,
};
use msl_cli::state::FetchOutcome;

fn notice_resp(code: i32, message: &str, notice: &str) -> ApiResponse<NoticeData> {
    ApiResponse { code, message: message.to_string(), data: NoticeData { notice: notice.to_string() } }
}

fn tips_resp(code: i32, message: &str, tips: Vec<&str>) -> ApiResponse<TipsData> {
    ApiResponse {
        code,
        message: message.to_string(),
        data: TipsData { tips: tips.into_iter().map(|t| t.to_string()).collect() },
    }
}

#[test]
fn combine_takes_notice_and_tips_on_success() {
    let r = combine_home_responses(
        notice_resp(200, "ok", "<p>hi</p>"),
        tips_resp(200, "ok", vec!["a", "b"]),
    );
    match r {
        Ok(d) => {
            assert_eq!(d.notice_html, "<p>hi</p>");
            assert_eq!(d.tips, vec!["a", "b"]);
        }
        Err(e) => panic!("unexpected error: {e}"),
    }
}

#[test]
fn combine_fails_with_server_message_on_bad_notice_code() {
    let r = combine_home_responses(
        notice_resp(500, "维护中", "ignored"),
        tips_resp(200, "ok", vec![]),
    );
    match r {
        Ok(_) => panic!("expected an error"),
        Err(e) => assert_eq!(e, "获取公告错误：维护中"),
    }
}

#[test]
fn combine_fails_with_server_message_on_bad_tips_code() {
    let r = combine_home_responses(
        notice_resp(200, "ok", "<p>hi</p>"),
        tips_resp(503, "过载", vec!["ignored"]),
    );
    match r {
        Ok(_) => panic!("expected an error"),
        Err(e) => assert_eq!(e, "获取提示错误：过载"),
    }
}

#[test]
fn fetch_outcome_wraps_success_and_failure() {
    let ok = outcome_from_fetch(Ok(HomeDisplayData {
        notice_html: "body".to_string(),
        tips: vec!["a".to_string()],
    }));
    match ok {
        FetchOutcome::Loaded(a) => {
            assert_eq!(a.title, "公告");
            assert_eq!(a.content, "body");
            assert_eq!(a.tips, vec!["a"]);
        }
        FetchOutcome::Failed(e) => panic!("unexpected failure: {e}"),
    }
    let failed = outcome_from_fetch(Err("timeout".to_string()));
    match failed {
        FetchOutcome::Loaded(_) => panic!("expected a failure"),
        FetchOutcome::Failed(e) => assert_eq!(e, "timeout"),
    }
}

#[test]
fn login_fields_must_be_filled() {
    assert_eq!(check_login_fields("  ", "secret123"), Err("请输入邮箱".to_string()));
    assert_eq!(check_login_fields("a@b.c", " \t"), Err("请输入密码".to_string()));
    assert_eq!(check_login_fields("a@b.c", "secret123"), Ok(()));
}

#[test]
fn email_needs_at_sign_and_dot() {
    assert!(acceptable_email("user@example.com"));
    assert!(!acceptable_email(""));
    assert!(!acceptable_email("userexample.com"));
    assert!(!acceptable_email("user@examplecom"));
}

#[test]
fn password_needs_six_characters() {
    assert_eq!(check_password(""), Err(PasswordIssue::Empty));
    assert_eq!(check_password("abc"), Err(PasswordIssue::TooShort));
    assert_eq!(check_password("abcdef"), Ok(()));
}

#[test]
fn yes_no_answers() {
    assert_eq!(parse_yes_no("y"), Some(true));
    assert_eq!(parse_yes_no("yes"), Some(true));
    assert_eq!(parse_yes_no("n"), Some(false));
    assert_eq!(parse_yes_no("no"), Some(false));
    assert_eq!(parse_yes_no("maybe"), None);
    assert_eq!(parse_yes_no(""), None);
}

#[test]
fn login_form_holds_credentials_and_optional_twofa() {
    let short = login_form("a@b.c", "pw", None);
    assert_eq!(
        short,
        vec![
            ("email".to_string(), "a@b.c".to_string()),
            ("password".to_string(), "pw".to_string()),
        ]
    );
    let full = login_form("a@b.c", "pw", Some("123456"));
    assert_eq!(full.len(), 3);
    assert_eq!(full[2], ("twoFactorAuthKey".to_string(), "123456".to_string()));
}

#[test]
fn login_response_interpretation() {
    let err = interpret_login_response(403, "密码错误".to_string(), None);
    match err {
        Err(e) => assert_eq!(e, "密码错误"),
        Ok(_) => panic!("expected an error"),
    }
    let missing = interpret_login_response(200, "ok".to_string(), None);
    match missing {
        Err(e) => assert_eq!(e, "登录失败: 无返回数据"),
        Ok(_) => panic!("expected an error"),
    }
    let ok = interpret_login_response(
        200,
        "ok".to_string(),
        Some(AuthData { username: "oak".to_string(), token: "tok-123".to_string() }),
    );
    match ok {
        Ok(d) => {
            assert_eq!(d.username, "oak");
            assert_eq!(d.token, "tok-123");
        }
        Err(e) => panic!("unexpected error: {e}"),
    }
}
