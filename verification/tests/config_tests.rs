use antarctica_cli::config::{default_server_url_string, Config, UserInfo};

fn test_user() -> UserInfo {
    UserInfo {
        id: "1".to_string(),
        username: "test".to_string(),
        nickname: "Test".to_string(),
        email: "test@example.com".to_string(),
        bio: None,
    }
}

#[test]
fn test_config_default() {
    let config = Config::default();
    assert_eq!(config.server_url, "http://localhost:8080");
    assert!(config.auth_token.is_none());
    assert!(config.current_user.is_none());
}

#[test]
fn test_config_is_authenticated() {
    let mut config = Config::default();
    assert!(!config.is_authenticated());

    config.auth_token = Some("token".to_string());
    assert!(!config.is_authenticated());

    config.current_user = Some(UserInfo {
        id: "1".to_string(),
        username: "test".to_string(),
        nickname: "Test".to_string(),
        email: "test@example.com".to_string(),
        bio: None,
    });
    assert!(config.is_authenticated());
}

#[test]
fn user_without_token_is_not_authenticated() {
    let mut config = Config::default();
    config.current_user = Some(test_user());
    assert!(!config.is_authenticated());
}

#[test]
fn clear_auth_logs_out_and_keeps_server() {
    let mut config = Config::default();
    config.server_url = "http://blog.example".to_string();
    config.auth_token = Some("token".to_string());
    config.current_user = Some(test_user());
    assert!(config.is_authenticated());
    config.clear_auth();
    assert!(!config.is_authenticated());
    assert!(config.auth_token.is_none());
    assert!(config.current_user.is_none());
    assert_eq!(config.server_url, "http://blog.example");
}

#[test]
fn default_server_url_is_localhost() {
    assert_eq!(default_server_url_string(), "http://localhost:8080");
}

#[test]
fn display_info_logged_out() {
    let config = Config::default();
    let lines = config.display_info();
    assert_eq!(lines, vec![
        "当前配置信息:".to_string(),
        "  服务器地址: http://localhost:8080".to_string(),
        "  登录状态: 未登录".to_string(),
    ]);
}

#[test]
fn display_info_logged_in() {
    let mut config = Config::default();
    config.auth_token = Some("token".to_string());
    config.current_user = Some(test_user());
    let lines = config.display_info();
    assert_eq!(lines.len(), 4);
    assert_eq!(lines[2], "  登录状态: 已登录");
    assert_eq!(lines[3], "  当前用户: test (Test)");
}
