use antarctica_cli::api::{
    author_of, blog_url, blogs_url, create_blog_request, failure_error, latest_blogs_url, login_url, missing_data_error,
    publish_blog_request, publish_url, register_url, require_data, update_blog_request, user_blogs_url, BlogStatus,
    Endpoint, Visibility,
};
use antarctica_cli::config::{Config, UserInfo};
use antarctica_cli::utils::ErrorCode;

fn logged_in() -> Config {
    let mut c = Config::default();
    c.auth_token = Some("t".to_string());
    c.current_user = Some(UserInfo {
        id: "1".to_string(),
        username: "amy".to_string(),
        nickname: "A".to_string(),
        email: "a@x".to_string(),
        bio: None,
    });
    c
}

#[test]
fn endpoint_addresses() {
    let base = "http://h:8080";
    assert_eq!(login_url(base), "http://h:8080/api/v1/login");
    assert_eq!(register_url(base), "http://h:8080/api/v1/register");
    assert_eq!(latest_blogs_url(base, 20), "http://h:8080/api/v1/blogs/latest?per_page=20");
    assert_eq!(blog_url(base, "42"), "http://h:8080/api/v1/blogs/42");
    assert_eq!(user_blogs_url(base, "amy"), "http://h:8080/api/v1/users/amy/blogs");
    assert_eq!(blogs_url(base), "http://h:8080/api/v1/blogs");
    assert_eq!(publish_url(base, "7"), "http://h:8080/api/v1/blogs/7/publish");
}

#[test]
fn login_failures_by_status() {
    let e = failure_error(Endpoint::Login, 401, "401 Unauthorized");
    assert_eq!(e.code, ErrorCode::InvalidCredentials);
    assert_eq!(e.user_message, "用户名或密码错误");
    assert_eq!(e.detail.as_deref(), Some("登录请求失败，状态码: 401 Unauthorized"));
    assert_eq!(failure_error(Endpoint::Login, 403, "").code, ErrorCode::Forbidden);
    assert_eq!(failure_error(Endpoint::Login, 404, "").code, ErrorCode::NotFound);
    assert_eq!(failure_error(Endpoint::Login, 422, "").code, ErrorCode::ValidationError);
    assert_eq!(failure_error(Endpoint::Login, 500, "").code, ErrorCode::ServerError);
    assert_eq!(failure_error(Endpoint::Login, 503, "").code, ErrorCode::ServiceUnavailable);
    assert_eq!(failure_error(Endpoint::Login, 418, "").code, ErrorCode::AuthError);
}

#[test]
fn other_failures_by_status() {
    assert_eq!(failure_error(Endpoint::Register, 400, "").code, ErrorCode::BadRequest);
    assert_eq!(failure_error(Endpoint::Register, 409, "").code, ErrorCode::ValidationError);
    assert_eq!(failure_error(Endpoint::Register, 500, "").code, ErrorCode::HttpError);
    assert_eq!(failure_error(Endpoint::BlogDetail, 404, "").code, ErrorCode::NotFound);
    assert_eq!(failure_error(Endpoint::BlogDetail, 500, "").code, ErrorCode::HttpError);
    let e = failure_error(Endpoint::UploadBlog, 404, "x");
    assert_eq!(e.code, ErrorCode::HttpError);
    assert_eq!(e.detail.as_deref(), Some("上传博客失败，状态码: x"));
    assert_eq!(failure_error(Endpoint::LatestBlogs, 1, "s").detail.as_deref(), Some("获取博客列表失败，状态码: s"));
}

#[test]
fn missing_data_errors() {
    let e = missing_data_error(Endpoint::Login);
    assert_eq!(e.code, ErrorCode::AuthError);
    assert_eq!(e.user_message, "登录失败");
    assert!(e.detail.is_none());
    assert_eq!(missing_data_error(Endpoint::BlogDetail).user_message, "博客不存在");
    let r: Result<u32, _> = require_data(Endpoint::CreateBlog, None);
    let e = r.unwrap_err();
    assert_eq!(e.code, ErrorCode::ValidationError);
    assert_eq!(e.user_message, "创建博客失败");
    assert_eq!(require_data(Endpoint::Register, Some(5u32)).ok(), Some(5));
}

#[test]
fn requests_carry_the_author() {
    let c = logged_in();
    assert_eq!(author_of(&c), "amy");
    assert_eq!(author_of(&Config::default()), "");
    let r = create_blog_request(&c, "T".to_string(), "C".to_string(), true);
    assert_eq!(r.author_username, "amy");
    assert_eq!(r.status, BlogStatus::Published);
    assert_eq!(r.visibility, Visibility::Public);
    let u = update_blog_request(&c, "T".to_string(), "C".to_string(), false);
    assert_eq!(u.visibility, Visibility::Private);
    assert_eq!(u.title, "T");
    assert_eq!(publish_blog_request(&Config::default()).author_username, "");
}

#[test]
fn defaults_of_enums() {
    assert_eq!(Visibility::default(), Visibility::Public);
    assert_eq!(BlogStatus::default(), BlogStatus::Published);
}
