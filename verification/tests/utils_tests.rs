use antarctica_cli::utils::{status_code_for, AppError, ErrorCode, ErrorDisplay, HttpFailure, IoErrorKind, LogLevel};

fn no_failure() -> HttpFailure {
    HttpFailure {
        is_timeout: false,
        is_connect: false,
        is_body: false,
        is_decode: false,
        is_request: false,
        is_status: false,
        status: None,
    }
}

#[test]
fn test_error_code_display() {
    let err = AppError::new(ErrorCode::NetworkError, "网络错误");
    assert_eq!(err.display_with_code(), "[错误码: 2000] 网络错误");
}

#[test]
fn test_error_with_detail() {
    let err = AppError::new(ErrorCode::HttpError, "服务器错误")
        .with_detail("连接超时: http://example.com/api");

    assert_eq!(err.code.code(), 3000);
    assert_eq!(err.user_message, "服务器错误");
    assert!(err.detail.is_some());
}

#[test]
fn error_codes_and_messages() {
    let table = [
        (ErrorCode::IoError, 1000, "文件操作失败，请检查磁盘空间"),
        (ErrorCode::ConfigError, 1001, "配置文件读取失败"),
        (ErrorCode::NetworkError, 2000, "网络连接失败，请检查网络设置"),
        (ErrorCode::ConnectionTimeout, 2001, "连接超时，服务器响应过慢"),
        (ErrorCode::ConnectionRefused, 2002, "无法连接到服务器"),
        (ErrorCode::DnsError, 2003, "域名解析失败"),
        (ErrorCode::HttpError, 3000, "服务器通信异常"),
        (ErrorCode::BadRequest, 3001, "请求参数错误"),
        (ErrorCode::Unauthorized, 3002, "请先登录"),
        (ErrorCode::Forbidden, 3003, "没有权限执行此操作"),
        (ErrorCode::NotFound, 3004, "请求的资源不存在"),
        (ErrorCode::ServerError, 3005, "服务器内部错误"),
        (ErrorCode::ServiceUnavailable, 3006, "服务暂时不可用"),
        (ErrorCode::JsonError, 4000, "数据解析失败"),
        (ErrorCode::ParseError, 4001, "数据格式错误"),
        (ErrorCode::ValidationError, 4002, "数据验证失败"),
        (ErrorCode::AuthError, 5000, "认证失败"),
        (ErrorCode::InvalidCredentials, 5001, "用户名或密码错误"),
        (ErrorCode::TokenExpired, 5002, "登录已过期，请重新登录"),
        (ErrorCode::InputError, 6000, "输入错误"),
        (ErrorCode::InvalidInput, 6001, "输入内容格式不正确"),
        (ErrorCode::UnknownError, 9000, "发生未知错误"),
    ];
    for (code, number, message) in table {
        assert_eq!(code.code(), number);
        assert_eq!(code.user_message(), message);
    }
}

#[test]
fn error_without_detail_has_none() {
    let err = AppError::new(ErrorCode::AuthError, "认证失败");
    assert!(err.detail.is_none());
    assert_eq!(err.code, ErrorCode::AuthError);
}

#[test]
fn with_detail_keeps_code_and_message() {
    let err = AppError::new(ErrorCode::NotFound, "没有").with_detail("细节");
    assert_eq!(err.code, ErrorCode::NotFound);
    assert_eq!(err.user_message, "没有");
    assert_eq!(err.detail.as_deref(), Some("细节"));
}

#[test]
fn log_records_error_and_warning() {
    let err = AppError::new(ErrorCode::ServerError, "服务器内部错误").with_detail("500");
    let r = err.log();
    assert_eq!(r.level, LogLevel::Error);
    assert_eq!(r.text, "应用错误发生");
    assert_eq!(r.code, 3005);
    assert_eq!(r.user_message, "服务器内部错误");
    assert_eq!(r.detail.as_deref(), Some("500"));
    let w = err.log_warn();
    assert_eq!(w.level, LogLevel::Warn);
    assert_eq!(w.code, 3005);
}

#[test]
fn for_code_uses_the_codes_message() {
    let err = AppError::for_code(ErrorCode::Forbidden, "no");
    assert_eq!(err.user_message, "没有权限执行此操作");
    assert_eq!(err.detail.as_deref(), Some("no"));
}

#[test]
fn io_errors_map_to_codes() {
    let err = AppError::from_io(IoErrorKind::NotFound, "missing");
    assert_eq!(err.code, ErrorCode::NotFound);
    assert_eq!(err.user_message, "请求的资源不存在");
    assert_eq!(err.detail.as_deref(), Some("IO错误: missing"));
    assert_eq!(AppError::from_io(IoErrorKind::PermissionDenied, "x").code, ErrorCode::Forbidden);
    assert_eq!(AppError::from_io(IoErrorKind::TimedOut, "x").code, ErrorCode::ConnectionTimeout);
    assert_eq!(AppError::from_io(IoErrorKind::InvalidData, "x").code, ErrorCode::ParseError);
    assert_eq!(AppError::from_io(IoErrorKind::AlreadyExists, "x").code, ErrorCode::ValidationError);
    assert_eq!(AppError::from_io(IoErrorKind::Other, "x").code, ErrorCode::UnknownError);
    assert_eq!(AppError::from_io(IoErrorKind::Uncategorized, "x").code, ErrorCode::IoError);
    assert_eq!(AppError::from_io(IoErrorKind::BrokenPipe, "x").code, ErrorCode::NetworkError);
}

#[test]
fn http_errors_map_to_codes_in_order() {
    let mut f = no_failure();
    assert_eq!(AppError::from_http(&f, "x").code, ErrorCode::NetworkError);
    f.is_status = true;
    f.status = Some(404);
    let err = AppError::from_http(&f, "boom");
    assert_eq!(err.code, ErrorCode::NotFound);
    assert_eq!(err.detail.as_deref(), Some("HTTP请求失败: boom"));
    f.status = None;
    assert_eq!(AppError::from_http(&f, "x").code, ErrorCode::HttpError);
    f.is_request = true;
    assert_eq!(AppError::from_http(&f, "x").code, ErrorCode::HttpError);
    f.is_decode = true;
    assert_eq!(AppError::from_http(&f, "x").code, ErrorCode::JsonError);
    f.is_body = true;
    assert_eq!(AppError::from_http(&f, "x").code, ErrorCode::ParseError);
    f.is_connect = true;
    assert_eq!(AppError::from_http(&f, "x").code, ErrorCode::ConnectionRefused);
    f.is_timeout = true;
    assert_eq!(AppError::from_http(&f, "x").code, ErrorCode::ConnectionTimeout);
}

#[test]
fn status_codes_map_to_error_codes() {
    assert_eq!(status_code_for(400), ErrorCode::BadRequest);
    assert_eq!(status_code_for(401), ErrorCode::Unauthorized);
    assert_eq!(status_code_for(403), ErrorCode::Forbidden);
    assert_eq!(status_code_for(404), ErrorCode::NotFound);
    assert_eq!(status_code_for(422), ErrorCode::ValidationError);
    assert_eq!(status_code_for(500), ErrorCode::ServerError);
    assert_eq!(status_code_for(502), ErrorCode::ServiceUnavailable);
    assert_eq!(status_code_for(503), ErrorCode::ServiceUnavailable);
    assert_eq!(status_code_for(504), ErrorCode::ConnectionTimeout);
    assert_eq!(status_code_for(418), ErrorCode::HttpError);
}

#[test]
fn json_error_has_its_code() {
    let err = AppError::from_json("expected value");
    assert_eq!(err.code, ErrorCode::JsonError);
    assert_eq!(err.user_message, "数据解析失败");
    assert_eq!(err.detail.as_deref(), Some("JSON解析失败: expected value"));
}

#[test]
fn error_display_short_and_full() {
    let err = AppError::new(ErrorCode::NetworkError, "网络错误");
    assert_eq!(ErrorDisplay::short_message(&err), "错误 [2000]: 网络错误");
    assert_eq!(
        ErrorDisplay::full_message(&err),
        "错误码: 2000\n错误信息: 网络错误\n\n\n如需帮助，请提供错误码给技术支持。"
    );
    let detailed = err.with_detail("d");
    assert_eq!(
        ErrorDisplay::full_message(&detailed),
        "错误码: 2000\n错误信息: 网络错误\n\n详细信息（供开发者参考）:\nd\n\n如需帮助，请提供错误码给技术支持。"
    );
}
