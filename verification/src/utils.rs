//! Error codes and the application error shown to users.

use vstd::prelude::*;
use vstd::string::*;
use crate::text::{decimal, push_decimal, owned};

verus! {

/// The error codes of the application, grouped by kind:
/// system 1000-1999, network 2000-2999, HTTP 3000-3999, data 4000-4999,
/// authentication 5000-5999, input 6000-6999 and unknown 9000.
#[derive(Debug, Clone, Copy, PartialEq, Eq, Structural, Hash)]
pub enum ErrorCode {
    IoError,
    ConfigError,
    NetworkError,
    ConnectionTimeout,
    ConnectionRefused,
    DnsError,
    HttpError,
    BadRequest,
    Unauthorized,
    Forbidden,
    NotFound,
    ServerError,
    ServiceUnavailable,
    JsonError,
    ParseError,
    ValidationError,
    AuthError,
    InvalidCredentials,
    TokenExpired,
    InputError,
    InvalidInput,
    UnknownError,
}

impl ErrorCode {
    /// The number of each code.
    pub open spec fn number(self) -> u32 {
        match self {
            ErrorCode::IoError => 1000,
            ErrorCode::ConfigError => 1001,
            ErrorCode::NetworkError => 2000,
            ErrorCode::ConnectionTimeout => 2001,
            ErrorCode::ConnectionRefused => 2002,
            ErrorCode::DnsError => 2003,
            ErrorCode::HttpError => 3000,
            ErrorCode::BadRequest => 3001,
            ErrorCode::Unauthorized => 3002,
            ErrorCode::Forbidden => 3003,
            ErrorCode::NotFound => 3004,
            ErrorCode::ServerError => 3005,
            ErrorCode::ServiceUnavailable => 3006,
            ErrorCode::JsonError => 4000,
            ErrorCode::ParseError => 4001,
            ErrorCode::ValidationError => 4002,
            ErrorCode::AuthError => 5000,
            ErrorCode::InvalidCredentials => 5001,
            ErrorCode::TokenExpired => 5002,
            ErrorCode::InputError => 6000,
            ErrorCode::InvalidInput => 6001,
            ErrorCode::UnknownError => 9000,
        }
    }

    /// The message a user is shown for each code.
    pub open spec fn message(self) -> Seq<char> {
        match self {
            ErrorCode::IoError => "文件操作失败，请检查磁盘空间"@,
            ErrorCode::ConfigError => "配置文件读取失败"@,
            ErrorCode::NetworkError => "网络连接失败，请检查网络设置"@,
            ErrorCode::ConnectionTimeout => "连接超时，服务器响应过慢"@,
            ErrorCode::ConnectionRefused => "无法连接到服务器"@,
            ErrorCode::DnsError => "域名解析失败"@,
            ErrorCode::HttpError => "服务器通信异常"@,
            ErrorCode::BadRequest => "请求参数错误"@,
            ErrorCode::Unauthorized => "请先登录"@,
            ErrorCode::Forbidden => "没有权限执行此操作"@,
            ErrorCode::NotFound => "请求的资源不存在"@,
            ErrorCode::ServerError => "服务器内部错误"@,
            ErrorCode::ServiceUnavailable => "服务暂时不可用"@,
            ErrorCode::JsonError => "数据解析失败"@,
            ErrorCode::ParseError => "数据格式错误"@,
            ErrorCode::ValidationError => "数据验证失败"@,
            ErrorCode::AuthError => "认证失败"@,
            ErrorCode::InvalidCredentials => "用户名或密码错误"@,
            ErrorCode::TokenExpired => "登录已过期，请重新登录"@,
            ErrorCode::InputError => "输入错误"@,
            ErrorCode::InvalidInput => "输入内容格式不正确"@,
            ErrorCode::UnknownError => "发生未知错误"@,
        }
    }

    /// The number of this code.
    pub fn code(&self) -> (n: u32)
        ensures
            n == self.number(),
    {
        match self {
            ErrorCode::IoError => 1000,
            ErrorCode::ConfigError => 1001,
            ErrorCode::NetworkError => 2000,
            ErrorCode::ConnectionTimeout => 2001,
            ErrorCode::ConnectionRefused => 2002,
            ErrorCode::DnsError => 2003,
            ErrorCode::HttpError => 3000,
            ErrorCode::BadRequest => 3001,
            ErrorCode::Unauthorized => 3002,
            ErrorCode::Forbidden => 3003,
            ErrorCode::NotFound => 3004,
            ErrorCode::ServerError => 3005,
            ErrorCode::ServiceUnavailable => 3006,
            ErrorCode::JsonError => 4000,
            ErrorCode::ParseError => 4001,
            ErrorCode::ValidationError => 4002,
            ErrorCode::AuthError => 5000,
            ErrorCode::InvalidCredentials => 5001,
            ErrorCode::TokenExpired => 5002,
            ErrorCode::InputError => 6000,
            ErrorCode::InvalidInput => 6001,
            ErrorCode::UnknownError => 9000,
        }
    }

    /// The message a user is shown for this code.
    pub fn user_message(&self) -> (m: &'static str)
        ensures
            m@ == self.message(),
    {
        match self {
            ErrorCode::IoError => "文件操作失败，请检查磁盘空间",
            ErrorCode::ConfigError => "配置文件读取失败",
            ErrorCode::NetworkError => "网络连接失败，请检查网络设置",
            ErrorCode::ConnectionTimeout => "连接超时，服务器响应过慢",
            ErrorCode::ConnectionRefused => "无法连接到服务器",
            ErrorCode::DnsError => "域名解析失败",
            ErrorCode::HttpError => "服务器通信异常",
            ErrorCode::BadRequest => "请求参数错误",
            ErrorCode::Unauthorized => "请先登录",
            ErrorCode::Forbidden => "没有权限执行此操作",
            ErrorCode::NotFound => "请求的资源不存在",
            ErrorCode::ServerError => "服务器内部错误",
            ErrorCode::ServiceUnavailable => "服务暂时不可用",
            ErrorCode::JsonError => "数据解析失败",
            ErrorCode::ParseError => "数据格式错误",
            ErrorCode::ValidationError => "数据验证失败",
            ErrorCode::AuthError => "认证失败",
            ErrorCode::InvalidCredentials => "用户名或密码错误",
            ErrorCode::TokenExpired => "登录已过期，请重新登录",
            ErrorCode::InputError => "输入错误",
            ErrorCode::InvalidInput => "输入内容格式不正确",
            ErrorCode::UnknownError => "发生未知错误",
        }
    }
}

/// Distinct error codes have distinct numbers, and each number lies in the
/// range of its kind.
pub proof fn lemma_code_numbers_distinct(a: ErrorCode, b: ErrorCode)
    ensures
        a != b ==> a.number() != b.number(),
        1000 <= a.number() <= 9000,
{
}


/// An error of the application: its code, the message shown to the user,
/// and optionally a detail meant for the log.
#[derive(Debug)]
pub struct AppError {
    pub code: ErrorCode,
    pub user_message: String,
    pub detail: Option<String>,
}

impl Clone for AppError {
    fn clone(&self) -> (r: Self)
        ensures
            r == *self,
    {
        let detail = match &self.detail {
            Some(d) => Some(d.clone()),
            None => None,
        };
        AppError { code: self.code, user_message: self.user_message.clone(), detail }
    }
}

/// The level at which an error is logged.
#[derive(Debug, Clone, Copy, PartialEq, Eq, Structural)]
pub enum LogLevel {
    Error,
    Warn,
}

/// The result of an operation that may fail with an application error.
pub type AppResult<T> = Result<T, AppError>;

/// What is written to the log for an error.
#[derive(Debug)]
pub struct LogRecord {
    pub level: LogLevel,
    pub text: String,
    pub code: u32,
    pub user_message: String,
    pub detail: Option<String>,
}

/// The kinds of I/O failure that the application tells apart.
#[derive(Debug, Clone, Copy, PartialEq, Eq, Structural)]
pub enum IoErrorKind {
    NotFound,
    PermissionDenied,
    ConnectionRefused,
    ConnectionReset,
    ConnectionAborted,
    NotConnected,
    AddrInUse,
    AddrNotAvailable,
    BrokenPipe,
    AlreadyExists,
    WouldBlock,
    InvalidInput,
    InvalidData,
    TimedOut,
    WriteZero,
    Interrupted,
    Other,
    UnexpectedEof,
    OutOfMemory,
    Uncategorized,
}

/// The error code for each kind of I/O failure.
pub open spec fn io_error_code(kind: IoErrorKind) -> ErrorCode {
    match kind {
        IoErrorKind::NotFound => ErrorCode::NotFound,
        IoErrorKind::PermissionDenied => ErrorCode::Forbidden,
        IoErrorKind::ConnectionRefused => ErrorCode::ConnectionRefused,
        IoErrorKind::ConnectionReset => ErrorCode::NetworkError,
        IoErrorKind::ConnectionAborted => ErrorCode::NetworkError,
        IoErrorKind::NotConnected => ErrorCode::NetworkError,
        IoErrorKind::AddrInUse => ErrorCode::NetworkError,
        IoErrorKind::AddrNotAvailable => ErrorCode::NetworkError,
        IoErrorKind::BrokenPipe => ErrorCode::NetworkError,
        IoErrorKind::AlreadyExists => ErrorCode::ValidationError,
        IoErrorKind::WouldBlock => ErrorCode::NetworkError,
        IoErrorKind::InvalidInput => ErrorCode::InvalidInput,
        IoErrorKind::InvalidData => ErrorCode::ParseError,
        IoErrorKind::TimedOut => ErrorCode::ConnectionTimeout,
        IoErrorKind::WriteZero => ErrorCode::IoError,
        IoErrorKind::Interrupted => ErrorCode::IoError,
        IoErrorKind::Other => ErrorCode::UnknownError,
        IoErrorKind::UnexpectedEof => ErrorCode::ParseError,
        IoErrorKind::OutOfMemory => ErrorCode::IoError,
        IoErrorKind::Uncategorized => ErrorCode::IoError,
    }
}

/// What the application reads of a failed HTTP request.
#[derive(Debug, Clone, Copy, PartialEq, Eq, Structural)]
pub struct HttpFailure {
    pub is_timeout: bool,
    pub is_connect: bool,
    pub is_body: bool,
    pub is_decode: bool,
    pub is_request: bool,
    pub is_status: bool,
    pub status: Option<u16>,
}

/// The error code for an HTTP status that a failed request reports.
pub open spec fn status_error_code(status: u16) -> ErrorCode {
    if status == 400 {
        ErrorCode::BadRequest
    } else if status == 401 {
        ErrorCode::Unauthorized
    } else if status == 403 {
        ErrorCode::Forbidden
    } else if status == 404 {
        ErrorCode::NotFound
    } else if status == 422 {
        ErrorCode::ValidationError
    } else if status == 500 {
        ErrorCode::ServerError
    } else if status == 502 || status == 503 {
        ErrorCode::ServiceUnavailable
    } else if status == 504 {
        ErrorCode::ConnectionTimeout
    } else {
        ErrorCode::HttpError
    }
}

/// The error code for a failed HTTP request: the first of timeout, connect,
/// body, decode, request and status failure that holds decides.
pub open spec fn http_error_code(f: HttpFailure) -> ErrorCode {
    if f.is_timeout {
        ErrorCode::ConnectionTimeout
    } else if f.is_connect {
        ErrorCode::ConnectionRefused
    } else if f.is_body {
        ErrorCode::ParseError
    } else if f.is_decode {
        ErrorCode::JsonError
    } else if f.is_request {
        ErrorCode::HttpError
    } else if f.is_status {
        match f.status {
            Some(s) => status_error_code(s),
            None => ErrorCode::HttpError,
        }
    } else {
        ErrorCode::NetworkError
    }
}

/// `prefix` followed by `text`, as a new string.
fn prefixed(prefix: &str, text: &str) -> (r: String)
    ensures
        r@ == prefix@ + text@,
{
    let mut r = owned(prefix);
    r.append(text);
    r
}

/// The text of an error with its code: `[错误码: <number>] <message>`.
pub open spec fn display_with_code_text(code: ErrorCode, message: Seq<char>) -> Seq<char> {
    "[错误码: "@ + decimal(code.number() as nat) + "] "@ + message
}

impl AppError {
    /// A new error with the given code and user message, without detail.
    pub fn new(code: ErrorCode, user_message: &str) -> (e: Self)
        ensures
            e.code == code,
            e.user_message@ == user_message@,
            e.detail is None,
    {
        AppError { code, user_message: owned(user_message), detail: None }
    }

    /// The same error with the given detail.
    pub fn with_detail(self, detail: &str) -> (e: Self)
        ensures
            e.code == self.code,
            e.user_message == self.user_message,
            e.detail is Some,
            e.detail.unwrap()@ == detail@,
    {
        AppError { code: self.code, user_message: self.user_message, detail: Some(owned(detail)) }
    }

    /// The text shown for the error, with its code.
    pub fn display_with_code(&self) -> (s: String)
        ensures
            s@ == display_with_code_text(self.code, self.user_message@),
    {
        let mut s = owned("[错误码: ");
        push_decimal(&mut s, self.code.code() as u64);
        s.append("] ");
        s.append(self.user_message.as_str());
        s
    }

    fn record(&self, level: LogLevel, text: &str) -> (r: LogRecord)
        ensures
            r.level == level,
            r.text@ == text@,
            r.code == self.code.number(),
            r.user_message == self.user_message,
            r.detail == self.detail,
    {
        let e = self.clone();
        LogRecord { level, text: owned(text), code: self.code.code(), user_message: e.user_message, detail: e.detail }
    }

    /// The record that logs this error at the error level.
    pub fn log(&self) -> (r: LogRecord)
        ensures
            r.level == LogLevel::Error,
            r.text@ == "应用错误发生"@,
            r.code == self.code.number(),
            r.user_message == self.user_message,
            r.detail == self.detail,
    {
        self.record(LogLevel::Error, "应用错误发生")
    }

    /// The record that logs this error at the warning level.
    pub fn log_warn(&self) -> (r: LogRecord)
        ensures
            r.level == LogLevel::Warn,
            r.text@ == "应用警告"@,
            r.code == self.code.number(),
            r.user_message == self.user_message,
            r.detail == self.detail,
    {
        self.record(LogLevel::Warn, "应用警告")
    }

    /// The error for a code, with its standard message and the given detail.
    pub fn for_code(code: ErrorCode, detail: &str) -> (e: Self)
        ensures
            e.code == code,
            e.user_message@ == code.message(),
            e.detail is Some,
            e.detail.unwrap()@ == detail@,
    {
        AppError::new(code, code.user_message()).with_detail(detail)
    }

    /// The error for a failed I/O operation of the given kind; `error_text`
    /// is how the failure describes itself.
    pub fn from_io(kind: IoErrorKind, error_text: &str) -> (e: Self)
        ensures
            e.code == io_error_code(kind),
            e.user_message@ == io_error_code(kind).message(),
            e.detail is Some,
            e.detail.unwrap()@ == "IO错误: "@ + error_text@,
    {
        let code = match kind {
            IoErrorKind::NotFound => ErrorCode::NotFound,
            IoErrorKind::PermissionDenied => ErrorCode::Forbidden,
            IoErrorKind::ConnectionRefused => ErrorCode::ConnectionRefused,
            IoErrorKind::ConnectionReset => ErrorCode::NetworkError,
            IoErrorKind::ConnectionAborted => ErrorCode::NetworkError,
            IoErrorKind::NotConnected => ErrorCode::NetworkError,
            IoErrorKind::AddrInUse => ErrorCode::NetworkError,
            IoErrorKind::AddrNotAvailable => ErrorCode::NetworkError,
            IoErrorKind::BrokenPipe => ErrorCode::NetworkError,
            IoErrorKind::AlreadyExists => ErrorCode::ValidationError,
            IoErrorKind::WouldBlock => ErrorCode::NetworkError,
            IoErrorKind::InvalidInput => ErrorCode::InvalidInput,
            IoErrorKind::InvalidData => ErrorCode::ParseError,
            IoErrorKind::TimedOut => ErrorCode::ConnectionTimeout,
            IoErrorKind::WriteZero => ErrorCode::IoError,
            IoErrorKind::Interrupted => ErrorCode::IoError,
            IoErrorKind::Other => ErrorCode::UnknownError,
            IoErrorKind::UnexpectedEof => ErrorCode::ParseError,
            IoErrorKind::OutOfMemory => ErrorCode::IoError,
            IoErrorKind::Uncategorized => ErrorCode::IoError,
        };
        AppError::for_code(code, prefixed("IO错误: ", error_text).as_str())
    }

    /// The error for a failed HTTP request; `error_text` is how the failure
    /// describes itself.
    pub fn from_http(failure: &HttpFailure, error_text: &str) -> (e: Self)
        ensures
            e.code == http_error_code(*failure),
            e.user_message@ == http_error_code(*failure).message(),
            e.detail is Some,
            e.detail.unwrap()@ == "HTTP请求失败: "@ + error_text@,
    {
        let code = if failure.is_timeout {
            ErrorCode::ConnectionTimeout
        } else if failure.is_connect {
            ErrorCode::ConnectionRefused
        } else if failure.is_body {
            ErrorCode::ParseError
        } else if failure.is_decode {
            ErrorCode::JsonError
        } else if failure.is_request {
            ErrorCode::HttpError
        } else if failure.is_status {
            match failure.status {
                Some(s) => status_code_for(s),
                None => ErrorCode::HttpError,
            }
        } else {
            ErrorCode::NetworkError
        };
        AppError::for_code(code, prefixed("HTTP请求失败: ", error_text).as_str())
    }

    /// The error for data that failed to parse as JSON; `error_text` is how
    /// the failure describes itself.
    pub fn from_json(error_text: &str) -> (e: Self)
        ensures
            e.code == ErrorCode::JsonError,
            e.user_message@ == ErrorCode::JsonError.message(),
            e.detail is Some,
            e.detail.unwrap()@ == "JSON解析失败: "@ + error_text@,
    {
        AppError::for_code(ErrorCode::JsonError, prefixed("JSON解析失败: ", error_text).as_str())
    }
}

/// The error code for an HTTP status that a failed request reports.
pub fn status_code_for(status: u16) -> (c: ErrorCode)
    ensures
        c == status_error_code(status),
{
    if status == 400 {
        ErrorCode::BadRequest
    } else if status == 401 {
        ErrorCode::Unauthorized
    } else if status == 403 {
        ErrorCode::Forbidden
    } else if status == 404 {
        ErrorCode::NotFound
    } else if status == 422 {
        ErrorCode::ValidationError
    } else if status == 500 {
        ErrorCode::ServerError
    } else if status == 502 || status == 503 {
        ErrorCode::ServiceUnavailable
    } else if status == 504 {
        ErrorCode::ConnectionTimeout
    } else {
        ErrorCode::HttpError
    }
}

/// The short form of an error: `错误 [<number>]: <message>`.
pub open spec fn short_message_text(code: ErrorCode, message: Seq<char>) -> Seq<char> {
    "错误 ["@ + decimal(code.number() as nat) + "]: "@ + message
}

/// The full form of an error, with its detail when it has one.
pub open spec fn full_message_text(code: ErrorCode, message: Seq<char>, detail: Option<Seq<char>>) -> Seq<char> {
    let head = "错误码: "@ + decimal(code.number() as nat) + "\n"@ + "错误信息: "@ + message + "\n"@;
    let with_detail = match detail {
        Some(d) => head + "\n详细信息（供开发者参考）:\n"@ + d,
        None => head,
    };
    with_detail + "\n\n如需帮助，请提供错误码给技术支持。"@
}

/// The detail of an error as an optional character sequence.
pub open spec fn detail_view(detail: Option<String>) -> Option<Seq<char>> {
    match detail {
        Some(d) => Some(d@),
        None => None,
    }
}

/// Formats errors for the user interface.
pub struct ErrorDisplay;

impl ErrorDisplay {
    /// The short form of an error, for status bars.
    pub fn short_message(error: &AppError) -> (s: String)
        ensures
            s@ == short_message_text(error.code, error.user_message@),
    {
        let mut s = owned("错误 [");
        push_decimal(&mut s, error.code.code() as u64);
        s.append("]: ");
        s.append(error.user_message.as_str());
        s
    }

    /// The full form of an error, for error dialogs.
    pub fn full_message(error: &AppError) -> (s: String)
        ensures
            s@ == full_message_text(error.code, error.user_message@, detail_view(error.detail)),
    {
        let mut s = owned("错误码: ");
        push_decimal(&mut s, error.code.code() as u64);
        s.append("\n");
        s.append("错误信息: ");
        s.append(error.user_message.as_str());
        s.append("\n");
        match &error.detail {
            Some(d) => {
                s.append("\n详细信息（供开发者参考）:\n");
                s.append(d.as_str());
            }
            None => {}
        }
        s.append("\n\n如需帮助，请提供错误码给技术支持。");
        s
    }
}

} // verus!
