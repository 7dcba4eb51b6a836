//! The data exchanged with the blog server, the addresses of its endpoints,
//! and how its answers become results or errors.

use vstd::prelude::*;
use vstd::string::*;
use crate::text::{owned, push_decimal, decimal};
use crate::config::{Config, UserInfo};
use crate::utils::{AppError, ErrorCode};

verus! {

/// Who may read a blog.
#[derive(Debug, Clone, Copy, PartialEq, Eq, Structural)]
pub enum Visibility {
    Public,
    Private,
}

impl Default for Visibility {
    fn default() -> (v: Self)
        ensures
            v == Visibility::Public,
    {
        Visibility::Public
    }
}

/// The state of a blog on the server.
#[derive(Debug, Clone, Copy, PartialEq, Eq, Structural)]
pub enum BlogStatus {
    Draft,
    Published,
    Deleted,
}

impl Default for BlogStatus {
    fn default() -> (s: Self)
        ensures
            s == BlogStatus::Published,
    {
        BlogStatus::Published
    }
}

/// The author of a blog.
#[derive(Debug)]
pub struct AuthorInfo {
    pub id: String,
    pub username: String,
}

impl Clone for AuthorInfo {
    fn clone(&self) -> (r: Self)
        ensures
            r == *self,
    {
        AuthorInfo { id: self.id.clone(), username: self.username.clone() }
    }
}

/// A blog, as listed and as shown in full.
#[derive(Debug)]
pub struct Blog {
    pub id: String,
    pub title: String,
    pub content: String,
    pub html_content: String,
    pub author: AuthorInfo,
    pub created_at: String,
    pub updated_at: String,
    pub status: BlogStatus,
    pub visibility: Visibility,
}

impl Clone for Blog {
    fn clone(&self) -> (r: Self)
        ensures
            r == *self,
    {
        Blog {
            id: self.id.clone(),
            title: self.title.clone(),
            content: self.content.clone(),
            html_content: self.html_content.clone(),
            author: self.author.clone(),
            created_at: self.created_at.clone(),
            updated_at: self.updated_at.clone(),
            status: self.status,
            visibility: self.visibility,
        }
    }
}

/// A blog shown in full.
pub type BlogDetail = Blog;

/// A blog in a list.
pub type BlogListItem = Blog;


/// A login request.
#[derive(Debug)]
pub struct LoginRequest {
    pub username: String,
    pub password: String,
}

/// A registration request.
#[derive(Debug)]
pub struct RegisterRequest {
    pub username: String,
    pub nickname: String,
    pub password: String,
    pub email: String,
}

/// The envelope of every answer of the server.
#[derive(Debug)]
pub struct ApiResponse<T> {
    pub code: u16,
    pub message: String,
    pub data: Option<T>,
    pub timestamp: Option<String>,
}

/// Where a page of a list lies.
#[derive(Debug)]
pub struct PaginationInfo {
    pub total: u64,
    pub page: u64,
    pub per_page: u64,
    pub total_pages: u64,
}

/// The envelope of a paginated answer.
#[derive(Debug)]
pub struct PaginatedResponse<T> {
    pub code: u16,
    pub message: String,
    pub data: Vec<T>,
    pub pagination: PaginationInfo,
    pub timestamp: Option<String>,
}

/// The answer to a successful login.
#[derive(Debug)]
pub struct LoginResponse {
    pub token: String,
    pub user: UserInfo,
}

/// A request that creates a blog.
#[derive(Debug)]
pub struct CreateBlogRequest {
    pub title: String,
    pub content: String,
    pub status: BlogStatus,
    pub visibility: Visibility,
    pub author_username: String,
}

/// A request that changes a blog.
#[derive(Debug)]
pub struct UpdateBlogRequest {
    pub title: String,
    pub content: String,
    pub visibility: Visibility,
    pub author_username: String,
}

/// A request that publishes a blog.
#[derive(Debug)]
pub struct PublishBlogRequest {
    pub author_username: String,
}

/// The endpoints of the server.
#[derive(Debug, Clone, Copy, PartialEq, Eq, Structural)]
pub enum Endpoint {
    Login,
    Register,
    LatestBlogs,
    BlogDetail,
    UserBlogs,
    CreateBlog,
    UpdateBlog,
    UploadBlog,
}

/// `base` followed by `a`, as a new string.
fn concat2(base: &str, a: &str) -> (r: String)
    ensures
        r@ == base@ + a@,
{
    let mut r = owned(base);
    r.append(a);
    r
}

/// `base` followed by the parts, as a new string.
fn concat3(base: &str, a: &str, b: &str) -> (r: String)
    ensures
        r@ == base@ + a@ + b@,
{
    let mut r = owned(base);
    r.append(a);
    r.append(b);
    r
}

/// The address of the login endpoint.
pub fn login_url(base: &str) -> (u: String)
    ensures
        u@ == base@ + "/api/v1/login"@,
{
    concat2(base, "/api/v1/login")
}

/// The address of the registration endpoint.
pub fn register_url(base: &str) -> (u: String)
    ensures
        u@ == base@ + "/api/v1/register"@,
{
    concat2(base, "/api/v1/register")
}

/// The address of the latest public blogs, `limit` of them.
pub fn latest_blogs_url(base: &str, limit: u64) -> (u: String)
    ensures
        u@ == base@ + "/api/v1/blogs/latest?per_page="@ + decimal(limit as nat),
{
    let mut u = concat2(base, "/api/v1/blogs/latest?per_page=");
    push_decimal(&mut u, limit);
    u
}

/// The address of a blog.
pub fn blog_url(base: &str, blog_id: &str) -> (u: String)
    ensures
        u@ == base@ + "/api/v1/blogs/"@ + blog_id@,
{
    concat3(base, "/api/v1/blogs/", blog_id)
}

/// The address of a user's blogs.
pub fn user_blogs_url(base: &str, username: &str) -> (u: String)
    ensures
        u@ == base@ + "/api/v1/users/"@ + username@ + "/blogs"@,
{
    let mut u = concat3(base, "/api/v1/users/", username);
    u.append("/blogs");
    u
}

/// The address where blogs are created.
pub fn blogs_url(base: &str) -> (u: String)
    ensures
        u@ == base@ + "/api/v1/blogs"@,
{
    concat2(base, "/api/v1/blogs")
}

/// The address that publishes a blog.
pub fn publish_url(base: &str, blog_id: &str) -> (u: String)
    ensures
        u@ == base@ + "/api/v1/blogs/"@ + blog_id@ + "/publish"@,
{
    let mut u = concat3(base, "/api/v1/blogs/", blog_id);
    u.append("/publish");
    u
}

/// The error code when an endpoint answers with a failing status.
pub open spec fn failure_code(endpoint: Endpoint, status: u16) -> ErrorCode {
    match endpoint {
        Endpoint::Login => if status == 401 { ErrorCode::InvalidCredentials } else if status == 403 { ErrorCode::Forbidden }
            else if status == 404 { ErrorCode::NotFound } else if status == 422 { ErrorCode::ValidationError }
            else if status == 500 { ErrorCode::ServerError } else if status == 503 { ErrorCode::ServiceUnavailable }
            else { ErrorCode::AuthError },
        Endpoint::Register => if status == 400 { ErrorCode::BadRequest } else if status == 409 || status == 422 {
            ErrorCode::ValidationError } else { ErrorCode::HttpError },
        Endpoint::BlogDetail => if status == 404 { ErrorCode::NotFound } else { ErrorCode::HttpError },
        _ => ErrorCode::HttpError,
    }
}

/// What the detail of a failure says before the status.
pub open spec fn failure_prefix(endpoint: Endpoint) -> Seq<char> {
    match endpoint {
        Endpoint::Login => "登录请求失败，状态码: "@,
        Endpoint::Register => "注册请求失败，状态码: "@,
        Endpoint::LatestBlogs => "获取博客列表失败，状态码: "@,
        Endpoint::BlogDetail => "获取博客详情失败，状态码: "@,
        Endpoint::UserBlogs => "获取用户博客失败，状态码: "@,
        Endpoint::CreateBlog => "创建博客失败，状态码: "@,
        Endpoint::UpdateBlog => "更新博客失败，状态码: "@,
        Endpoint::UploadBlog => "上传博客失败，状态码: "@,
    }
}

fn failure_prefix_text(endpoint: Endpoint) -> (t: &'static str)
    ensures
        t@ == failure_prefix(endpoint),
{
    match endpoint {
        Endpoint::Login => "登录请求失败，状态码: ",
        Endpoint::Register => "注册请求失败，状态码: ",
        Endpoint::LatestBlogs => "获取博客列表失败，状态码: ",
        Endpoint::BlogDetail => "获取博客详情失败，状态码: ",
        Endpoint::UserBlogs => "获取用户博客失败，状态码: ",
        Endpoint::CreateBlog => "创建博客失败，状态码: ",
        Endpoint::UpdateBlog => "更新博客失败，状态码: ",
        Endpoint::UploadBlog => "上传博客失败，状态码: ",
    }
}

/// The error for an endpoint that answered with a failing status;
/// `status_text` is how the status reads, such as `404 Not Found`.
pub fn failure_error(endpoint: Endpoint, status: u16, status_text: &str) -> (e: AppError)
    ensures
        e.code == failure_code(endpoint, status),
        e.user_message@ == failure_code(endpoint, status).message(),
        e.detail is Some,
        e.detail.unwrap()@ == failure_prefix(endpoint) + status_text@,
{
    let code = match endpoint {
        Endpoint::Login => if status == 401 { ErrorCode::InvalidCredentials } else if status == 403 { ErrorCode::Forbidden }
            else if status == 404 { ErrorCode::NotFound } else if status == 422 { ErrorCode::ValidationError }
            else if status == 500 { ErrorCode::ServerError } else if status == 503 { ErrorCode::ServiceUnavailable }
            else { ErrorCode::AuthError },
        Endpoint::Register => if status == 400 { ErrorCode::BadRequest } else if status == 409 || status == 422 {
            ErrorCode::ValidationError } else { ErrorCode::HttpError },
        Endpoint::BlogDetail => if status == 404 { ErrorCode::NotFound } else { ErrorCode::HttpError },
        _ => ErrorCode::HttpError,
    };
    let detail = concat2(failure_prefix_text(endpoint), status_text);
    AppError::for_code(code, detail.as_str())
}

/// The error when an endpoint that must return data answers without any:
/// its code and message. The lists answer an empty list instead.
pub open spec fn missing_data(endpoint: Endpoint) -> Option<(ErrorCode, Seq<char>)> {
    match endpoint {
        Endpoint::Login => Some((ErrorCode::AuthError, "登录失败"@)),
        Endpoint::Register => Some((ErrorCode::ValidationError, "注册失败"@)),
        Endpoint::BlogDetail => Some((ErrorCode::NotFound, "博客不存在"@)),
        Endpoint::CreateBlog => Some((ErrorCode::ValidationError, "创建博客失败"@)),
        Endpoint::UpdateBlog => Some((ErrorCode::ValidationError, "更新博客失败"@)),
        Endpoint::UploadBlog => Some((ErrorCode::ValidationError, "上传博客失败"@)),
        _ => None,
    }
}

/// The error when an endpoint that must return data answers without any.
pub fn missing_data_error(endpoint: Endpoint) -> (e: AppError)
    requires
        missing_data(endpoint) is Some,
    ensures
        e.code == missing_data(endpoint).unwrap().0,
        e.user_message@ == missing_data(endpoint).unwrap().1,
        e.detail is None,
{
    match endpoint {
        Endpoint::Login => AppError::new(ErrorCode::AuthError, "登录失败"),
        Endpoint::Register => AppError::new(ErrorCode::ValidationError, "注册失败"),
        Endpoint::BlogDetail => AppError::new(ErrorCode::NotFound, "博客不存在"),
        Endpoint::CreateBlog => AppError::new(ErrorCode::ValidationError, "创建博客失败"),
        Endpoint::UpdateBlog => AppError::new(ErrorCode::ValidationError, "更新博客失败"),
        _ => AppError::new(ErrorCode::ValidationError, "上传博客失败"),
    }
}

/// The data of an answer, or the error for its absence.
pub fn require_data<T>(endpoint: Endpoint, data: Option<T>) -> (r: Result<T, AppError>)
    requires
        missing_data(endpoint) is Some,
    ensures
        data is Some ==> r == Ok::<T, AppError>(data->0),
        data is None ==> r is Err && r->Err_0.code == missing_data(endpoint).unwrap().0
            && r->Err_0.user_message@ == missing_data(endpoint).unwrap().1 && r->Err_0.detail is None,
{
    match data {
        Some(d) => Ok(d),
        None => Err(missing_data_error(endpoint)),
    }
}

/// The name of the logged-in user, or the empty text.
pub open spec fn author_name(config: Config) -> Seq<char> {
    match config.current_user {
        Some(u) => u.username@,
        None => Seq::empty(),
    }
}

/// The name of the logged-in user, or the empty text.
pub fn author_of(config: &Config) -> (s: String)
    ensures
        s@ == author_name(*config),
{
    match &config.current_user {
        Some(u) => u.username.clone(),
        None => String::new(),
    }
}

/// The visibility that a public flag stands for.
pub open spec fn visibility_of(is_public: bool) -> Visibility {
    if is_public { Visibility::Public } else { Visibility::Private }
}

/// A request that creates a published blog by the logged-in user.
pub fn create_blog_request(config: &Config, title: String, content: String, is_public: bool) -> (r: CreateBlogRequest)
    ensures
        r.title == title,
        r.content == content,
        r.status == BlogStatus::Published,
        r.visibility == visibility_of(is_public),
        r.author_username@ == author_name(*config),
{
    CreateBlogRequest {
        title,
        content,
        status: BlogStatus::Published,
        visibility: if is_public { Visibility::Public } else { Visibility::Private },
        author_username: author_of(config),
    }
}

/// A request that changes a blog of the logged-in user.
pub fn update_blog_request(config: &Config, title: String, content: String, is_public: bool) -> (r: UpdateBlogRequest)
    ensures
        r.title == title,
        r.content == content,
        r.visibility == visibility_of(is_public),
        r.author_username@ == author_name(*config),
{
    UpdateBlogRequest {
        title,
        content,
        visibility: if is_public { Visibility::Public } else { Visibility::Private },
        author_username: author_of(config),
    }
}

/// A request that publishes a blog of the logged-in user.
pub fn publish_blog_request(config: &Config) -> (r: PublishBlogRequest)
    ensures
        r.author_username@ == author_name(*config),
{
    PublishBlogRequest { author_username: author_of(config) }
}

} // verus!
