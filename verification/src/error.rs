//! Errors, and what a caller is told of them.

use vstd::prelude::*;

use crate::text::cat;

verus! {

/// What can go wrong. Where another library reported it, its words are kept.
#[derive(Debug)]
pub enum AppError {
    NotFound(String),
    BadRequest(String),
    Unauthorized,
    Forbidden,
    RateLimited,
    Database(String),
    Http(String),
    Api115(String),
    TmdbApi(String),
    Config(String),
    Redis(String),
    Serialize(String),
    Internal(String),
}

/// The answer to a request that failed.
#[derive(Debug)]
pub struct ErrorResponse {
    pub status_code: u16,
    pub message: String,
}

impl AppError {
    /// The HTTP status of the answer.
    pub open spec fn status(self) -> u16 {
        match self {
            AppError::NotFound(_) => 404,
            AppError::BadRequest(_) => 400,
            AppError::Unauthorized => 401,
            AppError::Forbidden => 403,
            AppError::RateLimited => 429,
            AppError::Http(_) | AppError::Api115(_) | AppError::TmdbApi(_) => 502,
            AppError::Database(_) | AppError::Config(_) | AppError::Redis(_)
            | AppError::Serialize(_) | AppError::Internal(_) => 500,
        }
    }

    /// The message of the answer. What went wrong inside the server stays there.
    pub open spec fn answer(self) -> Seq<char> {
        match self {
            AppError::NotFound(m) => m@,
            AppError::BadRequest(m) => m@,
            AppError::Unauthorized => "未授权"@,
            AppError::Forbidden => "权限不足"@,
            AppError::RateLimited => "请求频率超限，请稍后重试"@,
            AppError::Database(_) => "数据库操作失败"@,
            AppError::Http(_) => "外部服务请求失败"@,
            AppError::Api115(m) => "115 API: "@ + m@,
            AppError::TmdbApi(m) => "TMDB API: "@ + m@,
            AppError::Config(_) => "服务器配置错误"@,
            AppError::Redis(_) => "缓存服务错误"@,
            AppError::Serialize(_) => "数据处理失败"@,
            AppError::Internal(_) => "服务器内部错误"@,
        }
    }

    /// The error in full, for the server's own log.
    pub open spec fn text(self) -> Seq<char> {
        match self {
            AppError::NotFound(m) => "未找到: "@ + m@,
            AppError::BadRequest(m) => "请求参数无效: "@ + m@,
            AppError::Unauthorized => "未授权"@,
            AppError::Forbidden => "权限不足"@,
            AppError::RateLimited => "请求频率超限"@,
            AppError::Database(m) => "数据库错误: "@ + m@,
            AppError::Http(m) => "HTTP 请求错误: "@ + m@,
            AppError::Api115(m) => "115 API 错误: "@ + m@,
            AppError::TmdbApi(m) => "TMDB API 错误: "@ + m@,
            AppError::Config(m) => "配置错误: "@ + m@,
            AppError::Redis(m) => "Redis 错误: "@ + m@,
            AppError::Serialize(m) => "序列化错误: "@ + m@,
            AppError::Internal(m) => "内部错误: "@ + m@,
        }
    }

    /// What a caller is told of an error.
    pub fn into_response(self) -> (r: ErrorResponse)
        ensures
            r.status_code == self.status(),
            r.message@ == self.answer(),
    {
        match self {
            AppError::NotFound(m) => ErrorResponse { status_code: 404, message: m },
            AppError::BadRequest(m) => ErrorResponse { status_code: 400, message: m },
            AppError::Unauthorized => ErrorResponse {
                status_code: 401,
                message: "未授权".to_string(),
            },
            AppError::Forbidden => ErrorResponse {
                status_code: 403,
                message: "权限不足".to_string(),
            },
            AppError::RateLimited => ErrorResponse {
                status_code: 429,
                message: "请求频率超限，请稍后重试".to_string(),
            },
            AppError::Database(_) => ErrorResponse {
                status_code: 500,
                message: "数据库操作失败".to_string(),
            },
            AppError::Http(_) => ErrorResponse {
                status_code: 502,
                message: "外部服务请求失败".to_string(),
            },
            AppError::Api115(m) => ErrorResponse {
                status_code: 502,
                message: cat("115 API: ", m.as_str()),
            },
            AppError::TmdbApi(m) => ErrorResponse {
                status_code: 502,
                message: cat("TMDB API: ", m.as_str()),
            },
            AppError::Config(_) => ErrorResponse {
                status_code: 500,
                message: "服务器配置错误".to_string(),
            },
            AppError::Redis(_) => ErrorResponse {
                status_code: 500,
                message: "缓存服务错误".to_string(),
            },
            AppError::Serialize(_) => ErrorResponse {
                status_code: 500,
                message: "数据处理失败".to_string(),
            },
            AppError::Internal(_) => ErrorResponse {
                status_code: 500,
                message: "服务器内部错误".to_string(),
            },
        }
    }

    /// The error in full, for the server's own log.
    pub fn message(&self) -> (r: String)
        ensures
            r@ == self.text(),
    {
        match self {
            AppError::NotFound(m) => cat("未找到: ", m.as_str()),
            AppError::BadRequest(m) => cat("请求参数无效: ", m.as_str()),
            AppError::Unauthorized => "未授权".to_string(),
            AppError::Forbidden => "权限不足".to_string(),
            AppError::RateLimited => "请求频率超限".to_string(),
            AppError::Database(m) => cat("数据库错误: ", m.as_str()),
            AppError::Http(m) => cat("HTTP 请求错误: ", m.as_str()),
            AppError::Api115(m) => cat("115 API 错误: ", m.as_str()),
            AppError::TmdbApi(m) => cat("TMDB API 错误: ", m.as_str()),
            AppError::Config(m) => cat("配置错误: ", m.as_str()),
            AppError::Redis(m) => cat("Redis 错误: ", m.as_str()),
            AppError::Serialize(m) => cat("序列化错误: ", m.as_str()),
            AppError::Internal(m) => cat("内部错误: ", m.as_str()),
        }
    }
}

/// What a failure inside the server, or in its settings, said is not in the answer: two such errors
/// of the same kind are answered alike.
pub proof fn inner_failures_are_not_told(a: String, b: String)
    ensures
        AppError::Database(a).answer() == AppError::Database(b).answer(),
        AppError::Http(a).answer() == AppError::Http(b).answer(),
        AppError::Config(a).answer() == AppError::Config(b).answer(),
        AppError::Redis(a).answer() == AppError::Redis(b).answer(),
        AppError::Serialize(a).answer() == AppError::Serialize(b).answer(),
        AppError::Internal(a).answer() == AppError::Internal(b).answer(),
{
}

} // verus!
