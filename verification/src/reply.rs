//! Mapping a dispatch result to the HTTP reply the service sends: the status
//! code, and the structured body — a success body with the formatted code and
//! the elapsed time measured by the caller, or an error body with a short
//! category label and a free-text diagnostic.

use vstd::prelude::*;
use crate::dispatch::{FormatResult, ResultModel};
use crate::outcome::ErrorKind;

verus! {

/// Mathematical model of a reply body.
#[verifier::ext_equal]
pub enum BodyModel {
    Success {
        formatted_code: Seq<char>,
        execution_time_ms: u128,
        formatter_used: Seq<char>,
        status_text: Seq<char>,
    },
    Error { error: Seq<char>, details: Seq<char> },
}

/// The body of an HTTP reply.
#[derive(Debug, Clone)]
pub enum ReplyBody {
    /// Sent with status 200: the formatted code, the elapsed time the caller
    /// measured around the dispatch, the tool's label, and the fixed status
    /// text.
    Success {
        formatted_code: String,
        execution_time_ms: u128,
        formatter_used: String,
        status_text: String,
    },
    /// Sent with status 400 or 500: a short error category and a diagnostic.
    Error { error: String, details: String },
}

impl View for ReplyBody {
    type V = BodyModel;

    open spec fn view(&self) -> BodyModel {
        match self {
            ReplyBody::Success { formatted_code, execution_time_ms, formatter_used, status_text }
                => (BodyModel::Success {
                formatted_code: formatted_code@,
                execution_time_ms: *execution_time_ms,
                formatter_used: formatter_used@,
                status_text: status_text@,
            }),
            ReplyBody::Error { error, details } => (BodyModel::Error {
                error: error@,
                details: details@,
            }),
        }
    }
}

/// An HTTP reply: status code and body.
#[derive(Debug, Clone)]
pub struct HttpReply {
    pub status: u16,
    pub body: ReplyBody,
}

/// The HTTP status a result maps to: 200 on success, 400 for an unsupported
/// language, 500 for every process or formatter failure.
pub open spec fn status_of(r: ResultModel) -> u16 {
    match r {
        ResultModel::Succeeded { .. } => 200u16,
        ResultModel::Failed { kind, .. } => if kind == ErrorKind::UnsupportedLanguage {
            400u16
        } else {
            500u16
        },
    }
}

/// The short error label a failure is reported under.
pub open spec fn error_label_of(kind: ErrorKind) -> Seq<char> {
    if kind == ErrorKind::UnsupportedLanguage {
        "Unsupported language"@
    } else {
        "Formatting failed"@
    }
}

/// The body a result maps to, with the caller-measured elapsed time.
pub open spec fn body_of(r: ResultModel, elapsed_ms: u128) -> BodyModel {
    match r {
        ResultModel::Succeeded { formatted, label } => BodyModel::Success {
            formatted_code: formatted,
            execution_time_ms: elapsed_ms,
            formatter_used: label,
            status_text: "success"@,
        },
        ResultModel::Failed { kind, details } => BodyModel::Error {
            error: error_label_of(kind),
            details,
        },
    }
}

/// Map a dispatch result to the HTTP reply to send, with the elapsed time
/// the caller measured around the whole dispatch.
pub fn reply_for(result: FormatResult, elapsed_ms: u128) -> (r: HttpReply)
    ensures
        r.status == status_of(result@),
        r.body@ == body_of(result@, elapsed_ms),
{
    match result {
        FormatResult::Success(s) => HttpReply {
            status: 200,
            body: ReplyBody::Success {
                formatted_code: s.formatted_code,
                execution_time_ms: elapsed_ms,
                formatter_used: s.formatter_used,
                status_text: "success".to_owned(),
            },
        },
        FormatResult::Failure(f) => {
            let status: u16 = if f.kind == ErrorKind::UnsupportedLanguage {
                400
            } else {
                500
            };
            let error: String = if f.kind == ErrorKind::UnsupportedLanguage {
                "Unsupported language".to_owned()
            } else {
                "Formatting failed".to_owned()
            };
            HttpReply { status, body: ReplyBody::Error { error, details: f.details } }
        },
    }
}

/// The fixed health-check payload.
#[derive(Debug, Clone)]
pub struct HealthInfo {
    pub status: String,
    pub service: String,
    pub version: String,
}

/// The health-check payload the service reports.
pub fn health_info() -> (r: HealthInfo)
    ensures
        r.status@ == "healthy"@,
        r.service@ == "speed-formatter-mvp"@,
        r.version@ == "0.1.0"@,
{
    HealthInfo {
        status: "healthy".to_owned(),
        service: "speed-formatter-mvp".to_owned(),
        version: "0.1.0".to_owned(),
    }
}

} // verus!
