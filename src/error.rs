//! Errors: the closed set of API error codes, the classified API error and
//! the library's own error type.

use vstd::prelude::*;

use crate::text::text_eq;

verus! {

/// The error codes that the remote API documents. A response that carries
/// any other code is not an [`ApiError`].
#[derive(Debug, Clone, Copy, PartialEq, Eq, Structural)]
pub enum ErrorCode {
    /// API Key 미입력
    API000,
    /// 유효하지 않은 게임아이디
    API001,
    /// API Key  사용량 초과
    API002,
    /// 유효하지 않은 API Key
    API003,
    /// 차단된 API Key
    API004,
    /// 해당 게임으로 발급되지 않은 API Key
    API005,
    /// 유효하지 않은 HTTP 헤더 요청
    API006,
    /// 클라이언트 소켓 통신 오류
    API007,
    /// 유효하지 않은 URL
    API900,
    /// 유효하지 않은 요청 파라미터
    API901,
    /// 시스템 오류
    API999,
    /// 유효하지 않은 서버아이디
    DNF000,
    /// 유효하지 않은 캐릭터 정보
    DNF001,
    /// 유효하지 않은 아이템 정보
    DNF003,
    /// 유효하지 않은 경매장 및 아바타마켓 상품 정보
    DNF004,
    /// 유효하지 않은 스킬 정보
    DNF005,
    /// 타임라인 검색 시간 파라미터 오류
    DNF006,
    /// 경매장 아이템 검색 갯수 제한
    DNF007,
    /// 다중 아이템 검색 갯수 제한
    DNF008,
    /// 아바타 마켓 타이틀 검색 갯수 제한
    DNF009,
    /// 유효하지 않은 URL
    DNF900,
    /// 유효하지 않은 요청 파라미터
    DNF901,
    /// 시스템 점검
    DNF980,
    /// 시스템 오류
    DNF999,
}

/// The wire spelling of an error code.
pub open spec fn code_text(c: ErrorCode) -> Seq<char> {
    match c {
        ErrorCode::API000 => "API000"@,
        ErrorCode::API001 => "API001"@,
        ErrorCode::API002 => "API002"@,
        ErrorCode::API003 => "API003"@,
        ErrorCode::API004 => "API004"@,
        ErrorCode::API005 => "API005"@,
        ErrorCode::API006 => "API006"@,
        ErrorCode::API007 => "API007"@,
        ErrorCode::API900 => "API900"@,
        ErrorCode::API901 => "API901"@,
        ErrorCode::API999 => "API999"@,
        ErrorCode::DNF000 => "DNF000"@,
        ErrorCode::DNF001 => "DNF001"@,
        ErrorCode::DNF003 => "DNF003"@,
        ErrorCode::DNF004 => "DNF004"@,
        ErrorCode::DNF005 => "DNF005"@,
        ErrorCode::DNF006 => "DNF006"@,
        ErrorCode::DNF007 => "DNF007"@,
        ErrorCode::DNF008 => "DNF008"@,
        ErrorCode::DNF009 => "DNF009"@,
        ErrorCode::DNF900 => "DNF900"@,
        ErrorCode::DNF901 => "DNF901"@,
        ErrorCode::DNF980 => "DNF980"@,
        ErrorCode::DNF999 => "DNF999"@,
    }
}

/// The fixed human-readable description of an error code.
pub open spec fn description_text(c: ErrorCode) -> Seq<char> {
    match c {
        ErrorCode::API000 => "API Key 미입력"@,
        ErrorCode::API001 => "유효하지 않은 게임아이디"@,
        ErrorCode::API002 => "API Key  사용량 초과"@,
        ErrorCode::API003 => "유효하지 않은 API Key"@,
        ErrorCode::API004 => "차단된 API Key"@,
        ErrorCode::API005 => "해당 게임으로 발급되지 않은 API Key"@,
        ErrorCode::API006 => "유효하지 않은 HTTP 헤더 요청  "@,
        ErrorCode::API007 => "클라이언트 소켓 통신 오류"@,
        ErrorCode::API900 => "유효하지 않은 URL"@,
        ErrorCode::API901 => "유효하지 않은 요청 파라미터"@,
        ErrorCode::API999 => "시스템 오류"@,
        ErrorCode::DNF000 => "유효하지 않은 서버아이디"@,
        ErrorCode::DNF001 => "유효하지 않은 캐릭터 정보"@,
        ErrorCode::DNF003 => "유효하지 않은 아이템 정보"@,
        ErrorCode::DNF004 => "유효하지 않은 경매장 및 아바타마켓 상품 정보"@,
        ErrorCode::DNF005 => "유효하지 않은 스킬 정보"@,
        ErrorCode::DNF006 => "타임라인 검색 시간 파라미터 오류"@,
        ErrorCode::DNF007 => "경매장 아이템 검색 갯수 제한"@,
        ErrorCode::DNF008 => "다중 아이템 검색 갯수 제한"@,
        ErrorCode::DNF009 => "아바타 마켓 타이틀 검색 갯수 제한"@,
        ErrorCode::DNF900 => "유효하지 않은 URL"@,
        ErrorCode::DNF901 => "유효하지 않은 요청 파라미터"@,
        ErrorCode::DNF980 => "시스템 점검"@,
        ErrorCode::DNF999 => "시스템 오류"@,
    }
}

/// Whether `s` is the wire spelling of some error code.
pub open spec fn is_known_code(s: Seq<char>) -> bool {
    exists|c: ErrorCode| code_text(c) == s
}

impl ErrorCode {
    /// The wire spelling of this code, e.g. `"API002"`.
    pub fn as_str(&self) -> (r: &'static str)
        ensures
            r@ == code_text(*self),
    {
        match self {
            ErrorCode::API000 => "API000",
            ErrorCode::API001 => "API001",
            ErrorCode::API002 => "API002",
            ErrorCode::API003 => "API003",
            ErrorCode::API004 => "API004",
            ErrorCode::API005 => "API005",
            ErrorCode::API006 => "API006",
            ErrorCode::API007 => "API007",
            ErrorCode::API900 => "API900",
            ErrorCode::API901 => "API901",
            ErrorCode::API999 => "API999",
            ErrorCode::DNF000 => "DNF000",
            ErrorCode::DNF001 => "DNF001",
            ErrorCode::DNF003 => "DNF003",
            ErrorCode::DNF004 => "DNF004",
            ErrorCode::DNF005 => "DNF005",
            ErrorCode::DNF006 => "DNF006",
            ErrorCode::DNF007 => "DNF007",
            ErrorCode::DNF008 => "DNF008",
            ErrorCode::DNF009 => "DNF009",
            ErrorCode::DNF900 => "DNF900",
            ErrorCode::DNF901 => "DNF901",
            ErrorCode::DNF980 => "DNF980",
            ErrorCode::DNF999 => "DNF999",
        }
    }

    /// The fixed human-readable description of this code.
    pub fn description(&self) -> (r: &'static str)
        ensures
            r@ == description_text(*self),
    {
        match self {
            ErrorCode::API000 => "API Key 미입력",
            ErrorCode::API001 => "유효하지 않은 게임아이디",
            ErrorCode::API002 => "API Key  사용량 초과",
            ErrorCode::API003 => "유효하지 않은 API Key",
            ErrorCode::API004 => "차단된 API Key",
            ErrorCode::API005 => "해당 게임으로 발급되지 않은 API Key",
            ErrorCode::API006 => "유효하지 않은 HTTP 헤더 요청  ",
            ErrorCode::API007 => "클라이언트 소켓 통신 오류",
            ErrorCode::API900 => "유효하지 않은 URL",
            ErrorCode::API901 => "유효하지 않은 요청 파라미터",
            ErrorCode::API999 => "시스템 오류",
            ErrorCode::DNF000 => "유효하지 않은 서버아이디",
            ErrorCode::DNF001 => "유효하지 않은 캐릭터 정보",
            ErrorCode::DNF003 => "유효하지 않은 아이템 정보",
            ErrorCode::DNF004 => "유효하지 않은 경매장 및 아바타마켓 상품 정보",
            ErrorCode::DNF005 => "유효하지 않은 스킬 정보",
            ErrorCode::DNF006 => "타임라인 검색 시간 파라미터 오류",
            ErrorCode::DNF007 => "경매장 아이템 검색 갯수 제한",
            ErrorCode::DNF008 => "다중 아이템 검색 갯수 제한",
            ErrorCode::DNF009 => "아바타 마켓 타이틀 검색 갯수 제한",
            ErrorCode::DNF900 => "유효하지 않은 URL",
            ErrorCode::DNF901 => "유효하지 않은 요청 파라미터",
            ErrorCode::DNF980 => "시스템 점검",
            ErrorCode::DNF999 => "시스템 오류",
        }
    }

    /// Reads a code from its wire spelling; any other text is refused.
    pub fn from_code(s: &str) -> (r: Option<ErrorCode>)
        ensures
            r matches Some(c) ==> code_text(c) == s@,
            r is None ==> !is_known_code(s@),
    {
        if text_eq(s, "API000") {
            return Some(ErrorCode::API000);
        }
        if text_eq(s, "API001") {
            return Some(ErrorCode::API001);
        }
        if text_eq(s, "API002") {
            return Some(ErrorCode::API002);
        }
        if text_eq(s, "API003") {
            return Some(ErrorCode::API003);
        }
        if text_eq(s, "API004") {
            return Some(ErrorCode::API004);
        }
        if text_eq(s, "API005") {
            return Some(ErrorCode::API005);
        }
        if text_eq(s, "API006") {
            return Some(ErrorCode::API006);
        }
        if text_eq(s, "API007") {
            return Some(ErrorCode::API007);
        }
        if text_eq(s, "API900") {
            return Some(ErrorCode::API900);
        }
        if text_eq(s, "API901") {
            return Some(ErrorCode::API901);
        }
        if text_eq(s, "API999") {
            return Some(ErrorCode::API999);
        }
        if text_eq(s, "DNF000") {
            return Some(ErrorCode::DNF000);
        }
        if text_eq(s, "DNF001") {
            return Some(ErrorCode::DNF001);
        }
        if text_eq(s, "DNF003") {
            return Some(ErrorCode::DNF003);
        }
        if text_eq(s, "DNF004") {
            return Some(ErrorCode::DNF004);
        }
        if text_eq(s, "DNF005") {
            return Some(ErrorCode::DNF005);
        }
        if text_eq(s, "DNF006") {
            return Some(ErrorCode::DNF006);
        }
        if text_eq(s, "DNF007") {
            return Some(ErrorCode::DNF007);
        }
        if text_eq(s, "DNF008") {
            return Some(ErrorCode::DNF008);
        }
        if text_eq(s, "DNF009") {
            return Some(ErrorCode::DNF009);
        }
        if text_eq(s, "DNF900") {
            return Some(ErrorCode::DNF900);
        }
        if text_eq(s, "DNF901") {
            return Some(ErrorCode::DNF901);
        }
        if text_eq(s, "DNF980") {
            return Some(ErrorCode::DNF980);
        }
        if text_eq(s, "DNF999") {
            return Some(ErrorCode::DNF999);
        }
        assert forall|c: ErrorCode| code_text(c) != s@ by {
            match c {
                ErrorCode::API000 => {},
                ErrorCode::API001 => {},
                ErrorCode::API002 => {},
                ErrorCode::API003 => {},
                ErrorCode::API004 => {},
                ErrorCode::API005 => {},
                ErrorCode::API006 => {},
                ErrorCode::API007 => {},
                ErrorCode::API900 => {},
                ErrorCode::API901 => {},
                ErrorCode::API999 => {},
                ErrorCode::DNF000 => {},
                ErrorCode::DNF001 => {},
                ErrorCode::DNF003 => {},
                ErrorCode::DNF004 => {},
                ErrorCode::DNF005 => {},
                ErrorCode::DNF006 => {},
                ErrorCode::DNF007 => {},
                ErrorCode::DNF008 => {},
                ErrorCode::DNF009 => {},
                ErrorCode::DNF900 => {},
                ErrorCode::DNF901 => {},
                ErrorCode::DNF980 => {},
                ErrorCode::DNF999 => {},
            }
        }
        None
    }
}

/// An error response of the API: `{"error": {"status", "code", "message"}}`.
#[derive(Debug, Clone)]
pub struct ApiError {
    pub status: u16,
    pub code: ErrorCode,
    pub message: String,
}

/// A request that the library refuses to send: a required parameter is
/// missing or out of range.
#[derive(Debug, Clone)]
pub struct InvalidQueryParameter {
    /// The request path that was refused.
    pub path: String,
    /// What was wrong with it.
    pub message: String,
}

/// The errors of the library's request logic.
#[derive(Debug, Clone)]
pub enum Error {
    /// The API answered with a classified error.
    Api(ApiError),
    /// The request was refused before it was sent.
    InvalidQueryParameter(InvalidQueryParameter),
    /// An error response whose code is not one of the documented codes.
    UnknownErrorCode(String),
}

impl ApiError {
    /// Classifies the fields of an error response body. A code outside the
    /// documented set is an error in its own right.
    pub fn from_response(status: u16, code: &str, message: String) -> (r: Result<ApiError, Error>)
        ensures
            is_known_code(code@) <==> r is Ok,
            r matches Ok(e) ==> e.status == status && code_text(e.code) == code@ && e.message@
                == message@,
            r matches Err(e) ==> (e matches Error::UnknownErrorCode(t) && t@ == code@),
    {
        match ErrorCode::from_code(code) {
            Some(c) => Ok(ApiError { status, code: c, message }),
            None => Err(Error::UnknownErrorCode(code.to_owned())),
        }
    }
}

} // verus!
