//! The request and response payloads, and the check that a request is complete.

use vstd::prelude::*;
use vstd::string::StringExecFns;
use crate::text::opt_view;

verus! {

/// A request to generate code.
///
/// `language`, `framework` and `context` are carried for the host's sake; no
/// decision of this library reads them.
#[derive(Debug, Clone)]
pub struct GenerateCodeRequest {
    pub prompt: String,
    pub provider_type: String,
    pub api_key: String,
    pub source_dir: Option<String>,
    pub language: Option<String>,
    pub framework: Option<String>,
    pub context: Option<String>,
}

/// What a request holds, as mathematical values.
pub struct RequestModel {
    pub prompt: Seq<char>,
    pub provider_type: Seq<char>,
    pub api_key: Seq<char>,
    pub source_dir: Option<Seq<char>>,
    pub language: Option<Seq<char>>,
    pub framework: Option<Seq<char>>,
    pub context: Option<Seq<char>>,
}

impl View for GenerateCodeRequest {
    type V = RequestModel;

    open spec fn view(&self) -> RequestModel {
        RequestModel {
            prompt: self.prompt@,
            provider_type: self.provider_type@,
            api_key: self.api_key@,
            source_dir: opt_view(self.source_dir),
            language: opt_view(self.language),
            framework: opt_view(self.framework),
            context: opt_view(self.context),
        }
    }
}

/// The outcome of a request: generated code, or the reason there is none.
#[derive(Debug, Clone)]
pub struct GenerateCodeResponse {
    pub code: String,
    pub success: bool,
    pub error: Option<String>,
}

/// What a response holds, as mathematical values.
pub struct ResponseModel {
    pub code: Seq<char>,
    pub success: bool,
    pub error: Option<Seq<char>>,
}

impl ResponseModel {
    /// The response that carries generated code.
    pub open spec fn succeeded(code: Seq<char>) -> ResponseModel {
        ResponseModel { code, success: true, error: None }
    }

    /// The response that carries a reason for failure and no code.
    pub open spec fn failed(message: Seq<char>) -> ResponseModel {
        ResponseModel { code: Seq::empty(), success: false, error: Some(message) }
    }

    /// A response either succeeds and carries no error, or fails and carries
    /// an error and no code.
    pub open spec fn well_formed(self) -> bool {
        if self.success {
            self.error is None
        } else {
            self.error is Some && self.code.len() == 0
        }
    }
}

impl View for GenerateCodeResponse {
    type V = ResponseModel;

    open spec fn view(&self) -> ResponseModel {
        ResponseModel { code: self.code@, success: self.success, error: opt_view(self.error) }
    }
}

impl GenerateCodeResponse {
    /// A successful response around `code`.
    pub fn succeeded(code: String) -> (r: GenerateCodeResponse)
        ensures
            r@ == ResponseModel::succeeded(code@),
            r@.well_formed(),
    {
        GenerateCodeResponse { code, success: true, error: None }
    }

    /// A failed response around `message`.
    pub fn failed(message: String) -> (r: GenerateCodeResponse)
        ensures
            r@ == ResponseModel::failed(message@),
            r@.well_formed(),
    {
        GenerateCodeResponse { code: String::new(), success: false, error: Some(message) }
    }
}

/// A required field of a request that was left empty.
#[derive(Debug, Clone, Copy, PartialEq, Eq, Structural)]
pub enum MissingField {
    ProviderType,
    ApiKey,
    Prompt,
}

impl MissingField {
    /// The message that names the field.
    pub open spec fn message_text(self) -> Seq<char> {
        match self {
            MissingField::ProviderType => "provider_type is required"@,
            MissingField::ApiKey => "api_key is required"@,
            MissingField::Prompt => "prompt is required"@,
        }
    }

    /// The message that names the field.
    pub fn message(&self) -> (r: String)
        ensures
            r@ == self.message_text(),
    {
        match self {
            MissingField::ProviderType => String::from_str("provider_type is required"),
            MissingField::ApiKey => String::from_str("api_key is required"),
            MissingField::Prompt => String::from_str("prompt is required"),
        }
    }
}

/// The first required field that is empty: the provider, then the
/// credential, then the prompt.
pub open spec fn missing_field(request: RequestModel) -> Option<MissingField> {
    if request.provider_type.len() == 0 {
        Some(MissingField::ProviderType)
    } else if request.api_key.len() == 0 {
        Some(MissingField::ApiKey)
    } else if request.prompt.len() == 0 {
        Some(MissingField::Prompt)
    } else {
        None
    }
}

/// A request is complete when none of its required fields is empty.
pub open spec fn complete(request: RequestModel) -> bool {
    request.provider_type.len() > 0 && request.api_key.len() > 0 && request.prompt.len() > 0
}

/// Finds the first required field that is empty, if there is one.
pub fn validate(request: &GenerateCodeRequest) -> (r: Option<MissingField>)
    ensures
        r == missing_field(request@),
        r is None <==> complete(request@),
{
    if request.provider_type.as_str().is_empty() {
        Some(MissingField::ProviderType)
    } else if request.api_key.as_str().is_empty() {
        Some(MissingField::ApiKey)
    } else if request.prompt.as_str().is_empty() {
        Some(MissingField::Prompt)
    } else {
        None
    }
}

} // verus!
