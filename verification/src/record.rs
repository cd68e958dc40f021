//! The durable record of a function, the stages of its code, the requests
//! that change it and the errors of the lifecycle.

use crate::codec::{decode_code, decoded_code};
use crate::name::FunctionName;
use chrono::NaiveDateTime;
use vstd::prelude::*;
use vstd::string::*;

verus! {

/// Which variant of a function's code is meant.
#[derive(Copy, Clone, Debug)]
pub enum Stage {
    Draft,
    Published,
}

impl Stage {
    /// The lower-case name of the stage.
    pub open spec fn label(self) -> Seq<char> {
        match self {
            Stage::Draft => "draft"@,
            Stage::Published => "published"@,
        }
    }

    /// The lower-case name of the stage, as text.
    pub fn to_string(&self) -> (text: String)
        ensures
            text@ == self.label(),
    {
        match self {
            Stage::Draft => String::from_str("draft"),
            Stage::Published => String::from_str("published"),
        }
    }
}

/// The target of a test run: a function and one stage of its code.
#[derive(Debug)]
pub struct TestParam {
    pub function_name: FunctionName,
    pub stage: Stage,
}

/// A request to create a function.
#[derive(Debug)]
pub struct CreateFunctionRequest {
    pub function_name: FunctionName,
    pub function: String,
    pub runtime_version: String,
    pub description: String,
    pub change_reason: String,
}

/// A request to change a function's draft; an absent field keeps its value.
#[derive(Debug)]
pub struct UpdateFunctionRequest {
    pub draft_code: Option<String>,
    pub draft_runtime_version: Option<String>,
    pub description: Option<String>,
    pub change_reason: String,
}

/// One stage of a function as it is shown to a reader.
#[derive(Debug)]
pub struct FunctionResponse {
    pub function_name: String,
    pub function: String,
    pub function_description: String,
    pub runtime_version: String,
    pub status: String,
    pub published_at: String,
    pub drafted_at: String,
}

/// A JSON value, as a test hands it to the code it runs. Nothing is known of
/// its inside here: it is carried from the caller to the executor.
#[verifier::external_type_specification]
#[verifier::external_body]
pub struct ExJsonValue(serde_json::Value);

/// The input of a test run under the key it is tested for.
#[derive(Debug)]
pub struct TestFunctionRequest {
    pub key: String,
    pub value: serde_json::Value,
}

/// Why a lifecycle operation did not succeed.
#[derive(Debug)]
pub enum LifecycleError {
    /// A name does not obey the naming pattern; carries the message.
    Validation(String),
    /// The code gate rejected the code; carries its diagnostic.
    GateRejected(String),
    /// No record has the name.
    NotFound,
    /// A record already has the name.
    NameConflict,
    /// The published stage was asked for and the function has none.
    NotPublished,
    /// The code ran and failed; carries its message and what it had written.
    ExecutionFailure { message: String, output: Option<String> },
    /// Stored code could not be decoded.
    DecodeFailure,
    /// Any other fault of the store.
    Internal,
}

/// The content of an optional text.
pub open spec fn text_view(text: Option<String>) -> Option<Seq<char>> {
    match text {
        Some(t) => Some(t@),
        None => None,
    }
}

/// The content of a lifecycle error.
pub enum ErrorView {
    Validation(Seq<char>),
    GateRejected(Seq<char>),
    NotFound,
    NameConflict,
    NotPublished,
    ExecutionFailure { message: Seq<char>, output: Option<Seq<char>> },
    DecodeFailure,
    Internal,
}

impl View for LifecycleError {
    type V = ErrorView;

    open spec fn view(&self) -> ErrorView {
        match *self {
            LifecycleError::Validation(m) => ErrorView::Validation(m@),
            LifecycleError::GateRejected(d) => ErrorView::GateRejected(d@),
            LifecycleError::NotFound => ErrorView::NotFound,
            LifecycleError::NameConflict => ErrorView::NameConflict,
            LifecycleError::NotPublished => ErrorView::NotPublished,
            LifecycleError::ExecutionFailure { message, output } => ErrorView::ExecutionFailure {
                message: message@,
                output: text_view(output),
            },
            LifecycleError::DecodeFailure => ErrorView::DecodeFailure,
            LifecycleError::Internal => ErrorView::Internal,
        }
    }
}

/// The durable record of a function. Code is held in its stored form.
#[derive(Debug)]
pub struct Function {
    pub function_name: String,
    pub draft_code: String,
    pub draft_runtime_version: String,
    pub draft_edited_by: String,
    pub draft_edited_at: NaiveDateTime,
    pub published_code: Option<String>,
    pub published_at: Option<NaiveDateTime>,
    pub published_by: Option<String>,
    pub published_runtime_version: Option<String>,
    pub function_description: String,
}

/// The content of a record.
pub struct FunctionView {
    pub function_name: Seq<char>,
    pub draft_code: Seq<char>,
    pub draft_runtime_version: Seq<char>,
    pub draft_edited_by: Seq<char>,
    pub draft_edited_at: NaiveDateTime,
    pub published_code: Option<Seq<char>>,
    pub published_at: Option<NaiveDateTime>,
    pub published_by: Option<Seq<char>>,
    pub published_runtime_version: Option<Seq<char>>,
    pub function_description: Seq<char>,
}

impl FunctionView {
    /// The published fields are all present or all absent.
    pub open spec fn consistent(self) -> bool {
        &&& self.published_code is Some <==> self.published_at is Some
        &&& self.published_code is Some <==> self.published_by is Some
        &&& self.published_code is Some <==> self.published_runtime_version is Some
    }

    /// Whether the function was ever published.
    pub open spec fn is_published(self) -> bool {
        self.published_code is Some
    }

    /// The code of one stage, if the record has that stage.
    pub open spec fn code_at(self, stage: Stage) -> Option<Seq<char>> {
        match stage {
            Stage::Draft => Some(self.draft_code),
            Stage::Published => self.published_code,
        }
    }

    /// Whether every code slot of a stored record decodes.
    pub open spec fn decodes(self) -> bool {
        &&& decoded_code(self.draft_code) is Some
        &&& self.published_code is Some ==> decoded_code(self.published_code->0) is Some
    }

    /// The record with every code slot decoded; meaningful where `decodes`.
    pub open spec fn decoded(self) -> FunctionView {
        FunctionView {
            draft_code: decoded_code(self.draft_code)->0,
            published_code: match self.published_code {
                Some(stored) => Some(decoded_code(stored)->0),
                None => None,
            },
            ..self
        }
    }
}

impl View for Function {
    type V = FunctionView;

    open spec fn view(&self) -> FunctionView {
        FunctionView {
            function_name: self.function_name@,
            draft_code: self.draft_code@,
            draft_runtime_version: self.draft_runtime_version@,
            draft_edited_by: self.draft_edited_by@,
            draft_edited_at: self.draft_edited_at,
            published_code: text_view(self.published_code),
            published_at: self.published_at,
            published_by: text_view(self.published_by),
            published_runtime_version: text_view(self.published_runtime_version),
            function_description: self.function_description@,
        }
    }
}

/// A copy of an optional text.
pub fn copy_text(text: &Option<String>) -> (copy: Option<String>)
    ensures
        text_view(copy) == text_view(*text),
{
    match text {
        Some(t) => Some(t.clone()),
        None => None,
    }
}

impl Function {
    /// A copy of the record.
    pub fn duplicate(&self) -> (copy: Function)
        ensures
            copy@ == self@,
    {
        Function {
            function_name: self.function_name.clone(),
            draft_code: self.draft_code.clone(),
            draft_runtime_version: self.draft_runtime_version.clone(),
            draft_edited_by: self.draft_edited_by.clone(),
            draft_edited_at: self.draft_edited_at,
            published_code: copy_text(&self.published_code),
            published_at: self.published_at,
            published_by: copy_text(&self.published_by),
            published_runtime_version: copy_text(&self.published_runtime_version),
            function_description: self.function_description.clone(),
        }
    }
}

/// Replaces the stored code of a record by its source text, in both slots.
/// Where a slot does not decode the record is left as it was.
pub fn decode_function(function: &mut Function) -> (r: Result<(), LifecycleError>)
    ensures
        old(function)@.decodes() ==> r is Ok && final(function)@ == old(function)@.decoded(),
        !old(function)@.decodes() ==> r is Err && r->Err_0@ == ErrorView::DecodeFailure,
        r is Err ==> *final(function) == *old(function),
{
    let draft = match decode_code(function.draft_code.as_str()) {
        Some(code) => code,
        None => {
            return Err(LifecycleError::DecodeFailure);
        },
    };
    let published = match &function.published_code {
        Some(stored) => match decode_code(stored.as_str()) {
            Some(code) => Some(code),
            None => {
                return Err(LifecycleError::DecodeFailure);
            },
        },
        None => None,
    };
    function.draft_code = draft;
    function.published_code = published;
    Ok(())
}

} // verus!
