//! The decisions of the lifecycle operations. Each operation is cut where it
//! needs the store, the code gate or the executor: a function here takes what
//! the collaborator answered and says what happens next.

use crate::clock::current_time;
use crate::codec::{decode_code, decoded_code, encodable, encode_code, encoded_code, round_trips};
use crate::name::{invalid_name_message, trimmed, valid_name, FunctionName};
use crate::record::{
    decode_function, CreateFunctionRequest, ErrorView, Function, FunctionView, LifecycleError,
    Stage, TestParam, UpdateFunctionRequest,
};
use crate::store::{outcome_view, StoreFault};
use chrono::NaiveDateTime;
use vstd::prelude::*;
use vstd::string::*;

verus! {

/// Validates the name that a request gives a function: the name without the
/// white space around it where that obeys the naming pattern, a validation
/// error with the message of the rejection otherwise.
pub fn validate_name(name: String) -> (r: Result<FunctionName, LifecycleError>)
    ensures
        valid_name(trimmed(name@)) ==> r is Ok && r->Ok_0@ == trimmed(name@),
        !valid_name(trimmed(name@)) ==> r is Err && r->Err_0@ == ErrorView::Validation(
            invalid_name_message(trimmed(name@)),
        ),
{
    match FunctionName::validate_data(name) {
        Ok(valid) => Ok(valid),
        Err(message) => Err(LifecycleError::Validation(message)),
    }
}

/// What the code gate is asked: source text and the name it is written for.
#[derive(Debug)]
pub struct GateQuery {
    pub code: String,
    pub function_name: String,
}

/// The error with which a failed fetch ends an operation.
pub open spec fn fetch_error(fault: StoreFault) -> ErrorView {
    match fault {
        StoreFault::NotFound => ErrorView::NotFound,
        _ => ErrorView::Internal,
    }
}

/// Ends an operation whose fetch failed: a missing record is reported as
/// such, any other fault as an internal error.
pub fn fetch_failed(fault: StoreFault) -> (e: LifecycleError)
    ensures
        e@ == fetch_error(fault),
{
    match fault {
        StoreFault::NotFound => LifecycleError::NotFound,
        _ => LifecycleError::Internal,
    }
}

/// The record that an update writes: the fields of the request laid over the
/// existing record, the draft stamped anew, the published fields untouched.
pub open spec fn merged_record(
    existing: FunctionView,
    name: Seq<char>,
    request: UpdateFunctionRequest,
    actor: Seq<char>,
    now: NaiveDateTime,
) -> FunctionView {
    FunctionView {
        function_name: name,
        draft_code: match request.draft_code {
            Some(code) => encoded_code(code@),
            None => existing.draft_code,
        },
        draft_runtime_version: match request.draft_runtime_version {
            Some(version) => version@,
            None => existing.draft_runtime_version,
        },
        function_description: match request.description {
            Some(description) => description@,
            None => existing.function_description,
        },
        draft_edited_by: actor,
        draft_edited_at: now,
        published_code: existing.published_code,
        published_at: existing.published_at,
        published_by: existing.published_by,
        published_runtime_version: existing.published_runtime_version,
    }
}

/// Whether an update has the code gate judge anything: only new code is
/// judged.
pub open spec fn gate_is_asked(request: UpdateFunctionRequest) -> bool {
    request.draft_code is Some
}

/// An update that waits for the code gate's verdict on its new code.
#[derive(Debug)]
pub struct PendingUpdate {
    name: String,
    existing: Function,
    request: UpdateFunctionRequest,
    actor: String,
}

impl PendingUpdate {
    #[verifier::type_invariant]
    spec fn carries_code(self) -> bool {
        &&& self.request.draft_code is Some
        &&& encodable(self.request.draft_code->0@)
    }

    /// The name of the function that is updated.
    pub closed spec fn name(self) -> Seq<char> {
        self.name@
    }

    /// The record as it was fetched.
    pub closed spec fn existing(self) -> FunctionView {
        self.existing@
    }

    /// The request that is carried out.
    pub closed spec fn request(self) -> UpdateFunctionRequest {
        self.request
    }

    /// Who asked for the update.
    pub closed spec fn actor(self) -> Seq<char> {
        self.actor@
    }

    /// Ends the wait with the verdict of the code gate and stamps the draft
    /// with the current time: see `resolve_at`.
    pub fn resolve(self, verdict: Result<(), String>) -> (r: Result<Function, LifecycleError>)
        ensures
            verdict is Err ==> r is Err && r->Err_0@ == ErrorView::GateRejected(verdict->Err_0@),
            verdict is Ok ==> r is Ok && exists|now: NaiveDateTime|
                r->Ok_0@ == merged_record(
                    self.existing(),
                    self.name(),
                    self.request(),
                    self.actor(),
                    now,
                ),
            verdict is Ok ==> round_trips(self.request().draft_code->0@),
    {
        let now = current_time();
        self.resolve_at(now, verdict)
    }

    /// Ends the wait with the verdict of the code gate. A rejection ends the
    /// update with the diagnostic and nothing to write; an acceptance gives
    /// the merged record, stamped with `now`, that is to be written.
    pub fn resolve_at(self, now: NaiveDateTime, verdict: Result<(), String>) -> (r: Result<
        Function,
        LifecycleError,
    >)
        ensures
            verdict is Err ==> r is Err && r->Err_0@ == ErrorView::GateRejected(verdict->Err_0@),
            verdict is Ok ==> r is Ok && r->Ok_0@ == merged_record(
                self.existing(),
                self.name(),
                self.request(),
                self.actor(),
                now,
            ),
            verdict is Ok ==> round_trips(self.request().draft_code->0@),
    {
        proof {
            use_type_invariant(&self);
        }
        match verdict {
            Err(diagnostic) => Err(LifecycleError::GateRejected(diagnostic)),
            Ok(()) => Ok(merge(self.existing, self.name, self.request, self.actor, now)),
        }
    }
}

/// How an update goes on once the record is fetched.
#[derive(Debug)]
pub enum UpdateStep {
    /// New code was supplied: the code gate has to judge it before anything
    /// is written.
    Check { query: GateQuery, pending: PendingUpdate },
    /// No new code was supplied: the merged record is to be written, and
    /// the code gate is not asked.
    Write(Function),
}

fn merge(
    existing: Function,
    name: String,
    request: UpdateFunctionRequest,
    actor: String,
    now: NaiveDateTime,
) -> (record: Function)
    requires
        request.draft_code is Some ==> encodable(request.draft_code->0@),
    ensures
        record@ == merged_record(existing@, name@, request, actor@, now),
        request.draft_code is Some ==> round_trips(request.draft_code->0@),
{
    let draft_code = match &request.draft_code {
        Some(code) => encode_code(code.as_str()),
        None => existing.draft_code,
    };
    let draft_runtime_version = match request.draft_runtime_version {
        Some(version) => version,
        None => existing.draft_runtime_version,
    };
    let function_description = match request.description {
        Some(description) => description,
        None => existing.function_description,
    };
    Function {
        function_name: name,
        draft_code,
        draft_runtime_version,
        function_description,
        draft_edited_by: actor,
        draft_edited_at: now,
        published_code: existing.published_code,
        published_at: existing.published_at,
        published_by: existing.published_by,
        published_runtime_version: existing.published_runtime_version,
    }
}

/// Decides how an update goes on once the record is fetched.
///
/// A failed fetch ends it: `NotFound` where no record has the name,
/// `Internal` otherwise. Where the request brings new code, the code gate
/// has to judge that code for this name first. Where it brings none, the
/// code gate is not asked and the merged record, whose draft code is the
/// existing one, is to be written.
pub fn update_at(
    name: String,
    request: UpdateFunctionRequest,
    actor: String,
    now: NaiveDateTime,
    fetched: Result<Function, StoreFault>,
) -> (r: Result<UpdateStep, LifecycleError>)
    requires
        request.draft_code is Some ==> encodable(request.draft_code->0@),
    ensures
        fetched is Err ==> r is Err && r->Err_0@ == fetch_error(fetched->Err_0),
        fetched is Ok ==> r is Ok && (r->Ok_0 is Check <==> gate_is_asked(request)),
        fetched is Ok && request.draft_code is Some ==> r is Ok && r->Ok_0 is Check && ({
            let query = r->Ok_0->query;
            let pending = r->Ok_0->pending;
            &&& query.code@ == request.draft_code->0@
            &&& query.function_name@ == name@
            &&& pending.name() == name@
            &&& pending.existing() == fetched->Ok_0@
            &&& pending.request() == request
            &&& pending.actor() == actor@
        }),
        fetched is Ok && request.draft_code is None ==> r is Ok && r->Ok_0 is Write
            && r->Ok_0->Write_0@ == merged_record(fetched->Ok_0@, name@, request, actor@, now),
{
    let existing = match fetched {
        Ok(existing) => existing,
        Err(fault) => {
            return Err(fetch_failed(fault));
        },
    };
    match &request.draft_code {
        Some(code) => {
            let query = GateQuery { code: code.clone(), function_name: name.clone() };
            Ok(UpdateStep::Check { query, pending: PendingUpdate { name, existing, request, actor } })
        },
        None => Ok(UpdateStep::Write(merge(existing, name, request, actor, now))),
    }
}

/// Decides how an update goes on once the record is fetched, stamping a
/// record that is written without new code with the current time: see
/// `update_at`.
pub fn update(
    name: String,
    request: UpdateFunctionRequest,
    actor: String,
    fetched: Result<Function, StoreFault>,
) -> (r: Result<UpdateStep, LifecycleError>)
    requires
        request.draft_code is Some ==> encodable(request.draft_code->0@),
    ensures
        fetched is Err ==> r is Err && r->Err_0@ == fetch_error(fetched->Err_0),
        fetched is Ok ==> r is Ok && (r->Ok_0 is Check <==> gate_is_asked(request)),
        fetched is Ok && request.draft_code is Some ==> r is Ok && r->Ok_0 is Check && ({
            let query = r->Ok_0->query;
            let pending = r->Ok_0->pending;
            &&& query.code@ == request.draft_code->0@
            &&& query.function_name@ == name@
            &&& pending.name() == name@
            &&& pending.existing() == fetched->Ok_0@
            &&& pending.request() == request
            &&& pending.actor() == actor@
        }),
        fetched is Ok && request.draft_code is None ==> r is Ok && r->Ok_0 is Write && exists|
            now: NaiveDateTime,
        |
            r->Ok_0->Write_0@ == merged_record(fetched->Ok_0@, name@, request, actor@, now),
{
    let now = current_time();
    update_at(name, request, actor, now, fetched)
}

/// The content of a reply that carries a record.
pub open spec fn reply_view(reply: Result<Function, LifecycleError>) -> Result<
    FunctionView,
    ErrorView,
> {
    match reply {
        Ok(record) => Ok(record@),
        Err(e) => Err(e@),
    }
}

/// What a caller is shown of a stored record: the record with its code
/// decoded, or a decode failure where a slot does not decode.
pub open spec fn shown(stored: FunctionView) -> Result<FunctionView, ErrorView> {
    if stored.decodes() {
        Ok(stored.decoded())
    } else {
        Err(ErrorView::DecodeFailure)
    }
}

/// Decodes a record that the store handed out, for the caller to read.
pub fn show(stored: Function) -> (reply: Result<Function, LifecycleError>)
    ensures
        reply_view(reply) == shown(stored@),
{
    let mut record = stored;
    match decode_function(&mut record) {
        Ok(()) => Ok(record),
        Err(e) => Err(e),
    }
}

/// The reply to an update, from what the write gave.
pub open spec fn update_replied(outcome: Result<FunctionView, StoreFault>) -> Result<
    FunctionView,
    ErrorView,
> {
    match outcome {
        Ok(written) => shown(written),
        Err(_) => Err(ErrorView::Internal),
    }
}

/// Ends an update with what the write gave: the written record, decoded, or
/// an internal error where the write failed.
pub fn update_reply(outcome: Result<Function, StoreFault>) -> (reply: Result<
    Function,
    LifecycleError,
>)
    ensures
        reply_view(reply) == update_replied(outcome_view(outcome)),
{
    match outcome {
        Ok(written) => show(written),
        Err(_) => Err(LifecycleError::Internal),
    }
}

/// The record that a creation inserts: the code in its stored form, the
/// draft stamped, nothing published.
pub open spec fn created_record(
    request: CreateFunctionRequest,
    actor: Seq<char>,
    now: NaiveDateTime,
) -> FunctionView {
    FunctionView {
        function_name: request.function_name@,
        draft_code: encoded_code(request.function@),
        draft_runtime_version: request.runtime_version@,
        draft_edited_by: actor,
        draft_edited_at: now,
        published_code: None,
        published_at: None,
        published_by: None,
        published_runtime_version: None,
        function_description: request.description@,
    }
}

/// What the code gate has to judge before a function is created: the code
/// of the request, for the name of the request.
pub fn create_query(request: &CreateFunctionRequest) -> (query: GateQuery)
    ensures
        query.code@ == request.function@,
        query.function_name@ == request.function_name@,
{
    GateQuery {
        code: request.function.clone(),
        function_name: String::from_str(request.function_name.as_str()),
    }
}

/// Carries a creation on with the verdict of the code gate. A rejection ends
/// it with the diagnostic and nothing to insert; an acceptance gives the new
/// record, stamped with `now`, that is to be inserted.
pub fn create_at(
    request: CreateFunctionRequest,
    actor: String,
    now: NaiveDateTime,
    verdict: Result<(), String>,
) -> (r: Result<Function, LifecycleError>)
    requires
        encodable(request.function@),
    ensures
        verdict is Err ==> r is Err && r->Err_0@ == ErrorView::GateRejected(verdict->Err_0@),
        verdict is Ok ==> r is Ok && r->Ok_0@ == created_record(request, actor@, now),
        verdict is Ok ==> round_trips(request.function@),
{
    match verdict {
        Err(diagnostic) => Err(LifecycleError::GateRejected(diagnostic)),
        Ok(()) => Ok(
            Function {
                draft_code: encode_code(request.function.as_str()),
                function_name: request.function_name.into_string(),
                draft_runtime_version: request.runtime_version,
                draft_edited_by: actor,
                draft_edited_at: now,
                published_code: None,
                published_at: None,
                published_by: None,
                published_runtime_version: None,
                function_description: request.description,
            },
        ),
    }
}

/// Carries a creation on with the verdict of the code gate, stamping the new
/// record with the current time: see `create_at`.
pub fn create(request: CreateFunctionRequest, actor: String, verdict: Result<(), String>) -> (r:
    Result<Function, LifecycleError>)
    requires
        encodable(request.function@),
    ensures
        verdict is Err ==> r is Err && r->Err_0@ == ErrorView::GateRejected(verdict->Err_0@),
        verdict is Ok ==> r is Ok && exists|now: NaiveDateTime|
            r->Ok_0@ == created_record(request, actor@, now),
        verdict is Ok ==> round_trips(request.function@),
{
    let now = current_time();
    create_at(request, actor, now, verdict)
}

/// The reply to a creation, from what the insert gave.
pub open spec fn create_replied(outcome: Result<FunctionView, StoreFault>) -> Result<
    FunctionView,
    ErrorView,
> {
    match outcome {
        Ok(inserted) => shown(inserted),
        Err(StoreFault::UniqueViolation) => Err(ErrorView::NameConflict),
        Err(_) => Err(ErrorView::Internal),
    }
}

/// Ends a creation with what the insert gave: the inserted record, decoded;
/// a name conflict where the store already had the name; an internal error
/// on any other fault.
pub fn create_reply(outcome: Result<Function, StoreFault>) -> (reply: Result<
    Function,
    LifecycleError,
>)
    ensures
        reply_view(reply) == create_replied(outcome_view(outcome)),
{
    match outcome {
        Ok(inserted) => show(inserted),
        Err(StoreFault::UniqueViolation) => Err(LifecycleError::NameConflict),
        Err(_) => Err(LifecycleError::Internal),
    }
}

/// The record after a publication: the draft code and runtime version copied
/// into the published slot, stamped, the draft untouched.
pub open spec fn published_record(existing: FunctionView, actor: Seq<char>, now: NaiveDateTime)
    -> FunctionView {
    FunctionView {
        published_code: Some(existing.draft_code),
        published_runtime_version: Some(existing.draft_runtime_version),
        published_by: Some(actor),
        published_at: Some(now),
        ..existing
    }
}

/// Publishes a fetched record: copies the draft into the published slot as
/// it stands, unjudged, and stamps it with `actor` and `now`. A failed fetch
/// ends the operation.
pub fn publish_at(actor: String, now: NaiveDateTime, fetched: Result<Function, StoreFault>) -> (r:
    Result<Function, LifecycleError>)
    ensures
        fetched is Err ==> r is Err && r->Err_0@ == fetch_error(fetched->Err_0),
        fetched is Ok ==> r is Ok && r->Ok_0@ == published_record(fetched->Ok_0@, actor@, now),
{
    match fetched {
        Err(fault) => Err(fetch_failed(fault)),
        Ok(existing) => {
            let published_code = existing.draft_code.clone();
            let published_runtime_version = existing.draft_runtime_version.clone();
            Ok(
                Function {
                    function_name: existing.function_name,
                    draft_code: existing.draft_code,
                    draft_runtime_version: existing.draft_runtime_version,
                    draft_edited_by: existing.draft_edited_by,
                    draft_edited_at: existing.draft_edited_at,
                    published_code: Some(published_code),
                    published_at: Some(now),
                    published_by: Some(actor),
                    published_runtime_version: Some(published_runtime_version),
                    function_description: existing.function_description,
                },
            )
        },
    }
}

/// Publishes a fetched record, stamped with the current time: see
/// `publish_at`.
pub fn publish(actor: String, fetched: Result<Function, StoreFault>) -> (r: Result<
    Function,
    LifecycleError,
>)
    ensures
        fetched is Err ==> r is Err && r->Err_0@ == fetch_error(fetched->Err_0),
        fetched is Ok ==> r is Ok && exists|now: NaiveDateTime|
            r->Ok_0@ == published_record(fetched->Ok_0@, actor@, now),
{
    let now = current_time();
    publish_at(actor, now, fetched)
}

/// Ends a publication with what the write gave: the time of publication that
/// the written record carries, or an internal error where the write failed or
/// the written record carries none.
pub fn publish_reply(outcome: Result<Function, StoreFault>) -> (reply: Result<
    NaiveDateTime,
    LifecycleError,
>)
    ensures
        outcome is Ok && outcome->Ok_0.published_at is Some ==> reply == Ok::<
            NaiveDateTime,
            LifecycleError,
        >(outcome->Ok_0.published_at->0),
        !(outcome is Ok && outcome->Ok_0.published_at is Some) ==> reply is Err && reply->Err_0@
            == ErrorView::Internal,
{
    match outcome {
        Ok(written) => match written.published_at {
            Some(at) => Ok(at),
            None => Err(LifecycleError::Internal),
        },
        Err(_) => Err(LifecycleError::Internal),
    }
}

/// What the executor is asked: source text, the name of its entry point and
/// the value it is run on.
#[derive(Debug)]
pub struct Execution {
    pub code: String,
    pub function_name: String,
    pub input: serde_json::Value,
}

/// Routes a stage to the slot that holds its stored code.
pub fn select_code(record: &Function, stage: Stage) -> (slot: Option<&String>)
    ensures
        slot is Some <==> record@.code_at(stage) is Some,
        slot is Some ==> slot->0@ == record@.code_at(stage)->0,
{
    match stage {
        Stage::Draft => Some(&record.draft_code),
        Stage::Published => match &record.published_code {
            Some(stored) => Some(stored),
            None => None,
        },
    }
}

/// The source text that a test runs, or the error that ends the test before
/// anything runs: not published where the record lacks the stage, a decode
/// failure where the slot of the stage does not decode.
pub open spec fn tested_code(record: FunctionView, stage: Stage) -> Result<Seq<char>, ErrorView> {
    match record.code_at(stage) {
        None => Err(ErrorView::NotPublished),
        Some(stored) => match decoded_code(stored) {
            Some(code) => Ok(code),
            None => Err(ErrorView::DecodeFailure),
        },
    }
}

/// Prepares a test run from a fetched record: picks the code of the stage
/// asked for and decodes it. The published stage of a function that was never
/// published ends the test with `NotPublished`; the draft is not run in its
/// place. A failed fetch ends the operation.
pub fn test(param: TestParam, input: serde_json::Value, fetched: Result<Function, StoreFault>) -> (r:
    Result<Execution, LifecycleError>)
    ensures
        fetched is Err ==> r is Err && r->Err_0@ == fetch_error(fetched->Err_0),
        fetched is Ok && tested_code(fetched->Ok_0@, param.stage) is Err ==> r is Err && r->Err_0@
            == tested_code(fetched->Ok_0@, param.stage)->Err_0,
        fetched is Ok && tested_code(fetched->Ok_0@, param.stage) is Ok ==> r is Ok && ({
            let run = r->Ok_0;
            &&& run.code@ == tested_code(fetched->Ok_0@, param.stage)->Ok_0
            &&& run.function_name@ == param.function_name@
            &&& run.input == input
        }),
{
    let record = match fetched {
        Ok(record) => record,
        Err(fault) => {
            return Err(fetch_failed(fault));
        },
    };
    let stored = match select_code(&record, param.stage) {
        Some(stored) => stored,
        None => {
            return Err(LifecycleError::NotPublished);
        },
    };
    match decode_code(stored.as_str()) {
        Some(code) => Ok(
            Execution { code, function_name: param.function_name.into_string(), input },
        ),
        None => Err(LifecycleError::DecodeFailure),
    }
}

/// Relays what the executor answered, unchanged: the captured output of a
/// run that succeeded, or the message of one that failed with whatever output
/// was captured before.
pub fn test_reply(outcome: Result<String, (String, Option<String>)>) -> (reply: Result<
    String,
    LifecycleError,
>)
    ensures
        reply is Ok <==> outcome is Ok,
        reply is Ok ==> reply->Ok_0 == outcome->Ok_0,
        reply is Err ==> reply->Err_0 == (LifecycleError::ExecutionFailure {
            message: outcome->Err_0.0,
            output: outcome->Err_0.1,
        }),
{
    match outcome {
        Ok(output) => Ok(output),
        Err((message, output)) => Err(LifecycleError::ExecutionFailure { message, output }),
    }
}

/// The reply to a read, from what the fetch gave.
pub open spec fn get_replied(fetched: Result<FunctionView, StoreFault>) -> Result<
    FunctionView,
    ErrorView,
> {
    match fetched {
        Ok(stored) => shown(stored),
        Err(fault) => Err(fetch_error(fault)),
    }
}

/// Answers a read with what the fetch gave: the record, decoded; `NotFound`
/// where no record has the name; an internal error on any other fault.
pub fn get(fetched: Result<Function, StoreFault>) -> (reply: Result<Function, LifecycleError>)
    ensures
        reply_view(reply) == get_replied(outcome_view(fetched)),
{
    match fetched {
        Ok(stored) => show(stored),
        Err(fault) => Err(fetch_failed(fault)),
    }
}

/// The reply to a removal, from the number of records that went.
pub open spec fn delete_replied(outcome: Result<usize, StoreFault>) -> Result<(), ErrorView> {
    match outcome {
        Ok(rows) => if rows == 0 {
            Err(ErrorView::NotFound)
        } else {
            Ok(())
        },
        Err(_) => Err(ErrorView::Internal),
    }
}

/// Answers a removal with what the store gave: done where a record was
/// removed, `NotFound` where none had the name, an internal error where the
/// store failed.
pub fn delete_function(outcome: Result<usize, StoreFault>) -> (reply: Result<(), LifecycleError>)
    ensures
        reply is Ok <==> delete_replied(outcome) is Ok,
        reply is Err ==> delete_replied(outcome) == Err::<(), ErrorView>(reply->Err_0@),
{
    match outcome {
        Ok(0) => Err(LifecycleError::NotFound),
        Ok(_) => Ok(()),
        Err(_) => Err(LifecycleError::Internal),
    }
}

/// Whether every record of a list decodes.
pub open spec fn all_decode(list: Seq<Function>) -> bool {
    forall|i: int| 0 <= i < list.len() ==> (#[trigger] list[i])@.decodes()
}

/// Answers a listing with what the fetch gave: the records in their order,
/// each decoded; a decode failure where any slot of any record does not
/// decode; an internal error where the fetch failed.
pub fn list_functions(fetched: Result<Vec<Function>, StoreFault>) -> (reply: Result<
    Vec<Function>,
    LifecycleError,
>)
    ensures
        fetched is Err ==> reply is Err && reply->Err_0@ == ErrorView::Internal,
        fetched is Ok && !all_decode(fetched->Ok_0@) ==> reply is Err && reply->Err_0@
            == ErrorView::DecodeFailure,
        fetched is Ok && all_decode(fetched->Ok_0@) ==> reply is Ok && reply->Ok_0@.len()
            == fetched->Ok_0@.len() && forall|i: int|
            0 <= i < fetched->Ok_0@.len() ==> (#[trigger] reply->Ok_0@[i])@
                == fetched->Ok_0@[i]@.decoded(),
{
    let mut list = match fetched {
        Ok(list) => list,
        Err(_) => {
            return Err(LifecycleError::Internal);
        },
    };
    let ghost stored = list@;
    let n: usize = list.len();
    let mut i: usize = 0;
    while i < n
        invariant
            i <= n,
            fetched is Ok,
            fetched->Ok_0@ == stored,
            n == stored.len(),
            list@.len() == n,
            forall|k: int| 0 <= k < i ==> (#[trigger] stored[k])@.decodes(),
            forall|k: int| 0 <= k < i ==> (#[trigger] list@[k])@ == stored[k]@.decoded(),
            forall|k: int| i <= k < n ==> #[trigger] list@[k] == stored[k],
        decreases n - i,
    {
        assert(list@[i as int] == stored[i as int]);
        match decode_function(&mut list[i]) {
            Ok(()) => {},
            Err(e) => {
                assert(!stored[i as int]@.decodes());
                return Err(e);
            },
        }
        i += 1;
    }
    Ok(list)
}

} // verus!
