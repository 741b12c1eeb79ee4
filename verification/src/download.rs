//! One file download, as a state machine the caller drives.
//!
//! The task asks the caller, step by step, to submit the signing request,
//! to fetch the signed URL's bytes, and to write those bytes under the
//! chosen save name. Each response moves the task forward; any failed step
//! aborts the whole task, and the write is only ever asked for once, with
//! exactly the bytes the fetch returned.

use vstd::prelude::*;
use crate::json::{JsonValue, string_field_of};

verus! {

/// What the caller is asked to do next.
pub enum DownloadAction {
    /// Submit `machine_name` and `filename` to the signing endpoint.
    RequestSign { machine_name: String, filename: String },
    /// Fetch the whole byte content behind the signed URL.
    FetchBytes { url: String },
    /// Write `bytes` under `save_name` in the downloads folder,
    /// overwriting any file of that name.
    WriteFile { save_name: String, bytes: Vec<u8> },
}

/// The mathematical content of a `DownloadAction`.
#[verifier::ext_equal]
pub ghost enum ActionModel {
    RequestSign { machine_name: Seq<char>, filename: Seq<char> },
    FetchBytes { url: Seq<char> },
    WriteFile { save_name: Seq<char>, bytes: Seq<u8> },
}

impl View for DownloadAction {
    type V = ActionModel;

    open spec fn view(&self) -> ActionModel {
        match self {
            DownloadAction::RequestSign { machine_name, filename } => ActionModel::RequestSign {
                machine_name: machine_name@,
                filename: filename@,
            },
            DownloadAction::FetchBytes { url } => ActionModel::FetchBytes { url: url@ },
            DownloadAction::WriteFile { save_name, bytes } => ActionModel::WriteFile {
                save_name: save_name@,
                bytes: bytes@,
            },
        }
    }
}

/// What the caller reports back for one step.
pub enum DownloadEvent {
    /// The signing endpoint's decoded body, or the transport/decode error.
    SignResponse(Result<JsonValue, String>),
    /// The fetched byte content, or the transport error.
    BytesResponse(Result<Vec<u8>, String>),
    /// The path written to, or the filesystem error.
    WriteResponse(Result<String, String>),
}

/// Where a download task stands.
pub enum DownloadPhase {
    Signing,
    Fetching,
    Writing,
    Done(String),
    Failed(String),
}

/// The mathematical content of a `DownloadPhase`.
#[verifier::ext_equal]
pub ghost enum DownloadPhaseModel {
    Signing,
    Fetching,
    Writing,
    Done(Seq<char>),
    Failed(Seq<char>),
}

impl View for DownloadPhase {
    type V = DownloadPhaseModel;

    open spec fn view(&self) -> DownloadPhaseModel {
        match self {
            DownloadPhase::Signing => DownloadPhaseModel::Signing,
            DownloadPhase::Fetching => DownloadPhaseModel::Fetching,
            DownloadPhase::Writing => DownloadPhaseModel::Writing,
            DownloadPhase::Done(p) => DownloadPhaseModel::Done(p@),
            DownloadPhase::Failed(e) => DownloadPhaseModel::Failed(e@),
        }
    }
}

/// One download in flight: what was asked for and how far it has come.
pub struct DownloadTask {
    pub machine_name: String,
    pub filename: String,
    pub save_name: String,
    pub phase: DownloadPhase,
}

/// The mathematical content of a `DownloadTask`.
#[verifier::ext_equal]
pub ghost struct TaskModel {
    pub machine_name: Seq<char>,
    pub filename: Seq<char>,
    pub save_name: Seq<char>,
    pub phase: DownloadPhaseModel,
}

impl View for DownloadTask {
    type V = TaskModel;

    open spec fn view(&self) -> TaskModel {
        TaskModel {
            machine_name: self.machine_name@,
            filename: self.filename@,
            save_name: self.save_name@,
            phase: self.phase@,
        }
    }
}

/// The signed URL inside the signing endpoint's body: the body must be an
/// object whose `signed_url` field is a string.
pub open spec fn signed_url_of(body: JsonValue) -> Option<Seq<char>> {
    match body {
        JsonValue::Obj(fields) => string_field_of(fields@, "signed_url"@),
        _ => None,
    }
}

/// Which events a phase can take: one kind per waiting phase, none once
/// the task is done or failed.
pub open spec fn event_permitted(phase: DownloadPhaseModel, ev: DownloadEvent) -> bool {
    match ev {
        DownloadEvent::SignResponse(_) => phase is Signing,
        DownloadEvent::BytesResponse(_) => phase is Fetching,
        DownloadEvent::WriteResponse(_) => phase is Writing,
    }
}

/// The phase one event moves a task to.
pub open spec fn step_phase(m: TaskModel, ev: DownloadEvent) -> DownloadPhaseModel {
    match ev {
        DownloadEvent::SignResponse(r) => match r {
            Result::Ok(body) => match signed_url_of(body) {
                Some(_) => DownloadPhaseModel::Fetching,
                None => DownloadPhaseModel::Failed(missing_signed_url_error()),
            },
            Result::Err(e) => DownloadPhaseModel::Failed(e@),
        },
        DownloadEvent::BytesResponse(r) => match r {
            Result::Ok(_) => DownloadPhaseModel::Writing,
            Result::Err(e) => DownloadPhaseModel::Failed(e@),
        },
        DownloadEvent::WriteResponse(r) => match r {
            Result::Ok(p) => DownloadPhaseModel::Done(p@),
            Result::Err(e) => DownloadPhaseModel::Failed(e@),
        },
    }
}

/// The action one event asks for next, if any: a failed step asks for
/// nothing, and only a successful byte fetch ever asks for a write.
pub open spec fn step_action(m: TaskModel, ev: DownloadEvent) -> Option<ActionModel> {
    match ev {
        DownloadEvent::SignResponse(r) => match r {
            Result::Ok(body) => match signed_url_of(body) {
                Some(u) => Some(ActionModel::FetchBytes { url: u }),
                None => None,
            },
            Result::Err(_) => None,
        },
        DownloadEvent::BytesResponse(r) => match r {
            Result::Ok(b) => Some(ActionModel::WriteFile { save_name: m.save_name, bytes: b@ }),
            Result::Err(_) => None,
        },
        DownloadEvent::WriteResponse(_) => None,
    }
}

/// The error a task fails with when the signing body holds no signed URL.
pub open spec fn missing_signed_url_error() -> Seq<char> {
    "signing endpoint returned no signed URL"@
}

/// The signed URL inside a decoded signing body, executably.
pub fn signed_url(body: &JsonValue) -> (r: Option<String>)
    ensures
        match r {
            Some(u) => signed_url_of(*body) == Some(u@),
            None => signed_url_of(*body) is None,
        },
{
    match body {
        JsonValue::Obj(fields) => match JsonValue::get(fields, "signed_url") {
            Some(v) => match v {
                JsonValue::Str(u) => Some(u.clone()),
                _ => None,
            },
            None => None,
        },
        _ => None,
    }
}

impl DownloadTask {
    /// Starts a download and asks for the signing request.
    pub fn new(machine_name: String, filename: String, save_name: String) -> (r: (
        DownloadTask,
        DownloadAction,
    ))
        ensures
            r.0@ == (TaskModel {
                machine_name: machine_name@,
                filename: filename@,
                save_name: save_name@,
                phase: DownloadPhaseModel::Signing,
            }),
            r.1@ == (ActionModel::RequestSign {
                machine_name: machine_name@,
                filename: filename@,
            }),
    {
        let action = DownloadAction::RequestSign {
            machine_name: machine_name.clone(),
            filename: filename.clone(),
        };
        let task = DownloadTask { machine_name, filename, save_name, phase: DownloadPhase::Signing };
        (task, action)
    }

    /// Takes the response for the step the task is waiting on and hands
    /// back what to do next, if anything.
    pub fn step(&mut self, ev: DownloadEvent) -> (a: Option<DownloadAction>)
        requires
            event_permitted(old(self)@.phase, ev),
        ensures
            final(self)@.phase == step_phase(old(self)@, ev),
            final(self)@.machine_name == old(self)@.machine_name,
            final(self)@.filename == old(self)@.filename,
            final(self)@.save_name == old(self)@.save_name,
            match a {
                Some(act) => step_action(old(self)@, ev) == Some(act@),
                None => step_action(old(self)@, ev) is None,
            },
    {
        match ev {
            DownloadEvent::SignResponse(r) => match r {
                Result::Ok(body) => match signed_url(&body) {
                    Some(u) => {
                        self.phase = DownloadPhase::Fetching;
                        Some(DownloadAction::FetchBytes { url: u })
                    },
                    None => {
                        self.phase = DownloadPhase::Failed(
                            String::from_str("signing endpoint returned no signed URL"),
                        );
                        None
                    },
                },
                Result::Err(e) => {
                    self.phase = DownloadPhase::Failed(e);
                    None
                },
            },
            DownloadEvent::BytesResponse(r) => match r {
                Result::Ok(b) => {
                    self.phase = DownloadPhase::Writing;
                    Some(DownloadAction::WriteFile { save_name: self.save_name.clone(), bytes: b })
                },
                Result::Err(e) => {
                    self.phase = DownloadPhase::Failed(e);
                    None
                },
            },
            DownloadEvent::WriteResponse(r) => match r {
                Result::Ok(p) => {
                    self.phase = DownloadPhase::Done(p);
                    None
                },
                Result::Err(e) => {
                    self.phase = DownloadPhase::Failed(e);
                    None
                },
            },
        }
    }
}

/// Law: a failed signing call aborts the task at once: it fails and asks
/// for nothing, so no write is ever requested and no file is touched.
pub proof fn lemma_sign_failure_aborts(m: TaskModel, ev: DownloadEvent)
    requires
        ev matches DownloadEvent::SignResponse(r) && r is Err,
    ensures
        step_phase(m, ev) is Failed,
        step_action(m, ev) is None,
{
}

/// Law: a done or failed task takes no further event, so it never asks
/// for anything again.
pub proof fn lemma_stopped_task_takes_no_event(phase: DownloadPhaseModel, ev: DownloadEvent)
    requires
        phase is Failed || phase is Done,
    ensures
        !event_permitted(phase, ev),
{
}

/// Law: a write is only ever asked for as the direct answer to a
/// successful byte fetch, and it carries exactly the fetched bytes and the
/// task's save name.
pub proof fn lemma_write_carries_fetched_bytes(m: TaskModel, ev: DownloadEvent)
    ensures
        match step_action(m, ev) {
            Some(act) => act matches ActionModel::WriteFile { save_name, bytes } ==> (
            ev matches DownloadEvent::BytesResponse(r) && r matches Result::Ok(b) && bytes == b@
                && save_name == m.save_name),
            None => true,
        },
{
}

} // verus!
