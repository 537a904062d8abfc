//! The answers of the privileged service.
//!
//! Every answer comes in two envelopes. The outer one, `{success, data,
//! error}`, says whether the exchange itself worked. The inner one, the
//! `data` of the outer, is `{code, msg, data}`: a `code` other than zero means
//! that the service received the command and failed to carry it out, though
//! the outer envelope reports success. The functions here open both.

use crate::json::JsonValue;
use crate::text::{clone_text, join};
use vstd::prelude::*;

verus! {

/// The commands that the service understands.
#[derive(Clone, Copy, PartialEq, Eq, Structural, Debug)]
pub enum IpcCommand {
    GetStatus,
    GetVersion,
    Start,
    Stop,
}

impl IpcCommand {
    /// The command's name on the wire.
    pub open spec fn wire_name_model(self) -> Seq<char> {
        match self {
            IpcCommand::GetStatus => "GetClash"@,
            IpcCommand::GetVersion => "GetVersion"@,
            IpcCommand::Start => "StartClash"@,
            IpcCommand::Stop => "StopClash"@,
        }
    }

    pub fn wire_name(&self) -> (name: String)
        ensures
            name@ == self.wire_name_model(),
    {
        match self {
            IpcCommand::GetStatus => "GetClash".to_owned(),
            IpcCommand::GetVersion => "GetVersion".to_owned(),
            IpcCommand::Start => "StartClash".to_owned(),
            IpcCommand::Stop => "StopClash".to_owned(),
        }
    }

    /// What is reported when the exchange failed and the service gave no
    /// reason.
    pub open spec fn default_failure(self) -> Seq<char> {
        match self {
            IpcCommand::GetStatus => "Unknown service error"@,
            IpcCommand::GetVersion => "Failed to get service version"@,
            IpcCommand::Start => "Failed to start core"@,
            IpcCommand::Stop => "Failed to stop core"@,
        }
    }

    fn default_failure_text(&self) -> (text: String)
        ensures
            text@ == self.default_failure(),
    {
        match self {
            IpcCommand::GetStatus => "Unknown service error".to_owned(),
            IpcCommand::GetVersion => "Failed to get service version".to_owned(),
            IpcCommand::Start => "Failed to start core".to_owned(),
            IpcCommand::Stop => "Failed to stop core".to_owned(),
        }
    }
}

/// What the service needs to know to start the proxy engine.
#[derive(Debug, PartialEq, Eq)]
pub struct StartParams {
    pub core_type: String,
    pub bin_path: String,
    pub config_dir: String,
    pub config_file: String,
    pub log_file: String,
}

/// The name of the engine's executable: the engine's name, with `.exe` on
/// Windows.
pub fn core_binary_name(core: &str, windows: bool) -> (name: String)
    ensures
        name@ == core@ + (if windows {
            ".exe"@
        } else {
            ""@
        }),
{
    if windows {
        join(core, ".exe")
    } else {
        join(core, "")
    }
}

impl StartParams {
    /// The payload of `Start`: an object with the five parameters as
    /// strings, in this order.
    pub fn to_json(&self) -> (payload: JsonValue)
        ensures
            payload is Object,
            payload.members().len() == 5,
            payload.members()[0].0@ == "core_type"@,
            payload.members()[0].1.text_model() == Some(self.core_type@),
            payload.members()[1].0@ == "bin_path"@,
            payload.members()[1].1.text_model() == Some(self.bin_path@),
            payload.members()[2].0@ == "config_dir"@,
            payload.members()[2].1.text_model() == Some(self.config_dir@),
            payload.members()[3].0@ == "config_file"@,
            payload.members()[3].1.text_model() == Some(self.config_file@),
            payload.members()[4].0@ == "log_file"@,
            payload.members()[4].1.text_model() == Some(self.log_file@),
    {
        let mut members: Vec<(String, JsonValue)> = Vec::new();
        members.push(("core_type".to_owned(), JsonValue::Text(self.core_type.clone())));
        members.push(("bin_path".to_owned(), JsonValue::Text(self.bin_path.clone())));
        members.push(("config_dir".to_owned(), JsonValue::Text(self.config_dir.clone())));
        members.push(("config_file".to_owned(), JsonValue::Text(self.config_file.clone())));
        members.push(("log_file".to_owned(), JsonValue::Text(self.log_file.clone())));
        JsonValue::Object(members)
    }
}

/// The outer envelope.
#[derive(Debug, PartialEq, Eq)]
pub struct IpcResponse {
    pub success: bool,
    pub data: Option<JsonValue>,
    pub error: Option<String>,
}

/// What came of an exchange: the outer envelope, or the reason why none
/// arrived.
pub type IpcReply = Result<IpcResponse, String>;

/// What the service says of the engine it runs.
#[derive(Debug, PartialEq, Eq)]
pub struct ResponseBody {
    pub core_type: Option<String>,
    pub bin_path: String,
    pub config_dir: String,
    pub log_file: String,
}

/// The mathematical content of a [`ResponseBody`].
pub struct ResponseBodyModel {
    pub core_type: Option<Seq<char>>,
    pub bin_path: Seq<char>,
    pub config_dir: Seq<char>,
    pub log_file: Seq<char>,
}

impl View for ResponseBody {
    type V = ResponseBodyModel;

    open spec fn view(&self) -> ResponseBodyModel {
        ResponseBodyModel {
            core_type: self.core_type.deep_view(),
            bin_path: self.bin_path@,
            config_dir: self.config_dir@,
            log_file: self.log_file@,
        }
    }
}

impl Clone for ResponseBody {
    fn clone(&self) -> (copy: Self)
        ensures
            copy@ == self@,
    {
        ResponseBody {
            core_type: clone_text(&self.core_type),
            bin_path: self.bin_path.clone(),
            config_dir: self.config_dir.clone(),
            log_file: self.log_file.clone(),
        }
    }
}

/// The view of an optional body.
pub open spec fn body_model(body: Option<ResponseBody>) -> Option<ResponseBodyModel> {
    match body {
        Some(b) => Some(b@),
        None => None,
    }
}

/// The text of an optional member: `Some(None)` where the member is absent
/// or null, `None` where it holds something that is not a string.
pub open spec fn optional_text_field(value: JsonValue, key: Seq<char>) -> Option<
    Option<Seq<char>>,
> {
    match value.field(key) {
        None => Some(None),
        Some(JsonValue::Null) => Some(None),
        Some(JsonValue::Text(text)) => Some(Some(text@)),
        Some(_) => None,
    }
}

impl ResponseBody {
    /// The body that an object stands for: `bin_path`, `config_dir` and
    /// `log_file` are strings, `core_type` is a string, null or absent.
    pub open spec fn decode(value: JsonValue) -> Option<ResponseBodyModel> {
        match (
            optional_text_field(value, "core_type"@),
            value.text_field("bin_path"@),
            value.text_field("config_dir"@),
            value.text_field("log_file"@),
        ) {
            (Some(core_type), Some(bin_path), Some(config_dir), Some(log_file)) => Some(
                ResponseBodyModel { core_type, bin_path, config_dir, log_file },
            ),
            _ => None,
        }
    }

    /// Decodes a body; `None` where the value does not have its shape.
    pub fn from_json(value: &JsonValue) -> (body: Option<ResponseBody>)
        ensures
            body_model(body) == Self::decode(*value),
    {
        let core_type = match value.get("core_type") {
            None => None,
            Some(member) => match member {
                JsonValue::Null => None,
                JsonValue::Text(text) => Some(text.clone()),
                _ => {
                    return None;
                },
            },
        };
        let bin_path = match value.get_text("bin_path") {
            Some(text) => text,
            None => {
                return None;
            },
        };
        let config_dir = match value.get_text("config_dir") {
            Some(text) => text,
            None => {
                return None;
            },
        };
        let log_file = match value.get_text("log_file") {
            Some(text) => text,
            None => {
                return None;
            },
        };
        Some(ResponseBody { core_type, bin_path, config_dir, log_file })
    }
}

/// The service's answer to a question for its version, in its older form.
#[derive(Debug, PartialEq, Eq)]
pub struct VersionResponse {
    pub service: String,
    pub version: String,
}

/// The mathematical content of a [`VersionResponse`].
pub struct VersionResponseModel {
    pub service: Seq<char>,
    pub version: Seq<char>,
}

impl View for VersionResponse {
    type V = VersionResponseModel;

    open spec fn view(&self) -> VersionResponseModel {
        VersionResponseModel { service: self.service@, version: self.version@ }
    }
}

impl Clone for VersionResponse {
    fn clone(&self) -> (copy: Self)
        ensures
            copy@ == self@,
    {
        VersionResponse { service: self.service.clone(), version: self.version.clone() }
    }
}

impl VersionResponse {
    /// The answer that an object stands for: `service` and `version` are
    /// strings.
    pub open spec fn decode(value: JsonValue) -> Option<VersionResponseModel> {
        match (value.text_field("service"@), value.text_field("version"@)) {
            (Some(service), Some(version)) => Some(VersionResponseModel { service, version }),
            _ => None,
        }
    }

    pub fn from_json(value: &JsonValue) -> (answer: Option<VersionResponse>)
        ensures
            match answer {
                Some(a) => Self::decode(*value) == Some(a@),
                None => Self::decode(*value).is_none(),
            },
    {
        let service = match value.get_text("service") {
            Some(text) => text,
            None => {
                return None;
            },
        };
        let version = match value.get_text("version") {
            Some(text) => text,
            None => {
                return None;
            },
        };
        Some(VersionResponse { service, version })
    }
}

/// The inner envelope of an answer about the service's state.
#[derive(Debug, PartialEq, Eq)]
pub struct JsonResponse {
    pub code: u64,
    pub msg: String,
    pub data: Option<ResponseBody>,
}

/// The mathematical content of a [`JsonResponse`].
pub struct JsonResponseModel {
    pub code: u64,
    pub msg: Seq<char>,
    pub data: Option<ResponseBodyModel>,
}

impl View for JsonResponse {
    type V = JsonResponseModel;

    open spec fn view(&self) -> JsonResponseModel {
        JsonResponseModel { code: self.code, msg: self.msg@, data: body_model(self.data) }
    }
}

impl Clone for JsonResponse {
    fn clone(&self) -> (copy: Self)
        ensures
            copy@ == self@,
    {
        JsonResponse {
            code: self.code,
            msg: self.msg.clone(),
            data: match &self.data {
                Some(body) => Some(body.clone()),
                None => None,
            },
        }
    }
}

impl JsonResponse {
    /// The envelope that an object stands for, read strictly: `code` is a
    /// non-negative integer, `msg` a string, and `data` a body, null or
    /// absent.
    pub open spec fn decode(value: JsonValue) -> Option<JsonResponseModel> {
        match (value.field("code"@), value.text_field("msg"@)) {
            (Some(code), Some(msg)) => match code.u64_model() {
                Some(number) => match value.field("data"@) {
                    None => Some(JsonResponseModel { code: number, msg, data: None }),
                    Some(JsonValue::Null) => Some(
                        JsonResponseModel { code: number, msg, data: None },
                    ),
                    Some(nested) => match ResponseBody::decode(nested) {
                        Some(body) => Some(JsonResponseModel { code: number, msg, data: Some(body) }),
                        None => None,
                    },
                },
                None => None,
            },
            _ => None,
        }
    }

    pub fn from_json(value: &JsonValue) -> (envelope: Option<JsonResponse>)
        ensures
            match envelope {
                Some(e) => Self::decode(*value) == Some(e@),
                None => Self::decode(*value).is_none(),
            },
    {
        let code = match value.get("code") {
            Some(member) => match member.as_u64() {
                Some(number) => number,
                None => {
                    return None;
                },
            },
            None => {
                return None;
            },
        };
        let msg = match value.get_text("msg") {
            Some(text) => text,
            None => {
                return None;
            },
        };
        let data = match value.get("data") {
            None => None,
            Some(nested) => {
                if nested.is_null() {
                    None
                } else {
                    match ResponseBody::from_json(nested) {
                        Some(body) => Some(body),
                        None => {
                            return None;
                        },
                    }
                }
            },
        };
        Some(JsonResponse { code, msg, data })
    }
}

/// Why an operation on the service failed.
#[derive(Debug, PartialEq, Eq)]
pub enum ServiceError {
    /// The service could not be reached at all.
    Unreachable { detail: String },
    /// The exchange failed: the outer envelope reports no success.
    Transport { message: String },
    /// The outer envelope reports success and carries nothing.
    NoData { command: IpcCommand },
    /// The inner envelope does not have the shape that the command calls for.
    Malformed { command: IpcCommand },
    /// The answer names no version.
    NoVersion,
    /// The service received the command and failed to carry it out.
    Functional { command: IpcCommand, code: u64, message: String },
    /// A reinstallation was asked for too soon or too often.
    RateLimited,
    /// The installer failed.
    InstallFailed { detail: String },
    /// The service has another version than required, may not be
    /// reinstalled now, and did not start the engine as it is.
    MismatchNoReinstall,
    /// The service had to be reinstalled and that failed.
    ReinstallFailed { detail: String },
    /// The service is not there and need not, or may not, be reinstalled.
    Unavailable,
    /// A reinstallation that the user asked for failed.
    ForcedReinstallFailed { detail: String },
}

/// The mathematical content of a [`ServiceError`].
pub enum ServiceErrorModel {
    Unreachable { detail: Seq<char> },
    Transport { message: Seq<char> },
    NoData { command: IpcCommand },
    Malformed { command: IpcCommand },
    NoVersion,
    Functional { command: IpcCommand, code: u64, message: Seq<char> },
    RateLimited,
    InstallFailed { detail: Seq<char> },
    MismatchNoReinstall,
    ReinstallFailed { detail: Seq<char> },
    Unavailable,
    ForcedReinstallFailed { detail: Seq<char> },
}

impl ServiceErrorModel {
    /// What the user is told.
    pub open spec fn message(self) -> Seq<char> {
        match self {
            ServiceErrorModel::Unreachable { detail } => "Unable to connect to Koala Clash Service: "@
                + detail,
            ServiceErrorModel::Transport { message } => message,
            ServiceErrorModel::NoData { command } => match command {
                IpcCommand::GetVersion => "No data in service version response"@,
                _ => "No data in service response"@,
            },
            ServiceErrorModel::Malformed { command } => match command {
                IpcCommand::GetVersion => "Unable to parse service version data"@,
                _ => "Unable to parse service response data"@,
            },
            ServiceErrorModel::NoVersion => "No valid version information found in response"@,
            ServiceErrorModel::Functional { command, code, message } => match command {
                IpcCommand::Start => "Failed to start core: "@ + message,
                IpcCommand::Stop => "Failed to stop core: "@ + message,
                _ => message,
            },
            ServiceErrorModel::RateLimited => "Service reinstallation is rate limited. Please try again later."@,
            ServiceErrorModel::InstallFailed { detail } => "failed to install service: "@ + detail,
            ServiceErrorModel::MismatchNoReinstall => "Service version mismatch and cannot reinstall; startup failed"@,
            ServiceErrorModel::ReinstallFailed { detail } => "Failed to reinstall service: "@
                + detail,
            ServiceErrorModel::Unavailable => "Service is not available and cannot be reinstalled at this time"@,
            ServiceErrorModel::ForcedReinstallFailed { detail } => "Forced service reinstallation failed: "@
                + detail,
        }
    }
}

impl View for ServiceError {
    type V = ServiceErrorModel;

    open spec fn view(&self) -> ServiceErrorModel {
        match self {
            ServiceError::Unreachable { detail } => ServiceErrorModel::Unreachable {
                detail: detail@,
            },
            ServiceError::Transport { message } => ServiceErrorModel::Transport {
                message: message@,
            },
            ServiceError::NoData { command } => ServiceErrorModel::NoData { command: *command },
            ServiceError::Malformed { command } => ServiceErrorModel::Malformed {
                command: *command,
            },
            ServiceError::NoVersion => ServiceErrorModel::NoVersion,
            ServiceError::Functional { command, code, message } => ServiceErrorModel::Functional {
                command: *command,
                code: *code,
                message: message@,
            },
            ServiceError::RateLimited => ServiceErrorModel::RateLimited,
            ServiceError::InstallFailed { detail } => ServiceErrorModel::InstallFailed {
                detail: detail@,
            },
            ServiceError::MismatchNoReinstall => ServiceErrorModel::MismatchNoReinstall,
            ServiceError::ReinstallFailed { detail } => ServiceErrorModel::ReinstallFailed {
                detail: detail@,
            },
            ServiceError::Unavailable => ServiceErrorModel::Unavailable,
            ServiceError::ForcedReinstallFailed { detail } => ServiceErrorModel::ForcedReinstallFailed {
                detail: detail@,
            },
        }
    }
}

impl Clone for ServiceError {
    fn clone(&self) -> (copy: Self)
        ensures
            copy@ == self@,
    {
        match self {
            ServiceError::Unreachable { detail } => ServiceError::Unreachable {
                detail: detail.clone(),
            },
            ServiceError::Transport { message } => ServiceError::Transport {
                message: message.clone(),
            },
            ServiceError::NoData { command } => ServiceError::NoData { command: *command },
            ServiceError::Malformed { command } => ServiceError::Malformed { command: *command },
            ServiceError::NoVersion => ServiceError::NoVersion,
            ServiceError::Functional { command, code, message } => ServiceError::Functional {
                command: *command,
                code: *code,
                message: message.clone(),
            },
            ServiceError::RateLimited => ServiceError::RateLimited,
            ServiceError::InstallFailed { detail } => ServiceError::InstallFailed {
                detail: detail.clone(),
            },
            ServiceError::MismatchNoReinstall => ServiceError::MismatchNoReinstall,
            ServiceError::ReinstallFailed { detail } => ServiceError::ReinstallFailed {
                detail: detail.clone(),
            },
            ServiceError::Unavailable => ServiceError::Unavailable,
            ServiceError::ForcedReinstallFailed { detail } => ServiceError::ForcedReinstallFailed {
                detail: detail.clone(),
            },
        }
    }
}

impl ServiceError {
    /// What the user is told.
    pub fn message(&self) -> (text: String)
        ensures
            text@ == self@.message(),
    {
        match self {
            ServiceError::Unreachable { detail } => join(
                "Unable to connect to Koala Clash Service: ",
                detail.as_str(),
            ),
            ServiceError::Transport { message } => message.clone(),
            ServiceError::NoData { command } => match command {
                IpcCommand::GetVersion => "No data in service version response".to_owned(),
                _ => "No data in service response".to_owned(),
            },
            ServiceError::Malformed { command } => match command {
                IpcCommand::GetVersion => "Unable to parse service version data".to_owned(),
                _ => "Unable to parse service response data".to_owned(),
            },
            ServiceError::NoVersion => "No valid version information found in response".to_owned(),
            ServiceError::Functional { command, code, message } => match command {
                IpcCommand::Start => join("Failed to start core: ", message.as_str()),
                IpcCommand::Stop => join("Failed to stop core: ", message.as_str()),
                _ => message.clone(),
            },
            ServiceError::RateLimited => "Service reinstallation is rate limited. Please try again later.".to_owned(),
            ServiceError::InstallFailed { detail } => join(
                "failed to install service: ",
                detail.as_str(),
            ),
            ServiceError::MismatchNoReinstall => "Service version mismatch and cannot reinstall; startup failed".to_owned(),
            ServiceError::ReinstallFailed { detail } => join(
                "Failed to reinstall service: ",
                detail.as_str(),
            ),
            ServiceError::Unavailable => "Service is not available and cannot be reinstalled at this time".to_owned(),
            ServiceError::ForcedReinstallFailed { detail } => join(
                "Forced service reinstallation failed: ",
                detail.as_str(),
            ),
        }
    }
}

/// The error of an exchange that did not yield an inner envelope; `None`
/// where it did, and then `data` is that envelope.
pub open spec fn outer_failure(reply: IpcReply, command: IpcCommand) -> Option<ServiceErrorModel> {
    match reply {
        Err(detail) => Some(ServiceErrorModel::Unreachable { detail: detail@ }),
        Ok(response) => if !response.success {
            Some(
                ServiceErrorModel::Transport {
                    message: match response.error {
                        Some(error) => error@,
                        None => command.default_failure(),
                    },
                },
            )
        } else {
            None
        },
    }
}

/// Opens the outer envelope: the error of an exchange that failed, else the
/// inner envelope where there is one.
fn open_outer<'a>(reply: &'a IpcReply, command: IpcCommand) -> (opened: Result<
    Option<&'a JsonValue>,
    ServiceError,
>)
    ensures
        match opened {
            Ok(data) => {
                &&& outer_failure(*reply, command).is_none()
                &&& reply is Ok
                &&& match data {
                    Some(value) => reply->Ok_0.data == Some(*value),
                    None => reply->Ok_0.data.is_none(),
                }
            },
            Err(error) => outer_failure(*reply, command) == Some(error@),
        },
{
    match reply {
        Err(detail) => Err(ServiceError::Unreachable { detail: detail.clone() }),
        Ok(response) => {
            if !response.success {
                Err(
                    ServiceError::Transport {
                        message: match &response.error {
                            Some(error) => error.clone(),
                            None => command.default_failure_text(),
                        },
                    },
                )
            } else {
                Ok(response.data.as_ref())
            }
        },
    }
}

/// The view of an answer about the service's state.
pub open spec fn status_view(outcome: Result<JsonResponse, ServiceError>) -> Result<
    JsonResponseModel,
    ServiceErrorModel,
> {
    match outcome {
        Ok(envelope) => Ok(envelope@),
        Err(error) => Err(error@),
    }
}

/// The view of an answer that is a text.
pub open spec fn text_view(outcome: Result<String, ServiceError>) -> Result<
    Seq<char>,
    ServiceErrorModel,
> {
    match outcome {
        Ok(text) => Ok(text@),
        Err(error) => Err(error@),
    }
}

/// The view of an answer that says only whether the command was carried out.
pub open spec fn unit_view(outcome: Result<(), ServiceError>) -> Result<(), ServiceErrorModel> {
    match outcome {
        Ok(_) => Ok(()),
        Err(error) => Err(error@),
    }
}

/// What an inner envelope says of the service's state.
///
/// Where the envelope has both `code` and `msg` it is read leniently: a
/// `code` that is no non-negative integer counts as 0, a `msg` that is no
/// string as `"ok"`, and a `data` that is no body as none. Otherwise the
/// envelope is read strictly.
pub open spec fn status_of_envelope(data: JsonValue) -> Result<JsonResponseModel, ServiceErrorModel> {
    if data.field("code"@).is_some() && data.field("msg"@).is_some() {
        Ok(
            JsonResponseModel {
                code: match data.field("code"@).unwrap().u64_model() {
                    Some(number) => number,
                    None => 0,
                },
                msg: match data.field("msg"@).unwrap().text_model() {
                    Some(text) => text,
                    None => "ok"@,
                },
                data: match data.field("data"@) {
                    Some(nested) => ResponseBody::decode(nested),
                    None => None,
                },
            },
        )
    } else {
        match JsonResponse::decode(data) {
            Some(envelope) => Ok(envelope),
            None => Err(ServiceErrorModel::Malformed { command: IpcCommand::GetStatus }),
        }
    }
}

/// What a reply to `GetStatus` says.
pub open spec fn status_of(reply: IpcReply) -> Result<JsonResponseModel, ServiceErrorModel> {
    match outer_failure(reply, IpcCommand::GetStatus) {
        Some(error) => Err(error),
        None => match reply->Ok_0.data {
            Some(data) => status_of_envelope(data),
            None => Err(ServiceErrorModel::NoData { command: IpcCommand::GetStatus }),
        },
    }
}

/// Reads a reply to `GetStatus`.
pub fn check_ipc_service_status(reply: &IpcReply) -> (outcome: Result<JsonResponse, ServiceError>)
    ensures
        status_view(outcome) == status_of(*reply),
{
    let data = match open_outer(reply, IpcCommand::GetStatus) {
        Ok(Some(data)) => data,
        Ok(None) => {
            return Err(ServiceError::NoData { command: IpcCommand::GetStatus });
        },
        Err(error) => {
            return Err(error);
        },
    };
    match (data.get("code"), data.get("msg")) {
        (Some(code), Some(msg)) => {
            let code_value = match code.as_u64() {
                Some(number) => number,
                None => 0,
            };
            let msg_value = match msg.as_str() {
                Some(text) => text.clone(),
                None => "ok".to_owned(),
            };
            let body = match data.get("data") {
                Some(nested) => ResponseBody::from_json(nested),
                None => None,
            };
            Ok(JsonResponse { code: code_value, msg: msg_value, data: body })
        },
        _ => match JsonResponse::from_json(data) {
            Some(envelope) => Ok(envelope),
            None => Err(ServiceError::Malformed { command: IpcCommand::GetStatus }),
        },
    }
}

/// The failure that an inner envelope reports: a `code` that is a number
/// other than zero, with the `msg` beside it.
pub open spec fn reported_failure(data: JsonValue, command: IpcCommand) -> Option<
    ServiceErrorModel,
> {
    match data.field("code"@) {
        Some(code) => match code.u64_model() {
            Some(number) => if number != 0 {
                Some(
                    ServiceErrorModel::Functional {
                        command,
                        code: number,
                        message: match data.text_field("msg"@) {
                            Some(text) => text,
                            None => "Unknown error"@,
                        },
                    },
                )
            } else {
                None
            },
            None => None,
        },
        None => None,
    }
}

fn failure_reported(data: &JsonValue, command: IpcCommand) -> (failure: Option<ServiceError>)
    ensures
        match failure {
            Some(error) => reported_failure(*data, command) == Some(error@),
            None => reported_failure(*data, command).is_none(),
        },
{
    match data.get("code") {
        Some(code) => match code.as_u64() {
            Some(number) => {
                if number != 0 {
                    let message = match data.get_text("msg") {
                        Some(text) => text,
                        None => "Unknown error".to_owned(),
                    };
                    Some(ServiceError::Functional { command, code: number, message })
                } else {
                    None
                }
            },
            None => None,
        },
        None => None,
    }
}

/// The version that an inner envelope names.
///
/// An envelope that reports a failure names none. In the current form the
/// version stands in the nested `data`, as the string `version`. An envelope
/// without a nested `data` is read in the older form, `{service, version}`.
pub open spec fn version_of_envelope(data: JsonValue) -> Result<Seq<char>, ServiceErrorModel> {
    match reported_failure(data, IpcCommand::GetVersion) {
        Some(error) => Err(error),
        None => match data.field("data"@) {
            Some(nested) => match nested.text_field("version"@) {
                Some(version) => Ok(version),
                None => Err(ServiceErrorModel::NoVersion),
            },
            None => match VersionResponse::decode(data) {
                Some(answer) => Ok(answer.version),
                None => Err(ServiceErrorModel::Malformed { command: IpcCommand::GetVersion }),
            },
        },
    }
}

/// What a reply to `GetVersion` says.
pub open spec fn version_of(reply: IpcReply) -> Result<Seq<char>, ServiceErrorModel> {
    match outer_failure(reply, IpcCommand::GetVersion) {
        Some(error) => Err(error),
        None => match reply->Ok_0.data {
            Some(data) => version_of_envelope(data),
            None => Err(ServiceErrorModel::NoData { command: IpcCommand::GetVersion }),
        },
    }
}

/// Reads a reply to `GetVersion`.
pub fn check_service_version(reply: &IpcReply) -> (outcome: Result<String, ServiceError>)
    ensures
        text_view(outcome) == version_of(*reply),
{
    let data = match open_outer(reply, IpcCommand::GetVersion) {
        Ok(Some(data)) => data,
        Ok(None) => {
            return Err(ServiceError::NoData { command: IpcCommand::GetVersion });
        },
        Err(error) => {
            return Err(error);
        },
    };
    match failure_reported(data, IpcCommand::GetVersion) {
        Some(error) => {
            return Err(error);
        },
        None => {},
    }
    match data.get("data") {
        Some(nested) => match nested.get_text("version") {
            Some(version) => Ok(version),
            None => Err(ServiceError::NoVersion),
        },
        None => match VersionResponse::from_json(data) {
            Some(answer) => Ok(answer.version),
            None => Err(ServiceError::Malformed { command: IpcCommand::GetVersion }),
        },
    }
}

/// Whether an inner envelope reports that the command was carried out.
///
/// An envelope without a `code` reports no failure. A `code` that is no
/// non-negative integer counts as 1, a failure, and a `msg` that is missing
/// or no string as `"Unknown error"`.
pub open spec fn command_of_envelope(data: JsonValue, command: IpcCommand) -> Result<
    (),
    ServiceErrorModel,
> {
    match data.field("code"@) {
        Some(code) => {
            let code_value = match code.u64_model() {
                Some(number) => number,
                None => 1,
            };
            if code_value != 0 {
                Err(
                    ServiceErrorModel::Functional {
                        command,
                        code: code_value,
                        message: match data.text_field("msg"@) {
                            Some(text) => text,
                            None => "Unknown error"@,
                        },
                    },
                )
            } else {
                Ok(())
            }
        },
        None => Ok(()),
    }
}

/// What a reply to `Start` or `Stop` says.
pub open spec fn command_of(reply: IpcReply, command: IpcCommand) -> Result<(), ServiceErrorModel> {
    match outer_failure(reply, command) {
        Some(error) => Err(error),
        None => match reply->Ok_0.data {
            Some(data) => command_of_envelope(data, command),
            None => Ok(()),
        },
    }
}

/// Reads a reply to a command that returns nothing but its success.
pub fn check_command_reply(reply: &IpcReply, command: IpcCommand) -> (outcome: Result<
    (),
    ServiceError,
>)
    ensures
        unit_view(outcome) == command_of(*reply, command),
{
    let data = match open_outer(reply, command) {
        Ok(Some(data)) => data,
        Ok(None) => {
            return Ok(());
        },
        Err(error) => {
            return Err(error);
        },
    };
    match data.get("code") {
        Some(code) => {
            let code_value = match code.as_u64() {
                Some(number) => number,
                None => 1,
            };
            if code_value != 0 {
                let message = match data.get_text("msg") {
                    Some(text) => text,
                    None => "Unknown error".to_owned(),
                };
                Err(ServiceError::Functional { command, code: code_value, message })
            } else {
                Ok(())
            }
        },
        None => Ok(()),
    }
}

/// Reads the reply to `Start`.
pub fn start_with_existing_service(reply: &IpcReply) -> (outcome: Result<(), ServiceError>)
    ensures
        unit_view(outcome) == command_of(*reply, IpcCommand::Start),
{
    check_command_reply(reply, IpcCommand::Start)
}

/// What a reply to `Stop` says. A service that cannot be reached runs no
/// engine, so there is nothing left to stop and the stop counts as done.
/// Every other failure stands.
pub open spec fn stop_of(reply: IpcReply) -> Result<(), ServiceErrorModel> {
    match reply {
        Err(_) => Ok(()),
        Ok(_) => command_of(reply, IpcCommand::Stop),
    }
}

/// Reads the reply to `Stop`.
pub fn stop_core_by_service(reply: &IpcReply) -> (outcome: Result<(), ServiceError>)
    ensures
        unit_view(outcome) == stop_of(*reply),
{
    match reply {
        Err(_) => Ok(()),
        Ok(_) => check_command_reply(reply, IpcCommand::Stop),
    }
}

/// The service counts as available as soon as it answers a question for its
/// state at all, whatever the answer says.
pub open spec fn available(status: Result<JsonResponseModel, ServiceErrorModel>) -> Result<
    (),
    ServiceErrorModel,
> {
    match status {
        Ok(_) => Ok(()),
        Err(error) => Err(error),
    }
}

/// Whether the service is there, given its answer to `GetStatus`.
pub fn is_service_available(status: Result<JsonResponse, ServiceError>) -> (outcome: Result<
    (),
    ServiceError,
>)
    ensures
        unit_view(outcome) == available(status_view(status)),
{
    match status {
        Ok(_) => Ok(()),
        Err(error) => Err(error),
    }
}

/// A non-zero `code` is a failure even under an outer envelope that reports
/// success: a reply to `Start` or `Stop` whose inner envelope carries one is
/// never read as success.
pub proof fn lemma_inner_code_decides(reply: IpcReply, command: IpcCommand, code: u64)
    requires
        reply is Ok,
        reply->Ok_0.success,
        reply->Ok_0.data.is_some(),
        reply->Ok_0.data.unwrap().field("code"@) == Some(
            JsonValue::Number(crate::json::JsonNumber::PosInt(code)),
        ),
    ensures
        command_of(reply, command) is Ok <==> code == 0,
        code != 0 ==> command_of(reply, command) is Err && command_of(reply, command)->Err_0
            is Functional && command_of(reply, command)->Err_0->Functional_code == code,
{
}

/// The same holds of a question for the version: under an inner envelope
/// that reports a failure no version is read, whatever else it carries.
pub proof fn lemma_inner_code_hides_version(reply: IpcReply, code: u64)
    requires
        reply is Ok,
        reply->Ok_0.success,
        reply->Ok_0.data.is_some(),
        reply->Ok_0.data.unwrap().field("code"@) == Some(
            JsonValue::Number(crate::json::JsonNumber::PosInt(code)),
        ),
        code != 0,
    ensures
        version_of(reply) is Err,
        version_of(reply)->Err_0 is Functional,
        version_of(reply)->Err_0->Functional_code == code,
{
}

/// An outer envelope that reports no success decides the matter alone: the
/// inner envelope is not looked at.
pub proof fn lemma_outer_failure_decides(reply: IpcReply, command: IpcCommand)
    requires
        reply is Ok,
        !reply->Ok_0.success,
    ensures
        command_of(reply, command) is Err,
        command_of(reply, command)->Err_0 is Transport,
        version_of(reply) is Err,
        version_of(reply)->Err_0 is Transport,
        status_of(reply) is Err,
        status_of(reply)->Err_0 is Transport,
{
}

} // verus!
