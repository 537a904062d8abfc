//! Events for the user interface.
//!
//! The library never delivers an event itself. It hands notices back to its
//! caller, which passes them on at most once and does not wait for anyone to
//! receive them.

use vstd::prelude::*;

verus! {

/// The events that the interface listens for.
#[derive(Clone, Copy, PartialEq, Eq, Structural, Debug)]
pub enum NoticeKind {
    /// Another profile became active; the detail is its identifier.
    ProfileChanged,
    /// The update timer of a profile was refreshed; the detail is its identifier.
    TimerUpdated,
    /// The target's document does not exist; the detail is its path.
    FileNotFound,
    /// The target's document is not well-formed YAML.
    YamlSyntaxError,
    /// The syntax check itself did not complete.
    YamlParseError,
    /// The target's document could not be read.
    FileReadError,
    /// Reading the target's document took too long.
    FileReadTimeout,
    /// The proxy engine refused the configuration.
    ValidateError,
    /// The update of the proxy engine failed before it gave a verdict.
    BootError,
    /// The update of the proxy engine took too long.
    ValidateTimeout,
    /// A plain message.
    Info,
    /// A subscription update failed and is tried again through the engine.
    UpdateRetryWithClash,
    /// A subscription update succeeded through the engine.
    UpdateWithClashProxy,
    /// A subscription update failed through the engine too.
    UpdateFailedEvenWithClash,
    /// The engine could not take over an updated subscription.
    UpdateFailed,
}

impl NoticeKind {
    /// The name under which the interface knows the event.
    pub open spec fn name_model(self) -> Seq<char> {
        match self {
            NoticeKind::ProfileChanged => "profile_changed"@,
            NoticeKind::TimerUpdated => "timer_updated"@,
            NoticeKind::FileNotFound => "config_validate::file_not_found"@,
            NoticeKind::YamlSyntaxError => "config_validate::yaml_syntax_error"@,
            NoticeKind::YamlParseError => "config_validate::yaml_parse_error"@,
            NoticeKind::FileReadError => "config_validate::file_read_error"@,
            NoticeKind::FileReadTimeout => "config_validate::file_read_timeout"@,
            NoticeKind::ValidateError => "config_validate::error"@,
            NoticeKind::BootError => "config_validate::boot_error"@,
            NoticeKind::ValidateTimeout => "config_validate::timeout"@,
            NoticeKind::Info => "info"@,
            NoticeKind::UpdateRetryWithClash => "update_retry_with_clash"@,
            NoticeKind::UpdateWithClashProxy => "update_with_clash_proxy"@,
            NoticeKind::UpdateFailedEvenWithClash => "update_failed_even_with_clash"@,
            NoticeKind::UpdateFailed => "update_failed"@,
        }
    }

    pub fn name(&self) -> (text: String)
        ensures
            text@ == self.name_model(),
    {
        match self {
            NoticeKind::ProfileChanged => "profile_changed".to_owned(),
            NoticeKind::TimerUpdated => "timer_updated".to_owned(),
            NoticeKind::FileNotFound => "config_validate::file_not_found".to_owned(),
            NoticeKind::YamlSyntaxError => "config_validate::yaml_syntax_error".to_owned(),
            NoticeKind::YamlParseError => "config_validate::yaml_parse_error".to_owned(),
            NoticeKind::FileReadError => "config_validate::file_read_error".to_owned(),
            NoticeKind::FileReadTimeout => "config_validate::file_read_timeout".to_owned(),
            NoticeKind::ValidateError => "config_validate::error".to_owned(),
            NoticeKind::BootError => "config_validate::boot_error".to_owned(),
            NoticeKind::ValidateTimeout => "config_validate::timeout".to_owned(),
            NoticeKind::Info => "info".to_owned(),
            NoticeKind::UpdateRetryWithClash => "update_retry_with_clash".to_owned(),
            NoticeKind::UpdateWithClashProxy => "update_with_clash_proxy".to_owned(),
            NoticeKind::UpdateFailedEvenWithClash => "update_failed_even_with_clash".to_owned(),
            NoticeKind::UpdateFailed => "update_failed".to_owned(),
        }
    }
}

/// One event with its detail.
#[derive(Debug, PartialEq, Eq)]
pub struct Notice {
    pub kind: NoticeKind,
    pub detail: String,
}

/// The mathematical content of a [`Notice`].
pub struct NoticeModel {
    pub kind: NoticeKind,
    pub detail: Seq<char>,
}

impl View for Notice {
    type V = NoticeModel;

    open spec fn view(&self) -> NoticeModel {
        NoticeModel { kind: self.kind, detail: self.detail@ }
    }
}

/// The view of an optional notice.
pub open spec fn notice_model(notice: Option<Notice>) -> Option<NoticeModel> {
    match notice {
        Some(n) => Some(n@),
        None => None,
    }
}

} // verus!
