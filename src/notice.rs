//! Notice data as the API sends it.

use vstd::prelude::*;

use crate::text::same_text;

verus! {

/// A photo attached to a notice as evidence.
#[derive(Debug, Clone)]
pub struct NoticePhotosJson {
    pub filename: String,
    pub url: String,
}

/// Processing status of a notice.
#[derive(Debug, Clone, Copy, PartialEq, Eq, Structural)]
pub enum NoticeStatus {
    OPEN,
    DISABLED,
    ANALYZING,
    /// Notice has been sent to the responsible contact email of the district.
    SHARED,
}

/// The name the API uses for a notice status.
pub open spec fn notice_status_name(s: NoticeStatus) -> Seq<char> {
    match s {
        NoticeStatus::OPEN => "open"@,
        NoticeStatus::DISABLED => "disabled"@,
        NoticeStatus::ANALYZING => "analyzing"@,
        NoticeStatus::SHARED => "shared"@,
    }
}

impl NoticeStatus {
    /// The status the API calls `s`; the error holds `s` when no status has
    /// that name.
    pub fn from_str(s: &str) -> (r: Result<NoticeStatus, String>)
        ensures
            match r {
                Ok(t) => notice_status_name(t) == s@,
                Err(e) => e@ == s@ && s@ != "open"@ && s@ != "disabled"@ && s@ != "analyzing"@
                    && s@ != "shared"@,
            },
    {
        if same_text(s, "open") {
            Ok(NoticeStatus::OPEN)
        } else if same_text(s, "disabled") {
            Ok(NoticeStatus::DISABLED)
        } else if same_text(s, "analyzing") {
            Ok(NoticeStatus::ANALYZING)
        } else if same_text(s, "shared") {
            Ok(NoticeStatus::SHARED)
        } else {
            Err(s.to_owned())
        }
    }

    /// The name the API uses for this status.
    pub fn to_string(&self) -> (r: String)
        ensures
            r@ == notice_status_name(*self),
    {
        match self {
            NoticeStatus::OPEN => "open".to_owned(),
            NoticeStatus::DISABLED => "disabled".to_owned(),
            NoticeStatus::ANALYZING => "analyzing".to_owned(),
            NoticeStatus::SHARED => "shared".to_owned(),
        }
    }
}

} // verus!
