//! The update window: what it says and offers for each state of the updater.
use vstd::prelude::*;

use crate::text::{decimal, push_decimal, push_str};

verus! {

/// A release as the update window shows it.
#[derive(Debug)]
pub struct ReleaseSummary {
    pub tag_name: String,
    /// The publication date, already written out.
    pub published: String,
    /// The size of the release file, in bytes.
    pub size: u64,
}

/// What the updater is doing.
#[derive(Debug)]
pub enum UpdateStatus {
    Idle,
    UpdateError(String),
    FetchingMetadata,
    MetadataReady(ReleaseSummary),
    FetchingRelease(usize, Option<usize>),
    ReleaseReady(ReleaseSummary),
}

/// The buttons of the update window.
#[derive(Debug)]
pub enum UpdateButton {
    CheckForUpdates,
    CheckAgain,
    /// Download the release; the text of the button.
    Update(String),
    Abort,
    RestartNow,
}

/// What the update window shows: a line of text, whether a spinner runs, the progress bar of
/// a download (bytes received and bytes in all), and its buttons.
#[derive(Debug)]
pub struct UpdateView {
    pub text: Option<String>,
    pub spinner: bool,
    pub progress: Option<(usize, usize)>,
    pub buttons: Vec<UpdateButton>,
}

/// The text of the button that downloads a release:
/// `[force ]update <current> → <tag> (<size in MiB> MB)`.
pub open spec fn update_button_text(force: bool, current: Seq<char>, tag: Seq<char>, size: u64) -> Seq<char> {
    (if force { "force "@ } else { ""@ }) + "update "@ + current + " → "@ + tag + " ("@
        + decimal((size / 1048576) as nat) + " MB)"@
}

/// The update window.
#[derive(Debug)]
pub struct UpdateWindow {}

impl UpdateWindow {
    /// The update window.
    pub fn new() -> (w: Self) {
        UpdateWindow {  }
    }

    /// What to show for the updater's state, where `current` is the running version,
    /// `up_to_date` tells whether it is at least the offered release, and `force` whether the
    /// release is applied whatever its version.
    pub fn view(&self, status: &UpdateStatus, current: &str, up_to_date: bool, force: bool) -> (v: UpdateView)
        ensures
            v.progress == (match status {
                UpdateStatus::FetchingRelease(ready, Some(total)) => Some((*ready, *total)),
                _ => None,
            }),
            v.spinner == (match status {
                UpdateStatus::FetchingMetadata => true,
                UpdateStatus::FetchingRelease(_, total) => total is None,
                _ => false,
            }),
            match status {
                UpdateStatus::Idle => v.text is None && v.buttons@.len() == 1
                    && v.buttons@[0] is CheckForUpdates,
                UpdateStatus::UpdateError(t) => (v.text matches Some(s) && s@
                    == "failed to fetch updates: "@ + t@) && v.buttons@.len() == 1
                    && v.buttons@[0] is CheckForUpdates,
                UpdateStatus::FetchingMetadata => (v.text matches Some(s) && s@
                    == "checking for updates..."@) && v.buttons@.len() == 0,
                UpdateStatus::MetadataReady(m) => if up_to_date && !force {
                    (v.text matches Some(s) && s@ == "no updates, "@ + m.tag_name@
                        + " is the latest version"@) && v.buttons@.len() == 1
                        && v.buttons@[0] is CheckAgain
                } else {
                    &&& v.text matches Some(s) && s@ == "next release: "@ + m.tag_name@
                        + " from "@ + m.published@
                    &&& v.buttons@.len() == 2
                    &&& v.buttons@[0] is CheckAgain
                    &&& v.buttons@[1] matches UpdateButton::Update(b) && b@ == update_button_text(
                        force,
                        current@,
                        m.tag_name@,
                        m.size,
                    )
                },
                UpdateStatus::FetchingRelease(_, _) => v.text is None
                    && v.buttons@.len() == 1 && v.buttons@[0] is Abort,
                UpdateStatus::ReleaseReady(m) => (v.text matches Some(s) && s@ == m.tag_name@
                    + " downloaded, restart the app whenever you wish"@) && v.buttons@.len() == 1
                    && v.buttons@[0] is RestartNow,
            },
    {
        let mut buttons: Vec<UpdateButton> = Vec::new();
        match status {
            UpdateStatus::Idle => {
                buttons.push(UpdateButton::CheckForUpdates);
                UpdateView { text: None, spinner: false, progress: None, buttons }
            },
            UpdateStatus::UpdateError(t) => {
                let mut s = String::new();
                push_str(&mut s, "failed to fetch updates: ");
                push_str(&mut s, t.as_str());
                buttons.push(UpdateButton::CheckForUpdates);
                UpdateView { text: Some(s), spinner: false, progress: None, buttons }
            },
            UpdateStatus::FetchingMetadata => {
                UpdateView { text: Some("checking for updates...".to_owned()), spinner: true, progress: None, buttons }
            },
            UpdateStatus::MetadataReady(m) => {
                let mut s = String::new();
                if up_to_date && !force {
                    push_str(&mut s, "no updates, ");
                    push_str(&mut s, m.tag_name.as_str());
                    push_str(&mut s, " is the latest version");
                    buttons.push(UpdateButton::CheckAgain);
                } else {
                    push_str(&mut s, "next release: ");
                    push_str(&mut s, m.tag_name.as_str());
                    push_str(&mut s, " from ");
                    push_str(&mut s, m.published.as_str());
                    let mut b = String::new();
                    if force {
                        push_str(&mut b, "force ");
                    } else {
                        proof {
                            reveal_strlit("");
                        }
                    }
                    push_str(&mut b, "update ");
                    push_str(&mut b, current);
                    push_str(&mut b, " → ");
                    push_str(&mut b, m.tag_name.as_str());
                    push_str(&mut b, " (");
                    push_decimal(&mut b, m.size / 1048576);
                    push_str(&mut b, " MB)");
                    buttons.push(UpdateButton::CheckAgain);
                    buttons.push(UpdateButton::Update(b));
                }
                UpdateView { text: Some(s), spinner: false, progress: None, buttons }
            },
            UpdateStatus::FetchingRelease(ready, total) => {
                buttons.push(UpdateButton::Abort);
                let progress = match total {
                    Some(t) => Some((*ready, *t)),
                    None => None,
                };
                UpdateView { text: None, spinner: total.is_none(), progress, buttons }
            },
            UpdateStatus::ReleaseReady(m) => {
                let mut s = String::new();
                push_str(&mut s, m.tag_name.as_str());
                push_str(&mut s, " downloaded, restart the app whenever you wish");
                buttons.push(UpdateButton::RestartNow);
                UpdateView { text: Some(s), spinner: false, progress: None, buttons }
            },
        }
    }

    /// The line on automatic updates.
    pub fn autoupdate_status(enabled: bool) -> (r: &'static str)
        ensures
            r@ == (if enabled {
                "- automatic updates: enabled"@
            } else {
                "- automatic updates: disabled"@
            }),
    {
        if enabled {
            "- automatic updates: enabled"
        } else {
            "- automatic updates: disabled"
        }
    }
}

} // verus!
