//! Asking for the user's attention when a message arrives while the window is not focused,
//! and withdrawing the request, as each desktop platform needs it.
use vstd::prelude::*;

verus! {

/// How insistently to ask for attention.
#[derive(Clone, Copy, Debug, PartialEq, Eq, Structural)]
pub enum NotificationStyle {
    /// A short request.
    Moderate,
    /// A request that lasts until the window is focused or the timeout passes.
    Intensive,
}

/// The desktop platform, which decides how attention is asked for and withdrawn.
#[derive(Clone, Copy, Debug, PartialEq, Eq, Structural)]
pub enum Platform {
    Linux,
    MacOs,
    Windows,
}

/// What the window system is asked to do.
#[derive(Clone, Copy, Debug, PartialEq, Eq, Structural)]
pub enum AttentionCommand {
    /// Ask for attention briefly (a window-manager hint, or the end of a flash on Windows).
    Informational,
    /// Flash the window until it is focused (Windows).
    Critical,
    /// Withdraw the urgency hint (Linux).
    Reset,
    /// Make the dock icon jump, keeping the token that cancels it (macOS).
    DockRequest,
    /// Stop the dock icon with the kept token (macOS).
    DockCancel,
    /// Show or hide the dock badge (macOS).
    DockBadge(bool),
}

/// The state of the attention request. Times are in seconds on a monotonic clock.
#[derive(Debug)]
pub struct WindowAttention {
    notification_start_time: Option<u64>,
    /// macOS: the dock request can still be cancelled with its token.
    attention_token: bool,
    was_focused: bool,
}

/// The commands that ask for attention: on Linux a hint; on macOS a dock request, cancelled at
/// once for the moderate style and shown with a badge for the intensive one; on Windows a
/// flash, ended at once for the moderate style.
pub open spec fn request_commands(style: NotificationStyle, platform: Platform) -> Seq<AttentionCommand> {
    match platform {
        Platform::Linux => seq![AttentionCommand::Informational],
        Platform::MacOs => if style == NotificationStyle::Moderate {
            seq![AttentionCommand::DockRequest, AttentionCommand::DockCancel]
        } else {
            seq![AttentionCommand::DockRequest, AttentionCommand::DockBadge(true)]
        },
        Platform::Windows => if style == NotificationStyle::Moderate {
            seq![AttentionCommand::Critical, AttentionCommand::Informational]
        } else {
            seq![AttentionCommand::Critical]
        },
    }
}

impl WindowAttention {
    /// When the current request was made, if one is pending.
    pub closed spec fn started(self) -> Option<u64> {
        self.notification_start_time
    }

    /// Whether a dock request can still be cancelled (macOS).
    pub closed spec fn dock_pending(self) -> bool {
        self.attention_token
    }

    /// Whether the window was focused in the last frame (tracked on Linux and macOS).
    pub closed spec fn focused(self) -> bool {
        self.was_focused
    }

    /// No request pending, window not focused.
    pub fn new() -> (w: Self)
        ensures
            w.started() is None,
            !w.dock_pending(),
            !w.focused(),
    {
        WindowAttention { notification_start_time: None, attention_token: false, was_focused: false }
    }

    /// Asks for attention at `now` in the given style; returns the commands for the window
    /// system.
    pub fn request(&mut self, style: NotificationStyle, platform: Platform, now: u64) -> (r: Vec<AttentionCommand>)
        ensures
            r@ == request_commands(style, platform),
            final(self).started() == Some(now),
            final(self).dock_pending() == (if platform == Platform::MacOs {
                style == NotificationStyle::Intensive
            } else {
                old(self).dock_pending()
            }),
            final(self).focused() == old(self).focused(),
    {
        let mut r = Vec::new();
        match platform {
            Platform::Linux => {
                r.push(AttentionCommand::Informational);
            },
            Platform::MacOs => {
                r.push(AttentionCommand::DockRequest);
                self.attention_token = true;
                match style {
                    NotificationStyle::Moderate => {
                        r.push(AttentionCommand::DockCancel);
                        self.attention_token = false;
                    },
                    NotificationStyle::Intensive => {
                        r.push(AttentionCommand::DockBadge(true));
                    },
                }
            },
            Platform::Windows => {
                r.push(AttentionCommand::Critical);
                if style == NotificationStyle::Moderate {
                    r.push(AttentionCommand::Informational);
                }
            },
        }
        self.notification_start_time = Some(now);
        r
    }

    /// Called every frame: an intensive request whose timeout has passed is withdrawn (on
    /// Windows by ending the flash, on macOS by cancelling a pending dock request). Returns
    /// whether it was withdrawn now, and the commands.
    pub fn check_timeout(
        &mut self,
        timeout_enabled: bool,
        style: NotificationStyle,
        timeout_seconds: u32,
        platform: Platform,
        now: u64,
    ) -> (r: (bool, Vec<AttentionCommand>))
        ensures
            r.0 == (timeout_enabled && style == NotificationStyle::Intensive
                && (old(self).started() matches Some(t) && elapsed(t, now) >= timeout_seconds)),
            final(self).started() == (if r.0 {
                None
            } else {
                old(self).started()
            }),
            r.1@ == (if !r.0 {
                Seq::<AttentionCommand>::empty()
            } else {
                match platform {
                    Platform::Windows => seq![AttentionCommand::Informational],
                    Platform::MacOs => if old(self).dock_pending() {
                        seq![AttentionCommand::DockCancel]
                    } else {
                        Seq::<AttentionCommand>::empty()
                    },
                    Platform::Linux => Seq::<AttentionCommand>::empty(),
                }
            }),
            final(self).dock_pending() == (old(self).dock_pending() && !(r.0 && platform
                == Platform::MacOs)),
            final(self).focused() == old(self).focused(),
    {
        let mut cmds = Vec::new();
        if !timeout_enabled || style != NotificationStyle::Intensive {
            return (false, cmds);
        }
        match self.notification_start_time {
            Some(start) => {
                let passed = if now >= start {
                    now - start
                } else {
                    0
                };
                if passed >= timeout_seconds as u64 {
                    match platform {
                        Platform::Windows => {
                            cmds.push(AttentionCommand::Informational);
                        },
                        Platform::MacOs => {
                            if self.attention_token {
                                cmds.push(AttentionCommand::DockCancel);
                                self.attention_token = false;
                            }
                        },
                        Platform::Linux => {},
                    }
                    self.notification_start_time = None;
                    (true, cmds)
                } else {
                    (false, cmds)
                }
            },
            None => (false, cmds),
        }
    }

    /// Called every frame with the focus state. On Linux and macOS, when the window has just
    /// gained focus the pending request is withdrawn: on Linux the urgency hint is reset; on
    /// macOS a pending dock request is cancelled, the request forgotten and the badge hidden.
    /// On Windows nothing is done (the system ends the flash on focus). Returns the commands.
    pub fn on_focus_changed(&mut self, is_focused: bool, platform: Platform) -> (r: Vec<AttentionCommand>)
        ensures
            ({
                let tracked_platform = platform != Platform::Windows;
                let gained = tracked_platform && is_focused && !old(self).focused();
                &&& r@ == (if !gained {
                    Seq::<AttentionCommand>::empty()
                } else if platform == Platform::Linux {
                    seq![AttentionCommand::Reset]
                } else if old(self).dock_pending() {
                    seq![AttentionCommand::DockCancel, AttentionCommand::DockBadge(false)]
                } else {
                    seq![AttentionCommand::DockBadge(false)]
                })
                &&& final(self).focused() == (if tracked_platform {
                    is_focused
                } else {
                    old(self).focused()
                })
                &&& final(self).started() == (if gained && platform == Platform::MacOs {
                    None
                } else {
                    old(self).started()
                })
                &&& final(self).dock_pending() == (old(self).dock_pending() && !(gained
                    && platform == Platform::MacOs))
            }),
    {
        let mut r = Vec::new();
        if platform == Platform::Windows {
            return r;
        }
        if is_focused && !self.was_focused {
            if platform == Platform::Linux {
                r.push(AttentionCommand::Reset);
            } else {
                if self.attention_token {
                    r.push(AttentionCommand::DockCancel);
                    self.attention_token = false;
                }
                self.notification_start_time = None;
                r.push(AttentionCommand::DockBadge(false));
            }
        }
        self.was_focused = is_focused;
        r
    }
}

/// Seconds from `start` to `now`; a clock never runs backwards, so an earlier `now` counts as
/// no time.
pub open spec fn elapsed(start: u64, now: u64) -> int {
    if now >= start {
        now - start
    } else {
        0
    }
}

} // verus!
