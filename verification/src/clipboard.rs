//! Access of programs to the clipboard, and pastes into terminals.
use crate::host::{ClipboardAccess, Confirmation, Host, PendingPaste};
use vstd::prelude::*;

verus! {

/// A program's request to read or to replace the clipboard.
#[derive(Clone, Copy, Debug, PartialEq, Eq, Structural)]
pub enum ClipboardRequest {
    /// `listing` asks for the available formats alone.
    Read { granted: bool, listing: bool, can_remember: bool },
    Write { granted: bool, can_remember: bool },
}

impl ClipboardRequest {
    /// The request was granted before, or reveals no content.
    pub open spec fn is_exempt(self) -> bool {
        match self {
            ClipboardRequest::Read { granted, listing, .. } => granted || listing,
            ClipboardRequest::Write { granted, .. } => granted,
        }
    }

    pub open spec fn spec_can_remember(self) -> bool {
        match self {
            ClipboardRequest::Read { can_remember, .. } => can_remember,
            ClipboardRequest::Write { can_remember, .. } => can_remember,
        }
    }
}

/// What a policy makes of a request: only what it leaves to the user can be exempt.
pub open spec fn effective_policy(policy: ClipboardAccess, exempt: bool) -> ClipboardAccess {
    if policy == ClipboardAccess::Ask && exempt {
        ClipboardAccess::Allow
    } else {
        policy
    }
}

pub fn clipboard_policy(
    read_policy: ClipboardAccess,
    write_policy: ClipboardAccess,
    request: ClipboardRequest,
) -> (policy: ClipboardAccess)
    ensures
        policy == effective_policy(
            if request is Read {
                read_policy
            } else {
                write_policy
            },
            request.is_exempt(),
        ),
{
    let (policy, exempt) = match request {
        ClipboardRequest::Read { granted, listing, .. } => (read_policy, granted || listing),
        ClipboardRequest::Write { granted, .. } => (write_policy, granted),
    };
    if policy == ClipboardAccess::Ask && exempt {
        ClipboardAccess::Allow
    } else {
        policy
    }
}

/// A grant never overrides an explicit denial, and nothing but a grant or a harmless request
/// passes without the question where the user wants to be asked.
pub proof fn law_grants_never_override_denial(policy: ClipboardAccess, exempt: bool)
    ensures
        effective_policy(ClipboardAccess::Deny, exempt) == ClipboardAccess::Deny,
        effective_policy(policy, false) == policy,
        effective_policy(policy, exempt) == ClipboardAccess::Allow <==> policy
            == ClipboardAccess::Allow || (policy == ClipboardAccess::Ask && exempt),
{
}

/// The answer to a clipboard request.
#[derive(Clone, Copy, Debug, PartialEq, Eq, Structural)]
pub enum ClipboardReply {
    Denied,
    /// The platform cannot be reached.
    Unavailable,
    /// The platform is asked; a success is remembered or not.
    Access { remember: bool },
}

/// How a request is answered once it is decided on: only what the user allows reaches the
/// platform, and only where the request permits it is the permission remembered.
pub fn finish_clipboard(
    request: ClipboardRequest,
    allow: bool,
    remember: bool,
    platform: bool,
) -> (reply: ClipboardReply)
    ensures
        reply == if !allow {
            ClipboardReply::Denied
        } else if !platform {
            ClipboardReply::Unavailable
        } else {
            ClipboardReply::Access { remember: remember && request.spec_can_remember() }
        },
{
    let can_remember = match request {
        ClipboardRequest::Read { can_remember, .. } => can_remember,
        ClipboardRequest::Write { can_remember, .. } => can_remember,
    };
    if !allow {
        ClipboardReply::Denied
    } else if !platform {
        ClipboardReply::Unavailable
    } else {
        ClipboardReply::Access { remember: remember && can_remember }
    }
}

/// Whether line breaks pass as safe: the terminal marks pastes, and the user trusts that.
pub fn trusts_brackets(bracketed_safe: bool, bracketed_mode: bool) -> (trusts: bool)
    ensures
        trusts == (bracketed_safe && bracketed_mode),
{
    bracketed_safe && bracketed_mode
}

/// Whether the user is asked about a paste; `safe` is what the terminal says of its text.
pub fn paste_needs_confirmation(protection: bool, safe: bool) -> (needed: bool)
    ensures
        needed == (protection && !safe),
{
    protection && !safe
}

/// What becomes of a paste.
#[derive(Debug)]
pub enum PasteStep {
    Ignore,
    Ask,
    Send(PendingPaste),
}

impl Host {
    /// Decides on a paste. `alive` tells whether the pane is still in this window and runs,
    /// `needed` whether its text needs a confirmation.
    pub fn paste(&mut self, paste: PendingPaste, approved: bool, alive: bool, needed: bool) -> (step:
        PasteStep)
        ensures
            ({
                let ignored = paste.data@.len() == 0 || !alive;
                let asks = !approved && needed;
                &&& step == if ignored {
                    PasteStep::Ignore
                } else if asks {
                    PasteStep::Ask
                } else {
                    PasteStep::Send(paste)
                }
                &&& *final(self) == if !ignored && asks {
                    Host { confirm: Some(Confirmation::Paste(paste)), ..*old(self) }
                } else {
                    *old(self)
                }
            }),
    {
        if paste.data.len() == 0 || !alive {
            return PasteStep::Ignore;
        }
        if !approved && needed {
            self.confirm = Some(Confirmation::Paste(paste));
            return PasteStep::Ask;
        }
        PasteStep::Send(paste)
    }

    /// A question about a paste goes once its pane is gone.
    pub fn drop_stale_paste(&mut self, alive: bool)
        ensures
            *final(self) == if old(self).confirm is Some && old(self).confirm->0 is Paste && !alive {
                Host { confirm: None, ..*old(self) }
            } else {
                *old(self)
            },
    {
        let stale = match &self.confirm {
            Some(Confirmation::Paste(_)) => !alive,
            _ => false,
        };
        if stale {
            self.confirm = None;
        }
    }

    /// Takes what the user was asked about, and hands it out where they agreed.
    pub fn answer(&mut self, approved: bool) -> (confirmed: Option<Confirmation>)
        ensures
            confirmed == if approved {
                old(self).confirm
            } else {
                None
            },
            *final(self) == (Host { confirm: None, ..*old(self) }),
    {
        let asked = self.confirm.take();
        if approved {
            asked
        } else {
            None
        }
    }
}

/// How a paste action reaches the program.
#[derive(Clone, Copy, Debug, PartialEq, Eq, Structural)]
pub enum PasteRoute {
    /// The pane is gone: nothing is left to do.
    Done,
    /// The program is told of the formats and asks for the one that it wants.
    Announce,
    /// The text is pasted.
    Text,
}

/// Chooses how to paste: `listens` tells whether the program asked to be told of pastes.
pub fn paste_route(alive: bool, platform: bool, listens: bool) -> (route: PasteRoute)
    ensures
        route == if !alive {
            PasteRoute::Done
        } else if platform && listens {
            PasteRoute::Announce
        } else {
            PasteRoute::Text
        },
{
    if !alive {
        PasteRoute::Done
    } else if platform && listens {
        PasteRoute::Announce
    } else {
        PasteRoute::Text
    }
}

/// How much of a paste the user is shown before it is sent.
pub const PREVIEW_BYTES: usize = 4096;

/// The length of the preview, and whether it stands for more.
pub fn preview(length: usize) -> (shown: (usize, bool))
    ensures
        shown.0 == if length <= PREVIEW_BYTES {
            length
        } else {
            PREVIEW_BYTES
        },
        shown.1 == (length > PREVIEW_BYTES),
{
    if length <= PREVIEW_BYTES {
        (length, false)
    } else {
        (PREVIEW_BYTES, true)
    }
}

/// What a release of the mouse copies.
#[derive(Clone, Copy, Debug, PartialEq, Eq, Structural)]
pub enum CopyOnSelect {
    Off,
    Clipboard,
    Primary,
    Both,
}

impl CopyOnSelect {
    /// Whether selected text goes to the clipboard, and whether to the selection.
    pub fn targets(self) -> (targets: (bool, bool))
        ensures
            targets.0 == (self == CopyOnSelect::Clipboard || self == CopyOnSelect::Both),
            targets.1 == (self == CopyOnSelect::Primary || self == CopyOnSelect::Both),
    {
        match self {
            CopyOnSelect::Off => (false, false),
            CopyOnSelect::Clipboard => (true, false),
            CopyOnSelect::Primary => (false, true),
            CopyOnSelect::Both => (true, true),
        }
    }
}

} // verus!
