//! The confirmation prompt shown before a local-control request closes
//! something: at most one prompt at a time, resolved once.
use vstd::prelude::*;
use crate::local_control::protocol::ActionKind;

verus! {

/// A request waiting for the user's approval.
#[derive(Debug, Clone)]
pub struct LocalControlConfirmationPrompt {
    /// Identifies the request (a UUID, as its 128-bit value).
    pub confirmation_id: u128,
    pub action: ActionKind,
    pub target_summary: String,
}

/// The buttons of the confirmation dialog.
#[derive(Debug, Clone, Copy, PartialEq, Eq, Structural)]
pub enum LocalControlConfirmationAction {
    Deny,
    Approve,
}

/// The confirmation dialog: the prompt it shows, if any.
#[derive(Debug)]
pub struct LocalControlConfirmationDialog {
    pub prompt: Option<LocalControlConfirmationPrompt>,
}

impl LocalControlConfirmationDialog {
    /// A dialog showing nothing.
    pub fn new() -> (dialog: Self)
        ensures
            dialog.prompt is None,
    {
        LocalControlConfirmationDialog { prompt: None }
    }

    /// Shows `prompt` unless another prompt is showing; reports whether it
    /// was shown.
    pub fn show(&mut self, prompt: LocalControlConfirmationPrompt) -> (shown: bool)
        ensures
            shown == (old(self).prompt is None),
            shown ==> final(self).prompt == Some(prompt),
            !shown ==> final(self).prompt == old(self).prompt,
    {
        if self.prompt.is_some() {
            return false;
        }
        self.prompt = Some(prompt);
        true
    }

    /// Whether a prompt is showing.
    pub fn is_visible(&self) -> (visible: bool)
        ensures
            visible == (self.prompt is Some),
    {
        self.prompt.is_some()
    }

    /// Hides the prompt for `confirmation_id`, if it is the one showing.
    pub fn dismiss(&mut self, confirmation_id: u128)
        ensures
            (old(self).prompt matches Some(p) && p.confirmation_id == confirmation_id) ==> final(self).prompt is None,
            !(old(self).prompt matches Some(p) && p.confirmation_id == confirmation_id) ==> final(self).prompt == old(self).prompt,
    {
        let matches_id = match &self.prompt {
            Some(p) => p.confirmation_id == confirmation_id,
            None => false,
        };
        if matches_id {
            self.prompt = None;
        }
    }

    /// Resolves the showing prompt with the user's decision: its id and
    /// whether it was approved. Nothing happens without a prompt.
    pub fn handle_action(&mut self, action: LocalControlConfirmationAction) -> (resolution: Option<(u128, bool)>)
        ensures
            final(self).prompt is None,
            match old(self).prompt {
                Some(p) => resolution == Some((p.confirmation_id, action == LocalControlConfirmationAction::Approve)),
                None => resolution is None,
            },
    {
        let approved = match action {
            LocalControlConfirmationAction::Deny => false,
            LocalControlConfirmationAction::Approve => true,
        };
        match self.prompt.take() {
            Some(p) => Some((p.confirmation_id, approved)),
            None => None,
        }
    }
}

} // verus!
