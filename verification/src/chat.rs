//! Multi-turn chat mode: an ordered transcript of role-tagged turns, grown
//! across completion calls, and the per-turn decisions of the interactive
//! loop. The transcript always begins with the one System turn set at session
//! creation, and an Assistant turn is only ever appended directly after the
//! User turn it answers.

use vstd::prelude::*;

use crate::prompt::chat_prompt_spec;
use crate::prompt::get_chat_prompt;
use crate::shell::SupportedOperatingSystem;
use crate::text::is_termination_spec;
use crate::text::is_termination_word;

verus! {

/// Who a conversation turn comes from.
#[derive(Clone, Copy, PartialEq, Eq, Structural, Debug)]
pub enum Role {
    System,
    User,
    Assistant,
}

/// One message of a conversation: a role tag and the text, immutable once
/// appended.
pub struct Turn {
    pub role: Role,
    pub text: String,
}

/// What the caller must do with a line of user input it handed to the
/// session.
#[derive(Clone, Copy, PartialEq, Eq, Structural, Debug)]
pub enum ChatTurnAction {
    /// The line was a termination keyword: the session is over; the
    /// transcript was not touched and no provider call is to be made.
    End,
    /// The line was appended as a User turn: send the whole transcript to the
    /// completion provider and hand the reply back through
    /// [`ChatSession::record_reply`].
    Send,
}

/// The shape every reachable transcript keeps: it begins with a System turn,
/// no other System turn ever appears, and an Assistant turn only ever stands
/// directly after a User turn. Together with the session operations — which
/// only append, and never touch the seed turn — this is the transcript
/// invariant: after any number of completed turns the first entry is still
/// the System turn set at session start.
pub open spec fn transcript_wf(t: Seq<Turn>) -> bool {
    &&& t.len() >= 1
    &&& t[0].role == Role::System
    &&& forall|i: int| 1 <= i < t.len() ==> (#[trigger] t[i].role) != Role::System
    &&& forall|i: int|
        0 <= i < t.len() && (#[trigger] t[i].role) == Role::Assistant ==> i >= 1 && t[i
            - 1].role == Role::User
}

/// Whether a completion body carries text to display and record: a present,
/// non-empty content string.
pub open spec fn returns_text(content: Option<String>) -> bool {
    content matches Some(text) && text@.len() > 0
}

/// An interactive conversation: the growing transcript that is replayed in
/// full on every provider call, and whether the session still accepts input.
/// The transcript lives only for the session; nothing is persisted.
pub struct ChatSession {
    transcript: Vec<Turn>,
    active: bool,
}

impl ChatSession {
    /// The ordered turns so far.
    pub closed spec fn transcript_view(&self) -> Seq<Turn> {
        self.transcript@
    }

    /// Whether the session still accepts input.
    pub closed spec fn is_active_spec(&self) -> bool {
        self.active
    }

    /// The transcript invariant, established at creation and kept by every
    /// operation.
    pub open spec fn wf(&self) -> bool {
        transcript_wf(self.transcript_view())
    }

    /// Start a session for the detected operating system: active, with the
    /// transcript seeded by exactly one System turn carrying the chat-mode
    /// prompt.
    pub fn new(os: &SupportedOperatingSystem) -> (session: ChatSession)
        ensures
            session.wf(),
            session.is_active_spec(),
            session.transcript_view().len() == 1,
            session.transcript_view()[0].role == Role::System,
            session.transcript_view()[0].text@ == chat_prompt_spec(os),
    {
        let prompt = get_chat_prompt(os);
        let mut transcript: Vec<Turn> = Vec::new();
        transcript.push(Turn { role: Role::System, text: prompt });
        ChatSession { transcript, active: true }
    }

    /// The transcript so far, first turn oldest.
    pub fn transcript(&self) -> (t: &Vec<Turn>)
        ensures
            t@ == self.transcript_view(),
    {
        &self.transcript
    }

    /// Whether the session still accepts input.
    pub fn is_active(&self) -> (r: bool)
        ensures
            r == self.is_active_spec(),
    {
        self.active
    }

    /// Hand the session one line of user input. A termination keyword —
    /// "exit" or "quit" in any letter case — ends the session with the
    /// transcript untouched and no provider call owed; any other line is
    /// appended as a User turn, to be sent to the provider.
    pub fn submit_line(&mut self, line: String) -> (action: ChatTurnAction)
        requires
            old(self).wf(),
            old(self).is_active_spec(),
        ensures
            final(self).wf(),
            is_termination_spec(line@) ==> {
                &&& action == ChatTurnAction::End
                &&& !final(self).is_active_spec()
                &&& final(self).transcript_view() == old(self).transcript_view()
            },
            !is_termination_spec(line@) ==> {
                &&& action == ChatTurnAction::Send
                &&& final(self).is_active_spec()
                &&& final(self).transcript_view() == old(self).transcript_view().push(
                    Turn { role: Role::User, text: line },
                )
            },
    {
        if is_termination_word(line.as_str()) {
            self.active = false;
            ChatTurnAction::End
        } else {
            proof {
                let t = self.transcript@;
                let u = Turn { role: Role::User, text: line };
                assert(transcript_wf(t.push(u))) by {
                    assert(forall|i: int|
                        0 <= i < t.len() ==> #[trigger] t.push(u)[i] == t[i]);
                    assert(t.push(u)[t.len() as int] == u);
                }
            }
            self.transcript.push(Turn { role: Role::User, text: line });
            ChatTurnAction::Send
        }
    }

    /// Record the provider's reply to the turn just sent. Non-empty text is
    /// appended as an Assistant turn with that exact text; an absent or empty
    /// body appends nothing, and the session simply waits for the next line.
    pub fn record_reply(&mut self, content: Option<String>)
        requires
            old(self).wf(),
            old(self).is_active_spec(),
            old(self).transcript_view().last().role == Role::User,
        ensures
            final(self).wf(),
            final(self).is_active_spec(),
            returns_text(content) ==> final(self).transcript_view() == old(
                self,
            ).transcript_view().push(
                Turn { role: Role::Assistant, text: content.unwrap() },
            ),
            !returns_text(content) ==> final(self).transcript_view() == old(
                self,
            ).transcript_view(),
    {
        match content {
            Some(text) => {
                if !text.as_str().is_empty() {
                    proof {
                        let t = self.transcript@;
                        let u = Turn { role: Role::Assistant, text: text };
                        assert(transcript_wf(t.push(u))) by {
                            assert(forall|i: int|
                                0 <= i < t.len() ==> #[trigger] t.push(u)[i] == t[i]);
                            assert(t.push(u)[t.len() as int] == u);
                            assert(t.last() == t[t.len() - 1]);
                        }
                    }
                    self.transcript.push(Turn { role: Role::Assistant, text });
                }
            },
            None => {},
        }
    }
}

} // verus!
