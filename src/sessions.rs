use vstd::prelude::*;
use vstd::string::*;

verus! {

/// The tabs of the session panel.
#[derive(Clone, Copy, PartialEq, Eq, Structural, Debug)]
pub enum SessionTab {
    Chats,
    Model,
}

/// Detects the moment the speech device stops speaking. It samples the
/// device's busy flag once per tick.
pub struct SpeechMonitor {
    /// Whether the device was speaking at the last tick.
    pub is_speaking: bool,
}

/// What one tick of the speech monitor derives.
pub struct SpeechTick {
    /// Speech ended between the previous tick and this one.
    pub stopped: bool,
    /// The host must schedule another tick at once, to catch the end promptly.
    pub repaint: bool,
}

/// The busy flag a reading stands for: no device, or a failed read, counts
/// as not speaking.
pub open spec fn speaking(reading: Option<bool>) -> bool {
    match reading {
        Some(b) => b,
        None => false,
    }
}

impl SpeechMonitor {
    pub fn new() -> (r: SpeechMonitor)
        ensures
            !r.is_speaking,
    {
        SpeechMonitor { is_speaking: false }
    }

    /// Takes this tick's reading of the device: `Some(flag)` on success,
    /// `None` when there is no device or the read failed.
    pub fn tick(&mut self, reading: Option<bool>) -> (r: SpeechTick)
        ensures
            final(self).is_speaking == speaking(reading),
            r.stopped == (old(self).is_speaking && !speaking(reading)),
            r.repaint == speaking(reading),
    {
        let prev = self.is_speaking;
        let now = match reading {
            Some(b) => b,
            None => false,
        };
        self.is_speaking = now;
        SpeechTick { stopped: prev && !now, repaint: now }
    }
}

/// The falling edges of a sampled sequence of busy flags, starting from
/// "not speaking": position `i` is true when the flag was up before and is
/// down now.
pub open spec fn stopped_edges(states: Seq<bool>) -> Seq<bool> {
    Seq::new(
        states.len(),
        |i: int|
            if i == 0 {
                false
            } else {
                states[i - 1] && !states[i]
            },
    )
}

/// Feeds a sequence of readings to a fresh monitor and collects the "stopped"
/// signal of each tick.
pub fn stopped_signals(states: &Vec<bool>) -> (r: Vec<bool>)
    ensures
        r@ == stopped_edges(states@),
{
    let mut m = SpeechMonitor::new();
    let mut r: Vec<bool> = Vec::new();
    let mut i: usize = 0;
    while i < states.len()
        invariant
            i <= states@.len(),
            r@ == stopped_edges(states@).subrange(0, i as int),
            i > 0 ==> m.is_speaking == states@[i - 1],
            i == 0 ==> !m.is_speaking,
        decreases states@.len() - i,
    {
        let t = m.tick(Some(states[i]));
        r.push(t.stopped);
        proof {
            assert(r@ =~= stopped_edges(states@).subrange(0, i + 1));
        }
        i = i + 1;
    }
    proof {
        assert(r@ =~= stopped_edges(states@));
    }
    r
}

/// One conversation, as the directory sees it.
pub struct Session {
    /// Short label of the conversation; empty until there is one.
    pub summary: String,
}

impl Session {
    pub fn new() -> (r: Session)
        ensures
            r.summary@.len() == 0,
    {
        Session { summary: String::new() }
    }
}

/// The label shown for a session with an empty summary.
pub open spec fn empty_label() -> Seq<char> {
    seq!['E', 'm', 'p', 't', 'y', ' ', 's', 'e', 's', 's', 'i', 'o', 'n']
}

/// What the directory delivers to the active session in one tick.
pub struct SessionTick {
    /// Position of the session to show, if any.
    pub active: Option<usize>,
    /// Speech ended during this tick.
    pub stopped_speaking: bool,
    /// The host must schedule another tick at once.
    pub repaint: bool,
}

/// The ordered sessions, the active one and the speech monitor.
pub struct Sessions {
    pub tab: SessionTab,
    pub chats: Vec<Session>,
    pub selected_chat: Option<usize>,
    pub speech: SpeechMonitor,
}

impl Sessions {
    /// The active index, when there is one, names an existing session.
    pub open spec fn wf(&self) -> bool {
        self.selected_chat matches Some(i) ==> i < self.chats@.len()
    }

    /// The directory at startup: one empty session, and it is active.
    pub fn new() -> (r: Sessions)
        ensures
            r.wf(),
            r.tab == SessionTab::Chats,
            r.chats@.len() == 1,
            r.chats@[0].summary@.len() == 0,
            r.selected_chat == Some(0usize),
            !r.speech.is_speaking,
    {
        let mut chats: Vec<Session> = Vec::new();
        chats.push(Session::new());
        Sessions { tab: SessionTab::Chats, chats, selected_chat: Some(0), speech: SpeechMonitor::new() }
    }

    /// Appends an empty session. Which session is active does not change.
    pub fn new_session(&mut self)
        requires
            old(self).wf(),
            old(self).chats@.len() < usize::MAX,
        ensures
            final(self).wf(),
            final(self).chats@.len() == old(self).chats@.len() + 1,
            final(self).chats@.subrange(0, old(self).chats@.len() as int) == old(self).chats@,
            final(self).chats@.last().summary@.len() == 0,
            final(self).selected_chat == old(self).selected_chat,
            final(self).tab == old(self).tab,
            final(self).speech == old(self).speech,
    {
        self.chats.push(Session::new());
        proof {
            assert(self.chats@.subrange(0, old(self).chats@.len() as int) =~= old(self).chats@);
        }
    }

    /// Makes the session at position `i` the active one.
    pub fn select_session(&mut self, i: usize)
        requires
            old(self).wf(),
            i < old(self).chats@.len(),
        ensures
            final(self).wf(),
            final(self).selected_chat == Some(i),
            final(self).chats == old(self).chats,
            final(self).tab == old(self).tab,
            final(self).speech == old(self).speech,
    {
        self.selected_chat = Some(i);
    }

    /// The position of the active session, if it exists.
    pub fn get_selected_chat(&self) -> (r: Option<usize>)
        ensures
            r == (match self.selected_chat {
                Some(i) => if i < self.chats@.len() { Some(i) } else { None },
                None => None,
            }),
    {
        match self.selected_chat {
            Some(i) => if i < self.chats.len() { Some(i) } else { None },
            None => None,
        }
    }

    /// The label of the session at position `i` in the selector.
    pub fn label(&self, i: usize) -> (r: String)
        requires
            i < self.chats@.len(),
        ensures
            self.chats@[i as int].summary@.len() == 0 ==> r@ == empty_label(),
            self.chats@[i as int].summary@.len() > 0 ==> r@ == self.chats@[i as int].summary@,
    {
        let s = &self.chats[i].summary;
        if s.as_str().is_empty() {
            let r = String::from_str("Empty session");
            proof {
                reveal_strlit("Empty session");
                assert(r@ =~= empty_label());
            }
            r
        } else {
            s.clone()
        }
    }

    /// One tick of the directory: samples the speech device (`None` when there
    /// is none or its read failed), then names the active session and hands it
    /// this tick's "stopped speaking" signal.
    pub fn tick(&mut self, reading: Option<bool>) -> (r: SessionTick)
        requires
            old(self).wf(),
        ensures
            final(self).wf(),
            final(self).chats == old(self).chats,
            final(self).selected_chat == old(self).selected_chat,
            final(self).tab == old(self).tab,
            final(self).speech.is_speaking == speaking(reading),
            r.stopped_speaking == (old(self).speech.is_speaking && !speaking(reading)),
            r.repaint == speaking(reading),
            r.active == old(self).selected_chat,
    {
        let t = self.speech.tick(reading);
        SessionTick { active: self.get_selected_chat(), stopped_speaking: t.stopped, repaint: t.repaint }
    }
}

impl Default for Sessions {
    fn default() -> (r: Sessions)
        ensures
            r.wf(),
            r.tab == SessionTab::Chats,
            r.chats@.len() == 1,
            r.chats@[0].summary@.len() == 0,
            r.selected_chat == Some(0usize),
            !r.speech.is_speaking,
    {
        Sessions::new()
    }
}

} // verus!
