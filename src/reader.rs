//! The reading state machine: cursor, pause state, speed, and the timer arms
//! that are still outstanding.
use vstd::prelude::*;
use crate::display::{orp_spec, split_word, WordDisplay};
use crate::event::{Event, Key};
use crate::timing::{dwell, dwell_spec};

verus! {

/// Direction of a speed change.
#[derive(Clone, Copy, Debug, PartialEq, Eq, Structural)]
pub enum SpeedChange {
    Slower,
    Faster,
}

/// What the control loop must do after handing an event to the engine.
#[derive(Clone, Copy, Debug, PartialEq, Eq, Structural)]
pub enum Action {
    /// Nothing beyond drawing the new state.
    Nothing,
    /// Ask the timer for one tick after this many milliseconds.
    Arm(u64),
    /// Leave the loop and report the final position and speed.
    Quit,
}

/// Why a reading session cannot start.
#[derive(Clone, Copy, Debug, PartialEq, Eq, Structural)]
pub enum StartError {
    /// The text holds no word.
    EmptyText,
    /// A word of the text is the empty string.
    EmptyWord,
    /// The resume index is not an index of the text.
    ResumeOutOfRange,
    /// The speed is zero words per minute.
    ZeroSpeed,
}

/// The state of a reading session as plain values.
pub struct ReaderView {
    pub text: Seq<String>,
    pub cursor: int,
    pub paused: bool,
    pub wpm: int,
    /// Timer arms whose tick has not come back yet; only the tick of the
    /// latest arm advances the cursor.
    pub armed: int,
}

/// `n + 1`, held at the largest `u64`.
pub open spec fn saturating_inc(n: int) -> int {
    if n < u64::MAX {
        n + 1
    } else {
        n
    }
}

/// The speed after a change: ×1.1 (at most the largest `u64`) or ×0.9 (at
/// least one word per minute), rounded down.
pub open spec fn changed_wpm(wpm: int, c: SpeedChange) -> int {
    match c {
        SpeedChange::Faster => if wpm * 11 / 10 > u64::MAX {
            u64::MAX as int
        } else {
            wpm * 11 / 10
        },
        SpeedChange::Slower => if wpm * 9 / 10 < 1 {
            1
        } else {
            wpm * 9 / 10
        },
    }
}

/// First index of the words shown before `cursor`: `n` back, but not below 0.
pub open spec fn preceding_start(cursor: int, n: int) -> int {
    if cursor >= n {
        cursor - n
    } else {
        0
    }
}

/// End (exclusive) of the words shown after `cursor`: `n` ahead, but not past
/// the last word.
pub open spec fn succeeding_end(cursor: int, n: int, len: int) -> int {
    if cursor + 1 + n <= len {
        cursor + 1 + n
    } else {
        len
    }
}

impl ReaderView {
    /// A valid session: a non-empty text of non-empty words, the cursor on
    /// one of them, and a speed of at least one word per minute.
    pub open spec fn wf(self) -> bool {
        &&& 1 <= self.text.len() <= usize::MAX
        &&& forall|i: int| 0 <= i < self.text.len() ==> #[trigger] self.text[i]@.len() > 0
        &&& 0 <= self.cursor < self.text.len()
        &&& 1 <= self.wpm <= u64::MAX
        &&& 0 <= self.armed <= u64::MAX
    }

    /// The word under the cursor.
    pub open spec fn word(self) -> String {
        self.text[self.cursor]
    }

    /// Dwell time of the word under the cursor at the current speed.
    pub open spec fn dwell_ms(self, is_initial: bool) -> int {
        dwell_spec(self.wpm, self.word()@, is_initial)
    }

    /// One word forward, staying at the last word.
    pub open spec fn advanced(self) -> ReaderView {
        ReaderView {
            cursor: if self.cursor + 1 < self.text.len() {
                self.cursor + 1
            } else {
                self.text.len() - 1
            },
            ..self
        }
    }

    /// One word back, staying at the first word.
    pub open spec fn retreated(self) -> ReaderView {
        ReaderView {
            cursor: if self.cursor > 0 {
                self.cursor - 1
            } else {
                0
            },
            ..self
        }
    }

    /// Up to `n` words strictly before the cursor.
    pub open spec fn preceding(self, n: int) -> Seq<String> {
        self.text.subrange(preceding_start(self.cursor, n), self.cursor)
    }

    /// Up to `n` words strictly after the cursor.
    pub open spec fn succeeding(self, n: int) -> Seq<String> {
        self.text.subrange(self.cursor + 1, succeeding_end(self.cursor, n, self.text.len() as int))
    }

    /// The same session at the changed speed.
    pub open spec fn with_speed(self, c: SpeedChange) -> ReaderView {
        ReaderView { wpm: changed_wpm(self.wpm, c), ..self }
    }

    /// Arms the timer for the current word while running; does nothing while
    /// paused.
    pub open spec fn arm(self, is_initial: bool) -> (ReaderView, Option<u64>) {
        if self.paused {
            (self, None)
        } else {
            (
                ReaderView { armed: saturating_inc(self.armed), ..self },
                Some(self.dwell_ms(is_initial) as u64),
            )
        }
    }

    /// Running → paused drops the pending advance; paused → running arms the
    /// timer with the long first-word dwell.
    pub open spec fn toggled(self) -> (ReaderView, Option<u64>) {
        if self.paused {
            ReaderView { paused: false, ..self }.arm(true)
        } else {
            (ReaderView { paused: true, ..self }, None)
        }
    }

    /// A timer tick: the tick of the latest arm advances and re-arms while
    /// running; any other tick only retires its arm.
    pub open spec fn ticked(self) -> (ReaderView, Option<u64>) {
        if self.armed == 1 && !self.paused {
            ReaderView { armed: 0, ..self }.advanced().arm(false)
        } else {
            (ReaderView { armed: if self.armed > 0 { self.armed - 1 } else { 0 }, ..self }, None)
        }
    }

    /// What a key press does: `q` quits, space toggles the pause, `[` and `]`
    /// change the speed, and the arrows step back and forth while paused.
    pub open spec fn on_key(self, k: Key) -> (ReaderView, Action) {
        match k {
            Key::Char(c) => if c == 'q' {
                (self, Action::Quit)
            } else if c == ' ' {
                (self.toggled().0, action_of(self.toggled().1))
            } else if c == '[' {
                (self.with_speed(SpeedChange::Slower), Action::Nothing)
            } else if c == ']' {
                (self.with_speed(SpeedChange::Faster), Action::Nothing)
            } else {
                (self, Action::Nothing)
            },
            Key::Left => if self.paused {
                (self.retreated(), Action::Nothing)
            } else {
                (self, Action::Nothing)
            },
            Key::Right => if self.paused {
                (self.advanced(), Action::Nothing)
            } else {
                (self, Action::Nothing)
            },
            Key::Other => (self, Action::Nothing),
        }
    }

    /// The state and action after one event of the merged stream.
    pub open spec fn step(self, e: Event<Key>) -> (ReaderView, Action) {
        match e {
            Event::Input(k) => self.on_key(k),
            Event::Tick => (self.ticked().0, action_of(self.ticked().1)),
        }
    }
}

/// A requested arm becomes `Arm`; no request is `Nothing`.
pub open spec fn action_of(a: Option<u64>) -> Action {
    match a {
        Some(ms) => Action::Arm(ms),
        None => Action::Nothing,
    }
}

/// Every word of the text is a non-empty string.
pub open spec fn words_nonempty(text: Seq<String>) -> bool {
    forall|i: int| 0 <= i < text.len() ==> #[trigger] text[i]@.len() > 0
}

/// A reading session: the words, the cursor into them, the pause state, the
/// speed in words per minute, and the count of outstanding timer arms.
#[derive(Debug)]
pub struct App {
    text: Vec<String>,
    word_idx: usize,
    paused: bool,
    wpm: u64,
    armed: u64,
}

impl View for App {
    type V = ReaderView;

    closed spec fn view(&self) -> ReaderView {
        ReaderView {
            text: self.text@,
            cursor: self.word_idx as int,
            paused: self.paused,
            wpm: self.wpm as int,
            armed: self.armed as int,
        }
    }
}

impl App {
    /// The session's state is valid (see `ReaderView::wf`).
    pub open spec fn wf(&self) -> bool {
        self@.wf()
    }

    /// Starts a session on `text` at word `resume`, running at `init_wpm`.
    /// The timer is not armed yet: see `send_current_duration`.
    pub fn new(init_wpm: u64, text: Vec<String>, resume: usize) -> (r: Result<App, StartError>)
        ensures
            r is Ok <==> (text@.len() > 0 && words_nonempty(text@) && resume < text@.len()
                && init_wpm >= 1),
            r is Ok ==> r->Ok_0.wf() && r->Ok_0@ == (ReaderView {
                text: text@,
                cursor: resume as int,
                paused: false,
                wpm: init_wpm as int,
                armed: 0,
            }),
            r == Err::<App, StartError>(StartError::EmptyText) <==> text@.len() == 0,
            r == Err::<App, StartError>(StartError::EmptyWord) <==> (text@.len() > 0
                && !words_nonempty(text@)),
            r == Err::<App, StartError>(StartError::ResumeOutOfRange) <==> (text@.len() > 0
                && words_nonempty(text@) && resume >= text@.len()),
            r == Err::<App, StartError>(StartError::ZeroSpeed) <==> (text@.len() > 0
                && words_nonempty(text@) && resume < text@.len() && init_wpm == 0),
    {
        if text.len() == 0 {
            return Err(StartError::EmptyText);
        }
        let mut i: usize = 0;
        while i < text.len()
            invariant
                0 <= i <= text@.len(),
                forall|j: int| 0 <= j < i ==> #[trigger] text@[j]@.len() > 0,
            decreases text@.len() - i,
        {
            if text[i].as_str().is_empty() {
                return Err(StartError::EmptyWord);
            }
            i = i + 1;
        }
        if resume >= text.len() {
            return Err(StartError::ResumeOutOfRange);
        }
        if init_wpm == 0 {
            return Err(StartError::ZeroSpeed);
        }
        Ok(App { text, word_idx: resume, paused: false, wpm: init_wpm, armed: 0 })
    }

    /// Up to `n` words strictly before the cursor, fewer near the start.
    pub fn preceding_n_words(&self, n: usize) -> (r: Vec<String>)
        requires
            self.wf(),
        ensures
            r@ == self@.preceding(n as int),
    {
        let start: usize = if self.word_idx >= n {
            self.word_idx - n
        } else {
            0
        };
        let mut r: Vec<String> = Vec::new();
        let mut i: usize = start;
        while i < self.word_idx
            invariant
                self.wf(),
                start <= i <= self.word_idx,
                r@ == self@.text.subrange(start as int, i as int),
            decreases self.word_idx - i,
        {
            r.push(self.text[i].clone());
            i = i + 1;
        }
        r
    }

    /// Up to `n` words strictly after the cursor, fewer near the end and none
    /// at the last word.
    pub fn succeeding_n_words(&self, n: usize) -> (r: Vec<String>)
        requires
            self.wf(),
        ensures
            r@ == self@.succeeding(n as int),
    {
        let len = self.text.len();
        let end: usize = if n <= len - self.word_idx - 1 {
            self.word_idx + 1 + n
        } else {
            len
        };
        let mut r: Vec<String> = Vec::new();
        let mut i: usize = self.word_idx + 1;
        while i < end
            invariant
                self.wf(),
                len == self@.text.len(),
                self.word_idx + 1 <= i <= end <= len,
                r@ == self@.text.subrange(self.word_idx + 1, i as int),
            decreases end - i,
        {
            r.push(self.text[i].clone());
            i = i + 1;
        }
        r
    }

    /// The word under the cursor.
    pub fn current_word(&self) -> (r: String)
        requires
            self.wf(),
        ensures
            r == self@.word(),
    {
        self.text[self.word_idx].clone()
    }

    /// The word under the cursor, split for display.
    pub fn current_display(&self) -> (r: WordDisplay)
        requires
            self.wf(),
        ensures
            r.head@ == self@.word()@.subrange(0, orp_spec(self@.word()@.len() as int)),
            r.focus == self@.word()@[orp_spec(self@.word()@.len() as int)],
            r.tail@ == self@.word()@.subrange(
                orp_spec(self@.word()@.len() as int) + 1,
                self@.word()@.len() as int,
            ),
            r.padding == self@.word()@.len() - 2 * orp_spec(self@.word()@.len() as int),
    {
        split_word(self.text[self.word_idx].as_str())
    }

    /// Steps back one word, staying at the first.
    pub fn retreat_a_word(&mut self)
        requires
            old(self).wf(),
        ensures
            final(self).wf(),
            final(self)@ == old(self)@.retreated(),
    {
        if self.word_idx > 0 {
            self.word_idx = self.word_idx - 1;
        }
    }

    /// Steps forward one word, staying at the last.
    pub fn advance_a_word(&mut self)
        requires
            old(self).wf(),
        ensures
            final(self).wf(),
            final(self)@ == old(self)@.advanced(),
    {
        if self.word_idx + 1 < self.text.len() {
            self.word_idx = self.word_idx + 1;
        }
    }

    /// While running, arms the timer for the current word and returns the
    /// dwell to send to it; while paused, returns `None`.
    pub fn send_current_duration(&mut self, is_starting: bool) -> (r: Option<u64>)
        requires
            old(self).wf(),
        ensures
            final(self).wf(),
            (final(self)@, r) == old(self)@.arm(is_starting),
    {
        if self.paused {
            None
        } else {
            let ms = dwell(self.wpm, self.text[self.word_idx].as_str(), is_starting);
            if self.armed < u64::MAX {
                self.armed = self.armed + 1;
            }
            Some(ms)
        }
    }

    /// Milliseconds per word at the current speed, 60000 / wpm, rounded down.
    pub fn standard_tick_millis(&self) -> (r: u64)
        requires
            self.wf(),
        ensures
            r == 60000int / self@.wpm,
    {
        60000 / self.wpm
    }

    /// Pauses a running session, or resumes a paused one and returns the
    /// first-word dwell to arm the timer with.
    pub fn toggle(&mut self) -> (r: Option<u64>)
        requires
            old(self).wf(),
        ensures
            final(self).wf(),
            (final(self)@, r) == old(self)@.toggled(),
    {
        if self.paused {
            self.paused = false;
            self.send_current_duration(true)
        } else {
            self.paused = true;
            None
        }
    }

    /// Scales the speed by 0.9 or 1.1, rounding down, within `1..=u64::MAX`.
    /// The timer is not re-armed: it finishes the sleep it is in before it
    /// reads a new duration, so a fresh arm would only push the next word
    /// back. The tick that ends the current sleep arms at the new speed.
    pub fn speed_change(&mut self, v: SpeedChange)
        requires
            old(self).wf(),
        ensures
            final(self).wf(),
            final(self)@ == old(self)@.with_speed(v),
    {
        let w = self.wpm as u128;
        match v {
            SpeedChange::Faster => {
                let f: u128 = w * 11 / 10;
                self.wpm = if f > u64::MAX as u128 {
                    u64::MAX
                } else {
                    f as u64
                };
            },
            SpeedChange::Slower => {
                let s: u128 = w * 9 / 10;
                assert(w * 9 / 10 <= w) by (nonlinear_arith);
                self.wpm = if s < 1 {
                    1
                } else {
                    s as u64
                };
            },
        }
    }

    /// Whether the session is paused.
    pub fn paused(&self) -> (r: bool)
        ensures
            r == self@.paused,
    {
        self.paused
    }

    /// Index of the word under the cursor.
    pub fn word_idx(&self) -> (r: usize)
        ensures
            r == self@.cursor,
    {
        self.word_idx
    }

    /// Current speed in words per minute.
    pub fn wpm(&self) -> (r: u64)
        ensures
            r == self@.wpm,
    {
        self.wpm
    }

    /// A timer tick: the tick of the latest arm advances one word and returns
    /// the next dwell while running; a stale tick, or one while paused, only
    /// retires its arm.
    pub fn on_tick(&mut self) -> (r: Option<u64>)
        requires
            old(self).wf(),
        ensures
            final(self).wf(),
            (final(self)@, r) == old(self)@.ticked(),
    {
        if self.armed == 1 && !self.paused {
            self.armed = 0;
            self.advance_a_word();
            self.send_current_duration(false)
        } else {
            if self.armed > 0 {
                self.armed = self.armed - 1;
            }
            None
        }
    }

    /// Hands one event of the merged stream to the session and says what the
    /// control loop must do next.
    pub fn handle(&mut self, event: Event<Key>) -> (r: Action)
        requires
            old(self).wf(),
        ensures
            final(self).wf(),
            (final(self)@, r) == old(self)@.step(event),
    {
        match event {
            Event::Input(k) => match k {
                Key::Char(c) => if c == 'q' {
                    Action::Quit
                } else if c == ' ' {
                    match self.toggle() {
                        Some(ms) => Action::Arm(ms),
                        None => Action::Nothing,
                    }
                } else if c == '[' {
                    self.speed_change(SpeedChange::Slower);
                    Action::Nothing
                } else if c == ']' {
                    self.speed_change(SpeedChange::Faster);
                    Action::Nothing
                } else {
                    Action::Nothing
                },
                Key::Left => {
                    if self.paused {
                        self.retreat_a_word();
                    }
                    Action::Nothing
                },
                Key::Right => {
                    if self.paused {
                        self.advance_a_word();
                    }
                    Action::Nothing
                },
                Key::Other => Action::Nothing,
            },
            Event::Tick => match self.on_tick() {
                Some(ms) => Action::Arm(ms),
                None => Action::Nothing,
            },
        }
    }
}

/// Stepping is clamped: advancing from the last word stays on it, retreating
/// from the first word stays on it, and either step keeps the state valid.
pub proof fn lemma_cursor_clamped(v: ReaderView)
    requires
        v.wf(),
    ensures
        v.advanced().wf(),
        v.retreated().wf(),
        v.cursor == v.text.len() - 1 ==> v.advanced().cursor == v.text.len() - 1,
        v.cursor == 0 ==> v.retreated().cursor == 0,
{
}

/// Speed changes are monotonic: faster never lowers the speed and slower
/// never raises it. Faster then slower never ends above the start, and ends
/// below it by at most (wpm + 171) / 100, so by at most one up to 28 wpm;
/// this holds wherever faster does not saturate at the largest `u64`.
pub proof fn lemma_speed_change_round_trip(wpm: int)
    requires
        1 <= wpm <= u64::MAX,
    ensures
        changed_wpm(wpm, SpeedChange::Faster) >= wpm,
        changed_wpm(wpm, SpeedChange::Slower) <= wpm,
        wpm * 11 / 10 <= u64::MAX ==> ({
            let back = changed_wpm(changed_wpm(wpm, SpeedChange::Faster), SpeedChange::Slower);
            &&& back <= wpm
            &&& 100 * (wpm - back) <= wpm + 171
            &&& wpm <= 28 ==> wpm - back <= 1
        }),
{
    let f = wpm * 11 / 10;
    let s = f * 9 / 10;
    assert(10 * f <= 11 * wpm < 10 * f + 10);
    assert(10 * s <= 9 * f < 10 * s + 10);
}

/// Toggling the pause twice comes back to the same pause state, cursor, speed
/// and text: from running, to running again.
pub proof fn lemma_toggle_twice(v: ReaderView)
    requires
        v.wf(),
    ensures
        v.toggled().0.wf(),
        v.toggled().0.toggled().0.paused == v.paused,
        v.toggled().0.toggled().0.cursor == v.cursor,
        v.toggled().0.toggled().0.wpm == v.wpm,
        v.toggled().0.toggled().0.text == v.text,
{
}

/// The context words never reach past the ends of the text: none before the
/// first word, none after the last, and never more than asked for.
pub proof fn lemma_context_at_edges(v: ReaderView, n: int)
    requires
        v.wf(),
        n >= 0,
    ensures
        v.cursor == 0 ==> v.preceding(n).len() == 0,
        v.cursor == v.text.len() - 1 ==> v.succeeding(n).len() == 0,
        v.preceding(n).len() <= n,
        v.succeeding(n).len() <= n,
{
}

} // verus!
