//! The arm/disarm authentication state machine. While disarmed the entry
//! buffer enrolls a new code; while armed it is verified against the stored
//! code. Every transition is a pure function of the previous state and the
//! scanned symbol, stated by [`step`].

use vstd::prelude::*;

use crate::buffer::appended;
use crate::buffer::code_validity;
use crate::buffer::CodeBuffer;
use crate::buffer::CodeValidity;
use crate::symbol::Symbol;

verus! {

/// Whether the zone is protected. The panel starts disarmed; the only way
/// between the two modes is a submitted code.
#[derive(Clone, Copy, Debug, PartialEq, Eq, Structural)]
pub enum AlarmMode {
    Disarmed,
    Armed,
}

/// Operator feedback, replaced wholesale on each transition and never
/// accumulated. `Blank` is the startup value, before any key was handled.
#[derive(Clone, Copy, Debug, PartialEq, Eq, Structural)]
pub enum StatusMessage {
    Blank,
    NowArmed,
    NowDisarmed,
    CodeIncorrect,
    EnterNewCode,
    KeepEntering,
    SufficientLength,
}

impl StatusMessage {
    /// The display text of this message.
    pub open spec fn text_spec(self) -> Seq<char> {
        match self {
            StatusMessage::Blank => ""@,
            StatusMessage::NowArmed => "armed"@,
            StatusMessage::NowDisarmed => "disarmed"@,
            StatusMessage::CodeIncorrect => "code incorrect"@,
            StatusMessage::EnterNewCode => "enter new code, then confirm with #"@,
            StatusMessage::KeepEntering => "keep entering code, press * to fix"@,
            StatusMessage::SufficientLength => "code has sufficient length, press * to fix"@,
        }
    }

    /// The display text of this message.
    pub fn text(&self) -> (r: &'static str)
        ensures
            r@ == self.text_spec(),
    {
        match self {
            StatusMessage::Blank => "",
            StatusMessage::NowArmed => "armed",
            StatusMessage::NowDisarmed => "disarmed",
            StatusMessage::CodeIncorrect => "code incorrect",
            StatusMessage::EnterNewCode => "enter new code, then confirm with #",
            StatusMessage::KeepEntering => "keep entering code, press * to fix",
            StatusMessage::SufficientLength => "code has sufficient length, press * to fix",
        }
    }
}

/// The whole observable state of the panel: the mode, the stored code, the
/// in-progress entry and the current feedback message.
#[verifier::ext_equal]
pub ghost struct PanelState {
    pub mode: AlarmMode,
    pub stored: Seq<Symbol>,
    pub entry: Seq<Symbol>,
    pub message: StatusMessage,
}

/// The state at power-up: disarmed, both buffers empty, no message.
pub open spec fn initial_state() -> PanelState {
    PanelState {
        mode: AlarmMode::Disarmed,
        stored: Seq::empty(),
        entry: Seq::empty(),
        message: StatusMessage::Blank,
    }
}

/// The feedback while a code symbol is appended, decided on the pre-append
/// entry length. The armed (verification) path keeps the shorter wording for
/// both length classes on purpose.
pub open spec fn entry_progress_message(mode: AlarmMode, pre_len: nat) -> StatusMessage {
    if pre_len < 4 {
        StatusMessage::KeepEntering
    } else if mode == AlarmMode::Disarmed {
        StatusMessage::SufficientLength
    } else {
        StatusMessage::KeepEntering
    }
}

/// What a submitted proper-length entry does. Disarmed: the entry becomes
/// the stored code and the panel arms. Armed: a matching entry disarms and
/// clears both buffers; a mismatch clears only the entry.
pub open spec fn submit(s: PanelState) -> PanelState {
    if s.mode == AlarmMode::Disarmed {
        PanelState {
            mode: AlarmMode::Armed,
            stored: s.entry,
            entry: Seq::empty(),
            message: StatusMessage::NowArmed,
        }
    } else if s.entry == s.stored {
        PanelState {
            mode: AlarmMode::Disarmed,
            stored: Seq::empty(),
            entry: Seq::empty(),
            message: StatusMessage::NowDisarmed,
        }
    } else {
        PanelState {
            mode: s.mode,
            stored: s.stored,
            entry: Seq::empty(),
            message: StatusMessage::CodeIncorrect,
        }
    }
}

/// One transition of the panel on one scanned symbol.
///
/// `#` submits when the entry length is proper and is silently ignored
/// otherwise; `*` clears the entry; a code symbol is appended (dropped at
/// capacity); the no-key symbol changes nothing.
pub open spec fn step(s: PanelState, sym: Symbol) -> PanelState {
    if sym == Symbol::Hash {
        if code_validity(s.entry.len()) == CodeValidity::Proper {
            submit(s)
        } else {
            s
        }
    } else if sym == Symbol::Star {
        PanelState {
            mode: s.mode,
            stored: s.stored,
            entry: Seq::empty(),
            message: StatusMessage::EnterNewCode,
        }
    } else if sym == Symbol::NoKey {
        s
    } else {
        PanelState {
            mode: s.mode,
            stored: s.stored,
            entry: appended(s.entry, sym),
            message: entry_progress_message(s.mode, s.entry.len()),
        }
    }
}

/// The panel's authentication core: owns the stored code and the entry
/// buffer and realises [`step`] one symbol at a time.
pub struct AlarmStateMachine {
    mode: AlarmMode,
    stored_code: CodeBuffer,
    entry: CodeBuffer,
    message: StatusMessage,
}

impl View for AlarmStateMachine {
    type V = PanelState;

    closed spec fn view(&self) -> PanelState {
        PanelState {
            mode: self.mode,
            stored: self.stored_code@,
            entry: self.entry@,
            message: self.message,
        }
    }
}

impl AlarmStateMachine {
    /// Both buffers stay within capacity.
    pub open spec fn wf(&self) -> bool {
        self@.stored.len() <= 8 && self@.entry.len() <= 8
    }

    /// A panel in its power-up state.
    pub fn new() -> (r: AlarmStateMachine)
        ensures
            r@ == initial_state(),
            r.wf(),
    {
        let r = AlarmStateMachine {
            mode: AlarmMode::Disarmed,
            stored_code: CodeBuffer::new(),
            entry: CodeBuffer::new(),
            message: StatusMessage::Blank,
        };
        proof {
            assert(r@ =~= initial_state());
        }
        r
    }

    /// Handles one scanned symbol: exactly the transition [`step`] describes.
    pub fn handle_key(&mut self, sym: Symbol)
        requires
            old(self).wf(),
        ensures
            final(self).wf(),
            final(self)@ == step(old(self)@, sym),
    {
        match sym {
            Symbol::Hash => {
                let v = self.entry.validity();
                if v == CodeValidity::Proper {
                    match self.mode {
                        AlarmMode::Disarmed => {
                            self.stored_code.copy_from(&self.entry);
                            self.entry.reset();
                            self.mode = AlarmMode::Armed;
                            self.message = StatusMessage::NowArmed;
                        },
                        AlarmMode::Armed => {
                            if self.entry.equals(&self.stored_code) {
                                self.entry.reset();
                                self.stored_code.reset();
                                self.mode = AlarmMode::Disarmed;
                                self.message = StatusMessage::NowDisarmed;
                            } else {
                                self.entry.reset();
                                self.message = StatusMessage::CodeIncorrect;
                            }
                        },
                    }
                }
            },
            Symbol::Star => {
                self.entry.reset();
                self.message = StatusMessage::EnterNewCode;
            },
            Symbol::NoKey => {},
            _ => {
                let pre_short = self.entry.len() < 4;
                self.entry.append(sym);
                self.message = if pre_short {
                    StatusMessage::KeepEntering
                } else {
                    match self.mode {
                        AlarmMode::Disarmed => StatusMessage::SufficientLength,
                        AlarmMode::Armed => StatusMessage::KeepEntering,
                    }
                };
            },
        }
        proof {
            assert(self@ =~= step(old(self)@, sym));
        }
    }

    /// The current mode.
    pub fn mode(&self) -> (m: AlarmMode)
        ensures
            m == self@.mode,
    {
        self.mode
    }

    /// The current feedback message.
    pub fn message(&self) -> (m: StatusMessage)
        ensures
            m == self@.message,
    {
        self.message
    }

    /// The in-progress entry buffer, for display.
    pub fn entry_buffer(&self) -> (b: &CodeBuffer)
        ensures
            b@ == self@.entry,
    {
        &self.entry
    }

    /// The enrolled code, empty until the first successful enrollment.
    pub fn stored_code_buffer(&self) -> (b: &CodeBuffer)
        ensures
            b@ == self@.stored,
    {
        &self.stored_code
    }
}

/// The state after feeding a whole sequence of symbols, one transition per
/// symbol, earliest first.
pub open spec fn run(s: PanelState, syms: Seq<Symbol>) -> PanelState
    decreases syms.len(),
{
    if syms.len() == 0 {
        s
    } else {
        step(run(s, syms.drop_last()), syms.last())
    }
}

/// Feeding only code symbols to a disarmed panel never changes the mode or
/// the stored code, and the entry accumulates the symbols in order until
/// capacity, past which appends are dropped: the entry ends as the first
/// `min(old entry length + count, 8)` symbols of the old entry followed by
/// the fed sequence.
pub proof fn lemma_code_entry_accumulates(s: PanelState, syms: Seq<Symbol>)
    requires
        s.mode == AlarmMode::Disarmed,
        s.entry.len() <= 8,
        forall|i: int| 0 <= i < syms.len() ==> (#[trigger] syms[i]).is_code(),
    ensures
        run(s, syms).mode == AlarmMode::Disarmed,
        run(s, syms).stored == s.stored,
        run(s, syms).entry.len() == vstd::math::min((s.entry.len() + syms.len()) as int, 8),
        run(s, syms).entry == (s.entry + syms).take(
            vstd::math::min((s.entry.len() + syms.len()) as int, 8),
        ),
    decreases syms.len(),
{
    if syms.len() == 0 {
        assert((s.entry + syms).take(vstd::math::min((s.entry.len() + syms.len()) as int, 8))
            =~= s.entry);
    } else {
        let head = syms.drop_last();
        let last = syms.last();
        lemma_code_entry_accumulates(s, head);
        let pre = run(s, head);
        let m0 = vstd::math::min((s.entry.len() + head.len()) as int, 8);
        let m1 = vstd::math::min((s.entry.len() + syms.len()) as int, 8);
        assert(pre.entry.len() == m0);
        assert(last.is_code());
        if pre.entry.len() < 8 {
            assert(m1 == m0 + 1);
            assert(run(s, syms).entry == pre.entry.push(last));
            assert((s.entry + syms).take(m1) =~= (s.entry + head).take(m0).push(last));
        } else {
            assert(run(s, syms).entry == pre.entry);
            assert((s.entry + syms).take(m1) =~= (s.entry + head).take(m0));
        }
    }
}

/// The only way between the two modes is a submitted entry of proper
/// length: any transition that changes the mode was a `#` with the entry
/// holding four to eight symbols.
pub proof fn lemma_mode_changes_only_on_submit(s: PanelState, sym: Symbol)
    requires
        step(s, sym).mode != s.mode,
    ensures
        sym == Symbol::Hash,
        4 <= s.entry.len() <= 8,
{
}

/// A transition never grows a buffer past capacity: the length invariant
/// of both code buffers is preserved by every step.
pub proof fn lemma_step_preserves_capacity(s: PanelState, sym: Symbol)
    requires
        s.stored.len() <= 8,
        s.entry.len() <= 8,
    ensures
        step(s, sym).stored.len() <= 8,
        step(s, sym).entry.len() <= 8,
{
}

/// Pressing `*` clears the entry and changes neither the mode nor the
/// stored code.
pub proof fn lemma_star_clears_entry(s: PanelState)
    requires
        s.entry.len() > 0,
    ensures
        step(s, Symbol::Star).entry == Seq::<Symbol>::empty(),
        step(s, Symbol::Star).mode == s.mode,
        step(s, Symbol::Star).stored == s.stored,
{
}

/// Submitting `#` while the entry is still too short changes nothing at
/// all: mode, buffers and message stay as they were.
pub proof fn lemma_short_submit_is_noop(s: PanelState)
    requires
        s.entry.len() < 4,
    ensures
        step(s, Symbol::Hash) == s,
{
}

} // verus!
