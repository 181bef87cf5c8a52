//! The progress indicator: a cancellable animation drawn on one terminal line.
use vstd::prelude::*;

verus! {

/// Number of symbols in the animation.
pub const FRAME_COUNT: usize = 4;

/// The symbol shown at position `i` of the animation cycle.
pub open spec fn frame_symbol(i: nat) -> char {
    let k = i % 4;
    if k == 0 {
        '|'
    } else if k == 1 {
        '/'
    } else if k == 2 {
        '-'
    } else {
        '\\'
    }
}

/// The text written for one frame: back to the start of the line, then the status.
pub open spec fn frame_text(i: nat) -> Seq<char> {
    "\rGenerating a command "@ + seq![frame_symbol(i), ' ']
}

/// The text written once the indicator is cancelled: clear the line and
/// return the cursor to its start.
pub open spec fn clear_text() -> Seq<char> {
    "\x1b[2K\r"@
}

/// State of the progress indicator.
pub struct Spinner {
    /// Position in the animation cycle of the next frame.
    pub index: usize,
    /// Set once the indicator has been cancelled.
    pub cancelled: bool,
}

/// The text of an optional output, as characters.
pub open spec fn text_of(r: Option<String>) -> Option<Seq<char>> {
    match r {
        Some(t) => Some(t@),
        None => None,
    }
}

impl Spinner {
    pub open spec fn wf(&self) -> bool {
        self.index < FRAME_COUNT
    }

    /// One step of the animation: the text written, if any, and the next state.
    /// A cancelled indicator writes nothing and stays as it is.
    pub open spec fn step(self) -> (Option<Seq<char>>, Spinner) {
        if self.cancelled {
            (None, self)
        } else {
            (
                Some(frame_text(self.index as nat)),
                Spinner { index: ((self.index + 1) % 4) as usize, cancelled: false },
            )
        }
    }

    /// The state after `n` steps.
    pub open spec fn after(self, n: nat) -> Spinner
        decreases n,
    {
        if n == 0 {
            self
        } else {
            self.step().1.after((n - 1) as nat)
        }
    }

    /// Everything written over `n` steps, in order.
    pub open spec fn written(self, n: nat) -> Seq<Seq<char>>
        decreases n,
    {
        if n == 0 {
            seq![]
        } else {
            let (out, next) = self.step();
            let rest = next.written((n - 1) as nat);
            match out {
                Some(t) => seq![t] + rest,
                None => rest,
            }
        }
    }

    /// The state after cancellation.
    pub open spec fn cancelled_state(self) -> Spinner {
        Spinner { index: self.index, cancelled: true }
    }

    /// A fresh indicator, not yet cancelled, at the first symbol.
    pub fn new() -> (r: Spinner)
        ensures
            r.wf(),
            r.index == 0,
            !r.cancelled,
    {
        Spinner { index: 0, cancelled: false }
    }

    /// Advances the animation by one step. Returns the text of the frame to
    /// write, or `None` once the indicator has been cancelled; a cancelled
    /// indicator does not change.
    pub fn tick(&mut self) -> (r: Option<String>)
        requires
            old(self).wf(),
        ensures
            final(self).wf(),
            (text_of(r), *final(self)) == old(self).step(),
    {
        if self.cancelled {
            return None;
        }
        let frame = if self.index == 0 {
            String::from_str("\rGenerating a command | ")
        } else if self.index == 1 {
            String::from_str("\rGenerating a command / ")
        } else if self.index == 2 {
            String::from_str("\rGenerating a command - ")
        } else {
            String::from_str("\rGenerating a command \\ ")
        };
        proof {
            reveal_strlit("\rGenerating a command ");
            reveal_strlit("\rGenerating a command | ");
            reveal_strlit("\rGenerating a command / ");
            reveal_strlit("\rGenerating a command - ");
            reveal_strlit("\rGenerating a command \\ ");
        }
        assert(frame@ =~= frame_text(self.index as nat));
        self.index = (self.index + 1) % FRAME_COUNT;
        Some(frame)
    }

    /// Cancels the indicator. Returns the text that clears the line.
    pub fn cancel(&mut self) -> (r: String)
        requires
            old(self).wf(),
        ensures
            final(self).wf(),
            *final(self) == old(self).cancelled_state(),
            r@ == clear_text(),
    {
        self.cancelled = true;
        String::from_str("\x1b[2K\r")
    }
}

/// A cancelled indicator writes no frame, however many steps follow.
pub proof fn lemma_cancelled_stays_silent(s: Spinner, n: nat)
    requires
        s.cancelled,
    ensures
        s.written(n) == Seq::<Seq<char>>::empty(),
        s.after(n) == s,
    decreases n,
{
    if n > 0 {
        lemma_cancelled_stays_silent(s, (n - 1) as nat);
    }
}

/// Whatever the state of the indicator and however many steps follow its
/// cancellation, the last text it writes is the one that clears the line.
pub proof fn lemma_clear_is_last_write(s: Spinner, n: nat)
    ensures
        (seq![clear_text()] + s.cancelled_state().written(n)).last() == clear_text(),
{
    lemma_cancelled_stays_silent(s.cancelled_state(), n);
    assert(seq![clear_text()] + s.cancelled_state().written(n) =~= seq![clear_text()]);
}

} // verus!
