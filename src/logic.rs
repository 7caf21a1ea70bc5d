use vstd::prelude::*;

use crate::coord::{Coord, Letter};
use crate::error::P4Error;
use crate::input::Input;
use crate::plate::Plate;
use crate::player::PlayerID;
use rand::Rng;

verus! {

/// A participant that chooses the pillar of the next drop.
pub trait Thinker {
    fn think(&self, plt: &Plate) -> (r: Result<Input, P4Error>)
        requires
            plt.wf(),
            plt.has_room(),
        ensures
            r matches Ok(i) ==> i.is_cell() && !plt.pillar(i.cell_index()).full(),
    ;
}

/// Relies on rand's `thread_rng` and `Rng::gen_range`: a number drawn in `0..n`,
/// a range that is not empty.
#[verifier::external_body]
fn draw_below(n: u8) -> (r: u8)
    requires
        0 < n,
    ensures
        r < n,
{
    rand::thread_rng().gen_range(0..n)
}

/// The agent that plays a pillar drawn at random among those that can take a mark.
#[derive(Clone, Copy, Debug)]
pub struct RBot;

impl RBot {
    /// The pillar drawn, when it can take a mark.
    pub fn pick(plt: &Plate, drawn: u8) -> (r: Option<Input>)
        requires
            drawn < 16,
        ensures
            r is Some <==> !plt.pillar(drawn as int).full(),
            r matches Some(i) ==> i.is_cell() && i.cell_index() == drawn,
    {
        let input = Input::from_index(drawn);
        if plt.playable(input) {
            Some(input)
        } else {
            None
        }
    }
}

impl Thinker for RBot {
    /// Draws pillars until one can take a mark. After `u64::MAX` fruitless draws,
    /// which no game reaches, it takes the first pillar that can.
    fn think(&self, plt: &Plate) -> (r: Result<Input, P4Error>)
        ensures
            r is Ok,
    {
        let mut tries: u64 = 0;
        while tries < u64::MAX
            decreases u64::MAX - tries,
        {
            let drawn = draw_below(16);
            if let Some(input) = RBot::pick(plt, drawn) {
                return Ok(input);
            }
            tries += 1;
        }
        let mut i: u8 = 0;
        while i < 16
            invariant
                i <= 16,
                forall|j: int| 0 <= j < i ==> (#[trigger] plt.pillar(j)).full(),
            decreases 16 - i,
        {
            if let Some(input) = RBot::pick(plt, i) {
                return Ok(input);
            }
            i += 1;
        }
        let input = Input::from_index(0);
        assert(!plt.pillar(input.cell_index()).full());
        Ok(input)
    }
}

/// Where only pillar `k` can take a mark, a choice that the random agent may
/// return is pillar `k`.
pub proof fn lemma_single_open_pillar(plt: Plate, k: int, choice: Input)
    requires
        0 <= k < 16,
        !plt.pillar(k).full(),
        forall|j: int| 0 <= j < 16 && j != k ==> (#[trigger] plt.pillar(j)).full(),
        choice.is_cell(),
        !plt.pillar(choice.cell_index()).full(),
    ensures
        choice.cell_index() == k,
{
}

/// The human agent, who types the coordinate of the drop.
#[derive(Clone, Copy, Debug)]
pub struct Human {
    pub player_id: PlayerID,
}

impl Human {
    pub fn new(player_id: PlayerID) -> (r: Human)
        ensures
            r.player_id == player_id,
    {
        Human { player_id }
    }
}

/// A key pressed while a coordinate is typed in.
#[derive(Clone, Copy, Debug, PartialEq, Eq, Structural)]
pub enum Key {
    Letter(Letter),
    Digit(u8),
    Confirm,
    Cancel,
    SwitchView,
    Other,
}

/// A message telling why a confirmation was refused.
#[derive(Clone, Copy, Debug, PartialEq, Eq, Structural)]
pub enum Notice {
    /// The letter or the digit is missing.
    IncompleteInput,
    /// The pillar named cannot take another mark.
    FullPillar,
}

/// What the screen is asked to do after a key.
#[derive(Clone, Copy, Debug, PartialEq, Eq, Structural)]
pub enum Signal {
    /// Toggle the drawing mode and redraw the grid.
    SwitchView,
    /// Show the coordinate typed so far.
    ShowInput(Input),
    /// Wipe the preview of that coordinate.
    RemovePreview(Input),
    /// Preview the drop at that coordinate.
    AddPreview(Input),
    ShowNotice(Notice),
    /// Wipe the notice shown.
    ClearNotice(Notice),
}

/// Whether the typing goes on, ends with a coordinate, or the session is cancelled.
#[derive(Clone, Copy, Debug, PartialEq, Eq, Structural)]
pub enum Outcome {
    Continue,
    Chosen(Input),
    Quit,
}

/// The answer to one key: the screen's work, in order, and what comes next.
pub struct Reaction {
    pub signals: Vec<Signal>,
    pub outcome: Outcome,
}

/// The state of a coordinate being typed: the input so far, the coordinate
/// previewed last, and the notice on screen.
#[derive(Clone, Copy, Debug)]
pub struct Placement {
    pending: Input,
    previewed: Input,
    notice: Option<Notice>,
}

/// The drop at `p` can be previewed: it names a pillar that can take a mark.
pub open spec fn shows_preview(plt: Plate, p: Input) -> bool {
    p.is_cell() && !plt.pillar(p.cell_index()).full()
}

impl Placement {
    pub closed spec fn pending_spec(&self) -> Input {
        self.pending
    }

    pub closed spec fn previewed_spec(&self) -> Input {
        self.previewed
    }

    pub closed spec fn notice_spec(&self) -> Option<Notice> {
        self.notice
    }

    pub open spec fn wf(&self) -> bool {
        self.pending_spec().wf() && self.previewed_spec().wf()
    }

    /// The signals that follow the display of input `p`: when `p` can be
    /// previewed, the old preview is wiped if it differs, `p` is previewed,
    /// and a notice on screen is wiped.
    pub open spec fn follow_up(&self, plt: Plate, p: Input) -> Seq<Signal> {
        if shows_preview(plt, p) {
            (if self.previewed_spec().complete() && self.previewed_spec() != p {
                seq![Signal::RemovePreview(self.previewed_spec())]
            } else {
                Seq::<Signal>::empty()
            }) + seq![Signal::AddPreview(p)] + match self.notice_spec() {
                Some(n) => seq![Signal::ClearNotice(n)],
                None => Seq::<Signal>::empty(),
            }
        } else {
            Seq::<Signal>::empty()
        }
    }

    /// A fresh session: nothing typed, nothing previewed, no notice.
    pub fn new() -> (r: Placement)
        ensures
            r.wf(),
            r.pending_spec().letter_spec() is None,
            r.pending_spec().number_spec() is None,
            r.previewed_spec().letter_spec() is None,
            r.previewed_spec().number_spec() is None,
            r.notice_spec() is None,
    {
        Placement { pending: Input::default(), previewed: Input::default(), notice: None }
    }

    pub fn pending(&self) -> (r: Input)
        ensures
            r == self.pending_spec(),
    {
        self.pending
    }

    /// Shows the input and, where it can be previewed, moves the preview to it.
    fn refresh(&mut self, plt: &Plate, signals: &mut Vec<Signal>)
        requires
            old(self).wf(),
            plt.wf(),
        ensures
            final(self).wf(),
            final(self).pending_spec() == old(self).pending_spec(),
            final(signals)@ == old(signals)@ + seq![Signal::ShowInput(old(self).pending_spec())]
                + old(self).follow_up(*plt, old(self).pending_spec()),
            final(self).previewed_spec() == if shows_preview(*plt, old(self).pending_spec()) {
                old(self).pending_spec()
            } else {
                old(self).previewed_spec()
            },
            final(self).notice_spec() == if shows_preview(*plt, old(self).pending_spec()) {
                None
            } else {
                old(self).notice_spec()
            },
    {
        let ghost start = signals@;
        signals.push(Signal::ShowInput(self.pending));
        if !(self.pending.is_valid() && plt.playable(self.pending)) {
            assert(signals@ =~= start + seq![Signal::ShowInput(self.pending)] + Seq::<Signal>::empty());
            return;
        }
        if self.previewed.is_valid() && self.previewed != self.pending {
            signals.push(Signal::RemovePreview(self.previewed));
        }
        signals.push(Signal::AddPreview(self.pending));
        self.previewed = self.pending;
        match self.notice {
            Some(n) => {
                signals.push(Signal::ClearNotice(n));
            },
            None => {},
        }
        self.notice = None;
        assert(signals@ =~= start + seq![Signal::ShowInput(old(self).pending_spec())]
            + old(self).follow_up(*plt, old(self).pending_spec()));
    }

    /// Takes one key: edits the input, confirms it or gives up, and says what the
    /// screen must show.
    pub fn handle_key(&mut self, plt: &Plate, key: Key) -> (r: Reaction)
        requires
            old(self).wf(),
            plt.wf(),
            key matches Key::Digit(d) ==> d < 4,
        ensures
            final(self).wf(),
            match key {
                Key::Letter(l) => final(self).pending_spec().letter_spec() == Some(l)
                    && final(self).pending_spec().number_spec() == old(
                    self,
                ).pending_spec().number_spec(),
                Key::Digit(d) => final(self).pending_spec().number_spec() == Some(d)
                    && final(self).pending_spec().letter_spec() == old(
                    self,
                ).pending_spec().letter_spec(),
                _ => final(self).pending_spec() == old(self).pending_spec(),
            },
            (key is Letter || key is Digit || key is SwitchView) ==> {
                &&& r.outcome == Outcome::Continue
                &&& r.signals@ == (if key is SwitchView {
                    seq![Signal::SwitchView]
                } else {
                    Seq::<Signal>::empty()
                }) + seq![Signal::ShowInput(final(self).pending_spec())] + old(self).follow_up(
                    *plt,
                    final(self).pending_spec(),
                )
                &&& final(self).previewed_spec() == if shows_preview(
                    *plt,
                    final(self).pending_spec(),
                ) {
                    final(self).pending_spec()
                } else {
                    old(self).previewed_spec()
                }
                &&& final(self).notice_spec() == if shows_preview(*plt, final(self).pending_spec()) {
                    None
                } else {
                    old(self).notice_spec()
                }
            },
            (key is Other || key is Cancel) ==> {
                &&& r.outcome == if key is Cancel {
                    Outcome::Quit
                } else {
                    Outcome::Continue
                }
                &&& r.signals@ == Seq::<Signal>::empty()
                &&& *final(self) == *old(self)
            },
            key is Confirm ==> {
                &&& final(self).previewed_spec() == old(self).previewed_spec()
                &&& !old(self).pending_spec().complete() ==> r.outcome == Outcome::Continue
                    && r.signals@ == seq![Signal::ShowNotice(Notice::IncompleteInput)]
                    && final(self).notice_spec() == Some(Notice::IncompleteInput)
                &&& old(self).pending_spec().complete() && !shows_preview(
                    *plt,
                    old(self).pending_spec(),
                ) ==> r.outcome == Outcome::Continue && r.signals@ == seq![
                    Signal::ShowNotice(Notice::FullPillar),
                ] && final(self).notice_spec() == Some(Notice::FullPillar)
                &&& shows_preview(*plt, old(self).pending_spec()) ==> r.outcome == Outcome::Chosen(
                    old(self).pending_spec(),
                ) && r.signals@ == Seq::<Signal>::empty() && final(self).notice_spec() == old(
                    self,
                ).notice_spec()
            },
    {
        let mut signals: Vec<Signal> = Vec::new();
        match key {
            Key::Letter(l) => {
                self.pending.set_letter(l);
            },
            Key::Digit(d) => {
                self.pending.set_number(d as usize);
            },
            Key::SwitchView => {
                signals.push(Signal::SwitchView);
            },
            Key::Confirm => {
                if !self.pending.is_valid() {
                    signals.push(Signal::ShowNotice(Notice::IncompleteInput));
                    self.notice = Some(Notice::IncompleteInput);
                    return Reaction { signals, outcome: Outcome::Continue };
                }
                if !plt.playable(self.pending) {
                    signals.push(Signal::ShowNotice(Notice::FullPillar));
                    self.notice = Some(Notice::FullPillar);
                    return Reaction { signals, outcome: Outcome::Continue };
                }
                return Reaction { signals, outcome: Outcome::Chosen(self.pending) };
            },
            Key::Cancel => {
                return Reaction { signals, outcome: Outcome::Quit };
            },
            Key::Other => {
                return Reaction { signals, outcome: Outcome::Continue };
            },
        }
        self.refresh(plt, &mut signals);
        Reaction { signals, outcome: Outcome::Continue }
    }
}

} // verus!
