//! The wheel: who takes part, who has won, and the spin that picks the next
//! winner.
//!
//! The wheel's speed and position are fractional numbers and are kept by
//! whoever drives the wheel. Each frame the driver says, as a [`Motion`],
//! what they amount to; the wheel decides what the frame does and answers
//! with a [`SpinStep`].

use crate::list::{Cursor, StatefulList};
use crate::participant::Participant;
use crate::tabs::StatefulTabs;
use vstd::prelude::*;

verus! {

/// What the wheel's speed and position amount to in one frame.
#[derive(Clone, Copy, Debug, PartialEq, Eq, Structural)]
pub enum Motion {
    /// The speed is above the threshold under which the wheel stops, and the
    /// position, once the speed is added to it, holds this many whole places.
    Moving(usize),
    /// The speed is at or under the threshold.
    Resting,
}

/// What one frame did to the wheel.
#[derive(Clone, Copy, Debug, PartialEq, Eq, Structural)]
pub enum SpinStep {
    /// No spin is under way: nothing changed.
    Idle,
    /// The selection moved on by the whole places of the motion; the driver
    /// keeps the fraction left over and lets the speed decay.
    Moved,
    /// The spin ended on the selected participant, now the winner.
    Landed,
    /// The wheel is at rest with nobody selected: nothing changed, and the
    /// spin is still under way.
    Stalled,
}

/// The mathematical content of an [`App`].
pub ghost struct Wheel {
    pub running: bool,
    pub tabs: StatefulTabs,
    pub participants: Cursor<Participant>,
    pub winners: Seq<Participant>,
    pub is_spinning: bool,
    pub spin_winner: Option<Participant>,
}

impl Wheel {
    /// The selection names a participant, where there is one.
    pub open spec fn wf(self) -> bool {
        self.participants.wf()
    }

    /// The wheel after a request to quit.
    pub open spec fn quit(self) -> Wheel {
        Wheel { running: false, ..self }
    }

    /// The wheel after a request to spin: with nobody taking part it stays as
    /// it is; otherwise a spin is under way and the last winner is forgotten.
    pub open spec fn start(self) -> Wheel {
        if self.participants.items.len() == 0 {
            self
        } else {
            Wheel { is_spinning: true, spin_winner: None, ..self }
        }
    }

    /// The wheel with no spin under way.
    pub open spec fn stop(self) -> Wheel {
        Wheel { is_spinning: false, ..self }
    }

    /// The wheel with no spin under way and the last winner forgotten.
    pub open spec fn reset(self) -> Wheel {
        Wheel { spin_winner: None, ..self.stop() }
    }

    /// The wheel with the selection moved on by `whole` places.
    pub open spec fn turn(self, whole: int) -> Wheel {
        Wheel { participants: self.participants.advance(whole), ..self }
    }

    /// The winner that a spin ending now declares: the selected participant,
    /// marked as a winner.
    pub open spec fn landing(self) -> Option<Participant>
        recommends
            self.wf(),
    {
        match self.participants.selected_item() {
            Some(chosen) => Some(chosen.crowned()),
            None => None,
        }
    }

    /// The wheel after a spin has ended on the selected participant: the
    /// winner is shown and stands last in the history, and no spin is under
    /// way. The list of participants keeps its entry as it was.
    pub open spec fn land(self) -> Wheel
        recommends
            self.wf(),
            self.participants.selected is Some,
    {
        Wheel {
            spin_winner: self.landing(),
            winners: self.winners.push(self.landing().unwrap()),
            is_spinning: false,
            ..self
        }
    }

    /// What a frame with this motion does.
    pub open spec fn step_for(self, motion: Motion) -> SpinStep {
        if !self.is_spinning {
            SpinStep::Idle
        } else {
            match motion {
                Motion::Moving(_) => SpinStep::Moved,
                Motion::Resting => if self.participants.selected is Some {
                    SpinStep::Landed
                } else {
                    SpinStep::Stalled
                },
            }
        }
    }

    /// The wheel after a frame with this motion.
    pub open spec fn tick(self, motion: Motion) -> Wheel
        recommends
            self.wf(),
    {
        match self.step_for(motion) {
            SpinStep::Idle => self,
            SpinStep::Moved => self.turn(motion->Moving_0 as int),
            SpinStep::Landed => self.land(),
            SpinStep::Stalled => self,
        }
    }
}

/// A request to spin with nobody taking part changes nothing: no spin gets
/// under way. With somebody taking part a spin is under way and no winner is
/// shown; who takes part, who is selected and the history stay as they were.
pub proof fn lemma_start(w: Wheel)
    ensures
        w.participants.items.len() == 0 ==> w.start() == w,
        w.participants.items.len() > 0 ==> w.start().is_spinning && w.start().spin_winner is None,
        w.start().participants == w.participants,
        w.start().winners == w.winners,
        w.wf() ==> w.start().wf(),
{
}

/// A frame leaves a well-formed wheel well-formed, never changes who takes
/// part, and changes nothing at all when no spin is under way or when the
/// wheel rests with nobody selected.
pub proof fn lemma_tick_keeps(w: Wheel, motion: Motion)
    requires
        w.wf(),
    ensures
        w.tick(motion).wf(),
        w.tick(motion).participants.items == w.participants.items,
        w.tick(motion).running == w.running,
        w.tick(motion).tabs == w.tabs,
        !w.is_spinning ==> w.tick(motion) == w,
        w.step_for(motion) == SpinStep::Stalled ==> w.tick(motion) == w,
{
}

/// A frame in which the wheel moves keeps the spin under way and the
/// history as it was, and afterwards somebody is selected if anybody takes
/// part.
pub proof fn lemma_moving_selects(w: Wheel, whole: usize)
    requires
        w.is_spinning,
    ensures
        w.step_for(Motion::Moving(whole)) == SpinStep::Moved,
        w.tick(Motion::Moving(whole)).is_spinning,
        w.tick(Motion::Moving(whole)).winners == w.winners,
        w.tick(Motion::Moving(whole)).spin_winner == w.spin_winner,
        w.tick(Motion::Moving(whole)).participants == w.participants.advance(whole as int),
        w.participants.items.len() > 0 ==> w.tick(Motion::Moving(whole)).participants.selected
            is Some,
{
}

/// Once the wheel rests during a spin with somebody selected, the frame ends
/// the spin on a winner.
pub proof fn lemma_rest_ends_spin(w: Wheel)
    requires
        w.is_spinning,
        w.participants.selected is Some,
    ensures
        w.step_for(Motion::Resting) == SpinStep::Landed,
        !w.tick(Motion::Resting).is_spinning,
        w.tick(Motion::Resting).spin_winner is Some,
{
}

/// A frame that ends a spin makes the history longer by exactly one entry:
/// the selected participant, marked as a winner, who is also the winner
/// shown. The entries before it, and the list of participants, stay as they
/// were.
pub proof fn lemma_landing_records_winner(w: Wheel, motion: Motion)
    requires
        w.wf(),
        w.step_for(motion) == SpinStep::Landed,
    ensures
        w.tick(motion).winners.len() == w.winners.len() + 1,
        w.tick(motion).winners.last().is_winner,
        w.tick(motion).winners.last().name == w.participants.selected_item().unwrap().name,
        w.tick(motion).winners.drop_last() == w.winners,
        w.tick(motion).spin_winner == Some(w.tick(motion).winners.last()),
        w.tick(motion).participants == w.participants,
        !w.tick(motion).is_spinning,
{
    assert(w.tick(motion).winners.drop_last() =~= w.winners);
}

/// No frame takes an entry out of the history or changes one: what was there
/// is still there, in the same places.
pub proof fn lemma_history_only_grows(w: Wheel, motion: Motion)
    ensures
        w.winners.is_prefix_of(w.tick(motion).winners),
        w.tick(motion).winners.len() == w.winners.len() + (if w.step_for(motion)
            == SpinStep::Landed {
            1int
        } else {
            0int
        }),
{
}

/// A spin started with somebody taking part, which has moved for a frame and
/// then rests, ends on a winner in the next frame.
pub proof fn lemma_started_spin_lands(w: Wheel, whole: usize)
    requires
        w.wf(),
        w.participants.items.len() > 0,
    ensures
        ({
            let moved = w.start().tick(Motion::Moving(whole));
            let ended = moved.tick(Motion::Resting);
            &&& moved.step_for(Motion::Resting) == SpinStep::Landed
            &&& !ended.is_spinning
            &&& ended.winners.len() == w.winners.len() + 1
            &&& ended.winners.last().is_winner
            &&& ended.spin_winner == Some(ended.winners.last())
        }),
{
}

/// Application.
#[derive(Debug)]
pub struct App {
    /// Is the application running?
    pub running: bool,
    pub tabs: StatefulTabs,
    pub all_participants: StatefulList<Participant>,
    pub all_winners: Vec<Participant>,
    pub is_spinning: bool,
    pub spin_winner: Option<Participant>,
}

impl View for App {
    type V = Wheel;

    open spec fn view(&self) -> Wheel {
        Wheel {
            running: self.running,
            tabs: self.tabs,
            participants: self.all_participants@,
            winners: self.all_winners@,
            is_spinning: self.is_spinning,
            spin_winner: self.spin_winner,
        }
    }
}

impl App {
    /// The selection names a participant, where there is one.
    pub open spec fn wf(&self) -> bool {
        self@.wf()
    }

    /// A running wheel over `participants`, in their order: nobody selected,
    /// nobody has won, no spin under way. Its tabs are "Home", which is
    /// active, and "Participants".
    pub fn new(participants: Vec<Participant>) -> (app: App)
        ensures
            app.wf(),
            app.running,
            app.all_participants.items == participants,
            app@.participants.selected is None,
            app@.winners.len() == 0,
            !app.is_spinning,
            app.spin_winner is None,
            app.tabs.active == 0,
            app.tabs.titles@.len() == 2,
            app.tabs.titles@[0]@ == "Home"@,
            app.tabs.titles@[1]@ == "Participants"@,
    {
        let mut tab_titles: Vec<String> = Vec::new();
        tab_titles.push("Home".to_owned());
        tab_titles.push("Participants".to_owned());
        App {
            running: true,
            tabs: StatefulTabs::new(tab_titles),
            all_participants: StatefulList::new(participants),
            all_winners: Vec::new(),
            is_spinning: false,
            spin_winner: None,
        }
    }

    /// Set running to false to quit the application.
    pub fn quit(&mut self)
        ensures
            final(self)@ == old(self)@.quit(),
    {
        self.running = false;
    }

    /// One frame of the terminal: see [`App::spin_round`].
    pub fn tick(&mut self, motion: Motion) -> (step: SpinStep)
        requires
            old(self).wf(),
        ensures
            final(self).wf(),
            step == old(self)@.step_for(motion),
            final(self)@ == old(self)@.tick(motion),
    {
        self.spin_round(motion)
    }

    /// Starts a spin, unless nobody takes part. Says whether a spin was
    /// started: the driver then draws the decay of the speed and sets the
    /// speed to its start value and the position to zero.
    pub fn start_spin(&mut self) -> (started: bool)
        ensures
            started == (old(self)@.participants.items.len() > 0),
            final(self)@ == old(self)@.start(),
            final(self).all_participants == old(self).all_participants,
    {
        if self.all_participants.items.is_empty() {
            return false;
        }
        self.spin_winner = None;
        self.is_spinning = true;
        true
    }

    /// Moves the selection on by the whole places that the position holds.
    pub fn apply_acceleration(&mut self, whole: usize)
        ensures
            final(self)@ == old(self)@.turn(whole as int),
            old(self).wf() ==> final(self).wf(),
    {
        self.all_participants.next(whole);
    }

    /// One frame of a spin. With no spin under way nothing happens. While the
    /// wheel moves, the selection moves on. Once it rests, the spin ends on
    /// the selected participant: a copy of it, marked as a winner, is shown
    /// and appended to the history. If nobody is selected then, nothing
    /// happens and the spin stays under way.
    pub fn spin_round(&mut self, motion: Motion) -> (step: SpinStep)
        requires
            old(self).wf(),
        ensures
            final(self).wf(),
            step == old(self)@.step_for(motion),
            final(self)@ == old(self)@.tick(motion),
    {
        if !self.is_spinning {
            return SpinStep::Idle;
        }
        if let Motion::Moving(whole) = motion {
            self.apply_acceleration(whole);
            return SpinStep::Moved;
        }
        if let Some(mut winner) = self.all_participants.get_selected() {
            winner.is_winner = true;

            self.spin_winner = Some(winner.clone());
            self.all_winners.push(winner);

            self.stop_spin();
            return SpinStep::Landed;
        }
        SpinStep::Stalled
    }

    /// Ends the spin where it is, with no winner declared.
    pub fn stop_spin(&mut self)
        ensures
            final(self)@ == old(self)@.stop(),
            final(self).all_participants == old(self).all_participants,
    {
        self.is_spinning = false;
    }

    /// Ends the spin and forgets the last winner.
    pub fn reset_spin(&mut self)
        ensures
            final(self)@ == old(self)@.reset(),
            final(self).all_participants == old(self).all_participants,
    {
        self.stop_spin();
        self.spin_winner = None;
    }
}

} // verus!
