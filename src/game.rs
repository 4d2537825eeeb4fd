use vstd::prelude::*;
use crate::geometry::Point;
use crate::placement::{
    Board, Placeable, Policy, Tally, lands, press, release, drag, has_rules, counts_placements, placed_count,
    same_rules,
};
use crate::score::{
    Score, ScoreModel, fits, enqueue_model, tick_model, lemma_magnitude_nonneg, MISTAKE_PENALTY,
    SCORE_LIMIT,
};
use crate::stage::{
    GameState, PuzzleState, SoundsEnum, successor, puzzle_stage, theme_of, reveal_secs,
    duration_secs, is_puzzle, next_stage, theme_song, answer_reveal_secs,
};
use crate::timer::{TimerResource, ticked};

verus! {

/// The ledger after offering it a change: queued where it fits, else left as it was.
pub open spec fn offer(m: ScoreModel, delta: int) -> ScoreModel {
    if fits(m, delta) {
        enqueue_model(m, delta)
    } else {
        m
    }
}

/// The ledger after offering it the same change `n` times.
pub open spec fn offer_n(m: ScoreModel, delta: int, n: nat) -> ScoreModel
    decreases n,
{
    if n == 0 {
        m
    } else {
        offer(offer_n(m, delta, (n - 1) as nat), delta)
    }
}

/// The cues for a tally: a success chime per placed item, a failure buzz per miss, and
/// the victory cue if the puzzle is solved.
pub open spec fn cues_of(t: Tally) -> Seq<SoundsEnum> {
    Seq::new(t.accepted as nat, |i: int| SoundsEnum::Success) + Seq::new(
        t.rejected as nat,
        |i: int| SoundsEnum::Failure,
    ) + if t.solved {
        seq![SoundsEnum::HoHoHo]
    } else {
        Seq::empty()
    }
}

/// The ledger after a tally: a penalty per miss, then, if solved, the time left as a bonus.
pub open spec fn scored(m: ScoreModel, t: Tally, remaining: int) -> ScoreModel {
    let p = offer_n(m, MISTAKE_PENALTY as int, t.rejected as nat);
    if t.solved {
        offer(p, remaining)
    } else {
        p
    }
}

/// Enough items are placed to solve a puzzle that counts placements (one that asks for none
/// is never solved by placing).
pub open spec fn enough_placed(b: Board) -> bool {
    counts_placements(b.policy) && b.required > 0 && placed_count(b.items@) >= b.required
}

/// The completion check fires: the puzzle is in progress and enough items are placed.
pub open spec fn completion_due(phase: PuzzleState, enough: bool) -> bool {
    phase == PuzzleState::InProgress && enough
}

/// The phase and the countdown after a frame of `dt_ms`: the completion check first, then
/// the countdown, which runs only while the puzzle is in progress and ends it when it runs out.
pub open spec fn frame_phase(phase: PuzzleState, enough: bool, timer: TimerResource, dt_ms: u64) -> (
    PuzzleState,
    TimerResource,
) {
    let checked = if completion_due(phase, enough) {
        PuzzleState::Complete
    } else {
        phase
    };
    let counted = ticked(timer, checked == PuzzleState::InProgress, dt_ms);
    if checked == PuzzleState::InProgress && counted.remaining() == 0 {
        (PuzzleState::Complete, counted)
    } else {
        (checked, counted)
    }
}

/// A press of the continue button moves on: from the title and instructions screens, and
/// from a completed puzzle, to the next stage.
pub open spec fn can_continue(stage: GameState, phase: PuzzleState) -> bool {
    &&& successor(stage) is Some
    &&& (stage == GameState::TitleScreen || stage == GameState::Instructions || phase
        == PuzzleState::Complete)
}

/// The whole state of play.
pub struct Game {
    pub stage: GameState,
    pub phase: PuzzleState,
    pub timer: TimerResource,
    pub score: Score,
    pub board: Board,
}

impl Game {
    /// The countdown, the ledger and the board are each well formed.
    pub open spec fn wf(&self) -> bool {
        self.timer.wf() && self.score.wf() && self.board.wf()
    }

    /// A game on its title screen, at score zero.
    pub fn new() -> (g: Self)
        ensures
            g.wf(),
            g.stage == GameState::TitleScreen,
            g.phase == PuzzleState::GetReady,
            g.timer == (TimerResource { total_ms: 0, elapsed_ms: 0 }),
            g.score@.current == 0,
            g.score@.mistakes == 0,
            g.score@.pending.len() == 0,
            g.board.items@.len() == 0,
            has_rules(g.board, GameState::TitleScreen, 0),
            g.board.selection is None,
    {
        Game {
            stage: GameState::TitleScreen,
            phase: PuzzleState::GetReady,
            timer: TimerResource::for_stage(GameState::TitleScreen),
            score: Score::new(),
            board: Board::for_stage(GameState::TitleScreen, Vec::new()),
        }
    }

    /// The continue button: where the game can move on, it enters the next stage, ready to
    /// begin, with a fresh countdown and `items` as that stage's puzzle. Returns whether it moved on.
    pub fn press_continue(&mut self, items: Vec<Placeable>) -> (advanced: bool)
        requires
            old(self).wf(),
        ensures
            final(self).wf(),
            advanced == can_continue(old(self).stage, old(self).phase),
            advanced ==> {
                &&& successor(old(self).stage) == Some(final(self).stage)
                &&& final(self).phase == PuzzleState::GetReady
                &&& final(self).timer == (TimerResource {
                    total_ms: (duration_secs(final(self).stage) * 1000) as u64,
                    elapsed_ms: 0,
                })
                &&& final(self).board.items@ == items@
                &&& has_rules(final(self).board, final(self).stage, items@.len())
                &&& final(self).board.selection is None
                &&& final(self).score@ == old(self).score@
            },
            !advanced ==> {
                &&& final(self).stage == old(self).stage
                &&& final(self).phase == old(self).phase
                &&& final(self).timer == old(self).timer
                &&& final(self).board == old(self).board
                &&& final(self).score@ == old(self).score@
            },
    {
        let can = match self.stage {
            GameState::TitleScreen | GameState::Instructions => true,
            GameState::ShowScore => false,
            _ => self.phase == PuzzleState::Complete,
        };
        if !can {
            return false;
        }
        match next_stage(self.stage) {
            Some(n) => {
                self.stage = n;
                self.phase = PuzzleState::GetReady;
                self.timer = TimerResource::for_stage(n);
                self.board = Board::for_stage(n, items);
                true
            },
            None => false,
        }
    }

    /// The begin button: a puzzle that is getting ready starts, and its theme is cued.
    pub fn press_begin(&mut self) -> (cue: Option<SoundsEnum>)
        requires
            old(self).wf(),
        ensures
            final(self).wf(),
            puzzle_stage(old(self).stage) && old(self).phase == PuzzleState::GetReady ==> {
                &&& final(self).phase == PuzzleState::InProgress
                &&& cue == theme_of(old(self).stage)
            },
            !(puzzle_stage(old(self).stage) && old(self).phase == PuzzleState::GetReady) ==> {
                &&& final(self).phase == old(self).phase
                &&& cue is None
            },
            final(self).stage == old(self).stage,
            final(self).timer == old(self).timer,
            final(self).board == old(self).board,
            final(self).score@ == old(self).score@,
    {
        if is_puzzle(self.stage) && self.phase == PuzzleState::GetReady {
            self.phase = PuzzleState::InProgress;
            theme_song(self.stage)
        } else {
            None
        }
    }

    /// The pointer moves to `p`; a held item follows it.
    pub fn pointer_moved(&mut self, p: Point)
        requires
            old(self).wf(),
        ensures
            final(self).wf(),
            final(self).board.items@ == drag(old(self).board, p),
            final(self).board.pointer == p,
            final(self).board.selection == old(self).board.selection,
            same_rules(old(self).board, final(self).board),
            final(self).stage == old(self).stage,
            final(self).phase == old(self).phase,
            final(self).timer == old(self).timer,
            final(self).score@ == old(self).score@,
    {
        self.board.pointer_moved(p);
    }

    /// A press of the pointer, judged while the puzzle is in progress. Returns the cues it calls for.
    pub fn pointer_down(&mut self) -> (cues: Vec<SoundsEnum>)
        requires
            old(self).wf(),
        ensures
            final(self).wf(),
            old(self).phase == PuzzleState::InProgress ==> {
                let (items, sel, t) = press(old(self).board);
                &&& final(self).board.items@ == items
                &&& final(self).board.selection == sel
                &&& final(self).score@ == scored(old(self).score@, t, old(self).timer.remaining())
                &&& final(self).phase == (if t.solved { PuzzleState::Complete } else { old(self).phase })
                &&& cues@ == cues_of(t)
            },
            old(self).phase != PuzzleState::InProgress ==> {
                &&& final(self).board == old(self).board
                &&& final(self).score@ == old(self).score@
                &&& final(self).phase == old(self).phase
                &&& cues@.len() == 0
            },
            final(self).board.pointer == old(self).board.pointer,
            same_rules(old(self).board, final(self).board),
            final(self).stage == old(self).stage,
            final(self).timer == old(self).timer,
    {
        if self.phase != PuzzleState::InProgress {
            return Vec::new();
        }
        let t = self.board.pointer_down();
        self.apply(t)
    }

    /// A release of the pointer, judged while the puzzle is in progress. Returns the cues it calls for.
    pub fn pointer_up(&mut self) -> (cues: Vec<SoundsEnum>)
        requires
            old(self).wf(),
        ensures
            final(self).wf(),
            old(self).phase == PuzzleState::InProgress ==> {
                let (items, t) = release(old(self).board);
                &&& final(self).board.items@ == items
                &&& final(self).board.selection is None
                &&& final(self).score@ == scored(old(self).score@, t, old(self).timer.remaining())
                &&& final(self).phase == (if t.solved { PuzzleState::Complete } else { old(self).phase })
                &&& cues@ == cues_of(t)
            },
            old(self).phase != PuzzleState::InProgress ==> {
                &&& final(self).board == old(self).board
                &&& final(self).score@ == old(self).score@
                &&& final(self).phase == old(self).phase
                &&& cues@.len() == 0
            },
            final(self).board.pointer == old(self).board.pointer,
            same_rules(old(self).board, final(self).board),
            final(self).stage == old(self).stage,
            final(self).timer == old(self).timer,
    {
        if self.phase != PuzzleState::InProgress {
            return Vec::new();
        }
        let t = self.board.pointer_up();
        self.apply(t)
    }

    /// Books a tally: cues, a penalty per miss, and the bonus and the end of the puzzle if solved.
    fn apply(&mut self, t: Tally) -> (cues: Vec<SoundsEnum>)
        requires
            old(self).wf(),
        ensures
            final(self).wf(),
            final(self).score@ == scored(old(self).score@, t, old(self).timer.remaining()),
            final(self).phase == (if t.solved { PuzzleState::Complete } else { old(self).phase }),
            cues@ == cues_of(t),
            final(self).board == old(self).board,
            final(self).stage == old(self).stage,
            final(self).timer == old(self).timer,
    {
        let ghost m0 = self.score@;
        let mut cues: Vec<SoundsEnum> = Vec::new();
        let mut k: usize = 0;
        while k < t.accepted
            invariant
                k <= t.accepted,
                cues@ == Seq::new(k as nat, |i: int| SoundsEnum::Success),
            decreases t.accepted - k,
        {
            cues.push(SoundsEnum::Success);
            k = k + 1;
            assert(cues@ =~= Seq::new(k as nat, |i: int| SoundsEnum::Success));
        }
        let mut k: usize = 0;
        while k < t.rejected
            invariant
                k <= t.rejected,
                cues@ == Seq::new(t.accepted as nat, |i: int| SoundsEnum::Success) + Seq::new(
                    k as nat,
                    |i: int| SoundsEnum::Failure,
                ),
                self.score.wf(),
                self.score@ == offer_n(m0, MISTAKE_PENALTY as int, k as nat),
                self.board == old(self).board,
                self.stage == old(self).stage,
                self.phase == old(self).phase,
                self.timer == old(self).timer,
                m0 == old(self).score@,
                self.timer.wf(),
                self.board.wf(),
            decreases t.rejected - k,
        {
            cues.push(SoundsEnum::Failure);
            self.score.enqueue(MISTAKE_PENALTY);
            k = k + 1;
            assert(cues@ =~= Seq::new(t.accepted as nat, |i: int| SoundsEnum::Success) + Seq::new(
                k as nat,
                |i: int| SoundsEnum::Failure,
            ));
        }
        if t.solved {
            self.offer_bonus();
            cues.push(SoundsEnum::HoHoHo);
            self.phase = PuzzleState::Complete;
        }
        assert(cues@ =~= cues_of(t));
        cues
    }

    /// One frame of `dt_ms`: the completion check (a bonus of the time left and the victory
    /// cue when enough items are placed), then the countdown, then one step of score easing.
    pub fn tick(&mut self, dt_ms: u64) -> (cues: Vec<SoundsEnum>)
        requires
            old(self).wf(),
        ensures
            final(self).wf(),
            ({
                let enough = enough_placed(old(self).board);
                let due = completion_due(old(self).phase, enough);
                let (phase, timer) = frame_phase(old(self).phase, enough, old(self).timer, dt_ms);
                &&& final(self).phase == phase
                &&& final(self).timer == timer
                &&& final(self).score@ == tick_model(
                    if due { offer(old(self).score@, old(self).timer.remaining()) } else { old(self).score@ },
                )
                &&& cues@ == (if due { seq![SoundsEnum::HoHoHo] } else { Seq::<SoundsEnum>::empty() })
            }),
            final(self).board == old(self).board,
            final(self).stage == old(self).stage,
    {
        let mut cues: Vec<SoundsEnum> = Vec::new();
        if self.phase == PuzzleState::InProgress && self.board.enough_placed() {
            self.offer_bonus();
            cues.push(SoundsEnum::HoHoHo);
            self.phase = PuzzleState::Complete;
        }
        let running = self.phase == PuzzleState::InProgress;
        self.timer.tick(running, dt_ms);
        if running && self.timer.expired() {
            self.phase = PuzzleState::Complete;
        }
        self.score.tick();
        assert(cues@ =~= (if completion_due(old(self).phase, enough_placed(old(self).board)) {
            seq![SoundsEnum::HoHoHo]
        } else {
            Seq::<SoundsEnum>::empty()
        }));
        cues
    }

    /// Offers the ledger the time left as a bonus.
    fn offer_bonus(&mut self)
        requires
            old(self).wf(),
        ensures
            final(self).wf(),
            final(self).score@ == offer(old(self).score@, old(self).timer.remaining()),
            final(self).board == old(self).board,
            final(self).stage == old(self).stage,
            final(self).phase == old(self).phase,
            final(self).timer == old(self).timer,
    {
        let bonus = self.timer.remaining_ms();
        if bonus <= SCORE_LIMIT {
            self.score.enqueue(bonus as i64);
        } else {
            proof {
                if self.score@.pending.len() > 0 {
                    lemma_magnitude_nonneg(self.score@.pending);
                }
            }
        }
    }

    /// Ends a puzzle in progress at once, with no bonus (a debugging shortcut).
    pub fn skip_puzzle(&mut self)
        requires
            old(self).wf(),
        ensures
            final(self).wf(),
            final(self).phase == (if old(self).phase == PuzzleState::InProgress {
                PuzzleState::Complete
            } else {
                old(self).phase
            }),
            final(self).stage == old(self).stage,
            final(self).timer == old(self).timer,
            final(self).board == old(self).board,
            final(self).score@ == old(self).score@,
    {
        if self.phase == PuzzleState::InProgress {
            self.phase = PuzzleState::Complete;
        }
    }

    /// Tells whether play has reached the final score screen.
    pub fn finished(&self) -> (r: bool)
        ensures
            r == (self.stage == GameState::ShowScore),
    {
        self.stage == GameState::ShowScore
    }

    /// Tells whether a puzzle's answers are shown: its countdown is within the stage's reveal time of the end.
    pub fn answers_shown(&self) -> (r: bool)
        requires
            self.wf(),
        ensures
            r == (puzzle_stage(self.stage) && self.timer.remaining() / 1000 < reveal_secs(self.stage)),
    {
        is_puzzle(self.stage) && self.timer.remaining_ms() / 1000 < answer_reveal_secs(self.stage)
    }
}

/// How many of a run of frames end the puzzle, and how many pay the completion bonus;
/// frame `i` lasts `dts[i]` and sees `enough[i]` as whether enough items are placed.
pub open spec fn run_frames(phase: PuzzleState, timer: TimerResource, enough: Seq<bool>, dts: Seq<u64>) -> (
    nat,
    nat,
)
    decreases dts.len(),
{
    if dts.len() == 0 || enough.len() == 0 {
        (0, 0)
    } else {
        let (checked, counted) = frame_phase(phase, enough[0], timer, dts[0]);
        let (ends, bonuses) = run_frames(checked, counted, enough.drop_first(), dts.drop_first());
        (
            ends + if phase == PuzzleState::InProgress && checked == PuzzleState::Complete { 1nat } else { 0nat },
            bonuses + if completion_due(phase, enough[0]) { 1nat } else { 0nat },
        )
    }
}

/// The phase after a run of frames.
pub open spec fn phase_after(phase: PuzzleState, timer: TimerResource, enough: Seq<bool>, dts: Seq<u64>) -> PuzzleState
    decreases dts.len(),
{
    if dts.len() == 0 || enough.len() == 0 {
        phase
    } else {
        let (checked, counted) = frame_phase(phase, enough[0], timer, dts[0]);
        phase_after(checked, counted, enough.drop_first(), dts.drop_first())
    }
}

/// The length of a run of frames.
pub open spec fn total_ms(dts: Seq<u64>) -> int
    decreases dts.len(),
{
    if dts.len() == 0 {
        0
    } else {
        dts[0] + total_ms(dts.drop_first())
    }
}

proof fn lemma_no_frames_after_end(phase: PuzzleState, timer: TimerResource, enough: Seq<bool>, dts: Seq<u64>)
    requires
        phase != PuzzleState::InProgress,
    ensures
        run_frames(phase, timer, enough, dts) == (0nat, 0nat),
        phase_after(phase, timer, enough, dts) == phase,
    decreases dts.len(),
{
    if dts.len() > 0 && enough.len() > 0 {
        let (checked, counted) = frame_phase(phase, enough[0], timer, dts[0]);
        lemma_no_frames_after_end(checked, counted, enough.drop_first(), dts.drop_first());
    }
}

/// However many frames run, and whatever the placements, a puzzle ends at most once and
/// pays its completion bonus at most once, and only in the frame that ends it.
pub proof fn lemma_puzzle_ends_once(phase: PuzzleState, timer: TimerResource, enough: Seq<bool>, dts: Seq<u64>)
    ensures
        run_frames(phase, timer, enough, dts).0 <= 1,
        run_frames(phase, timer, enough, dts).1 <= run_frames(phase, timer, enough, dts).0,
    decreases dts.len(),
{
    if dts.len() > 0 && enough.len() > 0 {
        let (checked, counted) = frame_phase(phase, enough[0], timer, dts[0]);
        if checked == PuzzleState::InProgress {
            lemma_puzzle_ends_once(checked, counted, enough.drop_first(), dts.drop_first());
        } else {
            lemma_no_frames_after_end(checked, counted, enough.drop_first(), dts.drop_first());
        }
    }
}

/// A puzzle in progress with enough items placed is completed by the next frame, which
/// pays the bonus; later frames pay nothing more.
pub proof fn lemma_completion_latched(timer: TimerResource, enough: Seq<bool>, dts: Seq<u64>)
    requires
        dts.len() > 0,
        enough.len() > 0,
        enough[0],
    ensures
        run_frames(PuzzleState::InProgress, timer, enough, dts) == (1nat, 1nat),
        phase_after(PuzzleState::InProgress, timer, enough, dts) == PuzzleState::Complete,
{
    let (checked, counted) = frame_phase(PuzzleState::InProgress, enough[0], timer, dts[0]);
    lemma_no_frames_after_end(checked, counted, enough.drop_first(), dts.drop_first());
}

/// With nothing solved, a countdown in progress whose frames (none of zero length) add up
/// to exactly the time left ends the puzzle once, in the last frame, with no bonus.
pub proof fn lemma_countdown_ends_once(timer: TimerResource, enough: Seq<bool>, dts: Seq<u64>)
    requires
        timer.wf(),
        dts.len() > 0,
        enough.len() == dts.len(),
        forall|i: int| 0 <= i < enough.len() ==> !enough[i],
        forall|i: int| 0 <= i < dts.len() ==> dts[i] > 0,
        total_ms(dts) == timer.remaining(),
    ensures
        run_frames(PuzzleState::InProgress, timer, enough, dts) == (1nat, 0nat),
        phase_after(PuzzleState::InProgress, timer, enough, dts) == PuzzleState::Complete,
    decreases dts.len(),
{
    let (checked, counted) = frame_phase(PuzzleState::InProgress, enough[0], timer, dts[0]);
    lemma_total_ms_positive(dts.drop_first());
    if dts.len() == 1 {
        assert(total_ms(dts.drop_first()) == 0);
        lemma_no_frames_after_end(checked, counted, enough.drop_first(), dts.drop_first());
    } else {
        assert(total_ms(dts.drop_first()) > 0);
        assert(checked == PuzzleState::InProgress);
        lemma_countdown_ends_once(counted, enough.drop_first(), dts.drop_first());
    }
}

proof fn lemma_total_ms_positive(dts: Seq<u64>)
    requires
        forall|i: int| 0 <= i < dts.len() ==> dts[i] > 0,
    ensures
        dts.len() > 0 ==> total_ms(dts) > 0,
        total_ms(dts) >= 0,
    decreases dts.len(),
{
    if dts.len() > 0 {
        lemma_total_ms_positive(dts.drop_first());
    }
}

/// A drop on its own target under the radius policy chimes once and leaves the score alone;
/// a drop that misses buzzes once and queues one penalty.
pub proof fn lemma_drop_effects(b: Board, m: ScoreModel, remaining: int)
    requires
        b.wf(),
        b.policy == Policy::Radius,
        b.selection is Some,
    ensures
        ({
            let it = b.items@[b.selection->Some_0.index as int];
            let t = release(b).1;
            &&& lands(it, b.accept_radius_sq) ==> cues_of(t) == seq![SoundsEnum::Success] && scored(m, t, remaining) == m
            &&& !lands(it, b.accept_radius_sq) ==> cues_of(t) == seq![SoundsEnum::Failure]
                && scored(m, t, remaining) == offer(m, MISTAKE_PENALTY as int)
        }),
{
    let t = release(b).1;
    assert(offer_n(m, MISTAKE_PENALTY as int, 1) == offer(offer_n(m, MISTAKE_PENALTY as int, 0), MISTAKE_PENALTY as int));
    assert(cues_of(t) =~= (if t.accepted == 1 { seq![SoundsEnum::Success] } else { seq![SoundsEnum::Failure] }));
}

/// A puzzle in progress and not yet solved keeps running while its countdown has time left:
/// the frame's time is counted and the phase stays.
pub proof fn lemma_no_timeout_before_total(timer: TimerResource, dt_ms: u64)
    requires
        timer.wf(),
        timer.elapsed_ms + dt_ms < timer.total_ms,
    ensures
        frame_phase(PuzzleState::InProgress, false, timer, dt_ms) == (
            PuzzleState::InProgress,
            TimerResource { elapsed_ms: (timer.elapsed_ms + dt_ms) as u64, ..timer },
        ),
{
}

/// The frame in which enough items are placed completes the puzzle and freezes its countdown,
/// so the bonus paid is the time left when the check fired.
pub proof fn lemma_completion_freezes_countdown(timer: TimerResource, dt_ms: u64)
    ensures
        frame_phase(PuzzleState::InProgress, true, timer, dt_ms) == (PuzzleState::Complete, timer),
{
}

} // verus!
