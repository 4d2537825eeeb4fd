use vstd::prelude::*;

verus! {

/// Ticks over which one score change is eased in: each tick moves the score by the
/// change's size over this, rounded up, so every change settles within this many ticks.
pub const SCORE_CHANGE_SPEED: u64 = 50;

/// The change that a wrong placement or click costs.
pub const MISTAKE_PENALTY: i64 = -1250;

/// Bound on the score plus every pending change; a change that would pass it is refused.
pub const SCORE_LIMIT: u64 = 1_000_000_000_000_000;

/// One pending change: the score it is eased from and the amount it adds.
#[derive(Clone, Copy, Debug, PartialEq, Eq, Structural)]
pub struct ScoreChange {
    pub initial_score: i64,
    pub delta_score: i64,
}

/// The absolute value.
pub open spec fn abs(v: int) -> int {
    if v < 0 { -v } else { v }
}

/// The score a change settles at.
pub open spec fn target_of(c: ScoreChange) -> int {
    c.initial_score + c.delta_score
}

/// The sum of the sizes of all pending changes.
pub open spec fn magnitude(s: Seq<ScoreChange>) -> int
    decreases s.len(),
{
    if s.len() == 0 {
        0
    } else {
        magnitude(s.drop_last()) + abs(s.last().delta_score as int)
    }
}

/// How far one tick moves the score while a change of `delta` is eased in: the change's
/// size over `SCORE_CHANGE_SPEED`, rounded up, and at least one.
pub open spec fn step_size(delta: int) -> int {
    let up = (abs(delta) + SCORE_CHANGE_SPEED - 1) / (SCORE_CHANGE_SPEED as int);
    if up == 0 {
        1
    } else {
        up
    }
}

/// `c` moved toward `t` by `m`, stopping at `t`.
pub open spec fn approach(c: int, t: int, m: int) -> int {
    if c < t {
        if c + m < t { c + m } else { t }
    } else if c > t {
        if c - m > t { c - m } else { t }
    } else {
        t
    }
}

/// `v` lies on the segment between `a` and `b`.
pub open spec fn between(v: int, a: int, b: int) -> bool {
    (a <= v <= b) || (b <= v <= a)
}

/// The queue once its front is gone, the new front eased from score `t`.
pub open spec fn reanchor(rest: Seq<ScoreChange>, t: int) -> Seq<ScoreChange> {
    if rest.len() == 0 {
        rest
    } else {
        rest.update(0, ScoreChange { initial_score: t as i64, delta_score: rest[0].delta_score })
    }
}

/// The mistake count after a change of `delta` has settled.
pub open spec fn count_mistake(m: int, delta: int) -> int {
    if delta < 0 && m < u32::MAX { m + 1 } else { m }
}

/// What a score ledger holds: the shown score, the mistakes, the changes to come.
pub ghost struct ScoreModel {
    pub current: int,
    pub mistakes: int,
    pub pending: Seq<ScoreChange>,
}

/// The model after one tick of easing.
pub open spec fn tick_model(s: ScoreModel) -> ScoreModel {
    if s.pending.len() == 0 {
        s
    } else {
        let f = s.pending[0];
        let t = target_of(f);
        let moved = approach(s.current, t, step_size(f.delta_score as int));
        if moved == t {
            ScoreModel {
                current: t,
                mistakes: count_mistake(s.mistakes, f.delta_score as int),
                pending: reanchor(s.pending.drop_first(), t),
            }
        } else {
            ScoreModel { current: moved, ..s }
        }
    }
}

/// Whether a change of `delta` still fits under the bound.
pub open spec fn fits(s: ScoreModel, delta: int) -> bool {
    if s.pending.len() == 0 {
        abs(s.current) + abs(delta) <= SCORE_LIMIT
    } else {
        abs(s.pending[0].initial_score as int) + magnitude(s.pending) + abs(delta) <= SCORE_LIMIT
    }
}

/// The model once a change of `delta` is queued behind the others, anchored at the current score.
pub open spec fn enqueue_model(s: ScoreModel, delta: int) -> ScoreModel {
    ScoreModel {
        pending: s.pending.push(ScoreChange { initial_score: s.current as i64, delta_score: delta as i64 }),
        ..s
    }
}

/// The running score, its queue of pending changes (first in, first out) and the mistake count.
pub struct Score {
    current_score: i64,
    mistakes: u32,
    score_change_vector: Vec<ScoreChange>,
    backlog: u64,
}

impl View for Score {
    type V = ScoreModel;

    closed spec fn view(&self) -> ScoreModel {
        ScoreModel {
            current: self.current_score as int,
            mistakes: self.mistakes as int,
            pending: self.score_change_vector@,
        }
    }
}

/// The sizes of pending changes add up to no less than zero.
pub proof fn lemma_magnitude_nonneg(s: Seq<ScoreChange>)
    ensures
        magnitude(s) >= 0,
    decreases s.len(),
{
    if s.len() > 0 {
        lemma_magnitude_nonneg(s.drop_last());
    }
}

proof fn lemma_magnitude_front(s: Seq<ScoreChange>)
    requires
        s.len() > 0,
    ensures
        magnitude(s) == abs(s[0].delta_score as int) + magnitude(s.drop_first()),
    decreases s.len(),
{
    if s.len() > 1 {
        lemma_magnitude_front(s.drop_last());
        assert(s.drop_last().drop_first() =~= s.drop_first().drop_last());
        assert(s.drop_first().last() == s.last());
        assert(magnitude(s.drop_first()) == magnitude(s.drop_first().drop_last()) + abs(
            s.last().delta_score as int,
        ));
    } else {
        assert(s.drop_first().len() == 0);
        assert(s.drop_last().len() == 0);
        assert(magnitude(s.drop_last()) == 0);
        assert(magnitude(s.drop_first()) == 0);
    }
}

proof fn lemma_magnitude_reanchor(rest: Seq<ScoreChange>, t: int)
    ensures
        magnitude(reanchor(rest, t)) == magnitude(rest),
{
    if rest.len() > 0 {
        lemma_magnitude_front(rest);
        lemma_magnitude_front(reanchor(rest, t));
        assert(reanchor(rest, t).drop_first() =~= rest.drop_first());
    }
}

/// Easing moves the score monotonically toward where the front change settles, never past
/// it; the change is dropped exactly when the score gets there, and a mistake is counted
/// exactly when that change was negative (up to the counter's limit).
pub proof fn lemma_easing_toward_target(m: ScoreModel)
    requires
        m.pending.len() > 0,
        between(m.current, m.pending[0].initial_score as int, target_of(m.pending[0])),
    ensures
        ({
            let t = target_of(m.pending[0]);
            let n = tick_model(m);
            &&& between(n.current, m.current, t)
            &&& n.current != m.current || n.current == t
            &&& (n.pending.len() < m.pending.len()) == (n.current == t)
            &&& n.current == t ==> n.pending.len() == m.pending.len() - 1
            &&& n.current == t ==> n.mistakes == count_mistake(m.mistakes, m.pending[0].delta_score as int)
            &&& n.current != t ==> n.mistakes == m.mistakes && n.pending == m.pending
        }),
{
}

/// The model after `n` ticks of easing.
pub open spec fn tick_n(m: ScoreModel, n: nat) -> ScoreModel
    decreases n,
{
    if n == 0 {
        m
    } else {
        tick_model(tick_n(m, (n - 1) as nat))
    }
}

/// How many ticks a change of `delta` takes to be eased in: its size over the step, rounded up
/// (a change of zero is dropped at the first tick).
pub open spec fn settle_ticks(delta: int) -> nat {
    if delta == 0 {
        1
    } else {
        ((abs(delta) + step_size(delta) - 1) / step_size(delta)) as nat
    }
}

proof fn lemma_ease_prefix(m: ScoreModel, k: nat)
    requires
        m.pending.len() == 1,
        m.current == m.pending[0].initial_score,
        m.pending[0].delta_score != 0,
        k * step_size(m.pending[0].delta_score as int) < abs(m.pending[0].delta_score as int),
    ensures
        tick_n(m, k) == (ScoreModel {
            current: if m.pending[0].delta_score > 0 {
                m.current + k * step_size(m.pending[0].delta_score as int)
            } else {
                m.current - k * step_size(m.pending[0].delta_score as int)
            },
            ..m
        }),
    decreases k,
{
    let st = step_size(m.pending[0].delta_score as int);
    if k > 0 {
        assert((k - 1) * st <= k * st) by (nonlinear_arith)
            requires st >= 1, k >= 1;
        assert(k * st == (k - 1) * st + st) by (nonlinear_arith);
        lemma_ease_prefix(m, (k - 1) as nat);
        assert(tick_n(m, k) == tick_model(tick_n(m, (k - 1) as nat)));
    } else {
        assert(k * st == 0) by (nonlinear_arith)
            requires k == 0;
    }
}

/// A single change queued at the current score is eased in monotonically, within
/// `SCORE_CHANGE_SPEED` ticks: for each of the first `settle_ticks` ticks but the last it stays
/// queued and the score moves one step toward where it settles; at the last one the score is
/// there, the change is dropped, and a negative change counts one mistake.
pub proof fn lemma_single_change_settles(m: ScoreModel)
    requires
        m.pending.len() == 1,
        m.current == m.pending[0].initial_score,
    ensures
        ({
            let c = m.pending[0];
            let n = settle_ticks(c.delta_score as int);
            &&& 1 <= n <= SCORE_CHANGE_SPEED
            &&& forall|k: nat| #![trigger tick_n(m, k)] k < n ==> {
                &&& tick_n(m, k).pending == m.pending
                &&& between(tick_n(m, k).current, m.current, target_of(c))
                &&& (c.delta_score > 0 ==> tick_n(m, k).current == m.current + k * step_size(c.delta_score as int))
                &&& (c.delta_score < 0 ==> tick_n(m, k).current == m.current - k * step_size(c.delta_score as int))
            }
            &&& tick_n(m, n) == (ScoreModel {
                current: target_of(c),
                mistakes: count_mistake(m.mistakes, c.delta_score as int),
                pending: Seq::empty(),
            })
        }),
{
    let c = m.pending[0];
    let d = c.delta_score as int;
    let st = step_size(d);
    let n = settle_ticks(d);
    assert(m.pending.drop_first() =~= Seq::<ScoreChange>::empty());
    if d == 0 {
        assert(tick_n(m, 0) == m);
        assert(tick_n(m, 1) == tick_model(m));
    } else {
        let a = abs(d);
        assert(st >= 1);
        let q = (a + st - 1) / st;
        assert(n == q);
        assert(q >= 1 && (q - 1) * st < a && a <= q * st) by (nonlinear_arith)
            requires a >= 1, st >= 1, q == (a + st - 1) / st;
        assert(a <= 50 * st);
        assert(q <= 50) by (nonlinear_arith)
            requires a <= 50 * st, st >= 1, (q - 1) * st < a;
        assert forall|k: nat| #![trigger tick_n(m, k)] k < n implies {
            &&& tick_n(m, k).pending == m.pending
            &&& between(tick_n(m, k).current, m.current, target_of(c))
            &&& (c.delta_score > 0 ==> tick_n(m, k).current == m.current + k * st)
            &&& (c.delta_score < 0 ==> tick_n(m, k).current == m.current - k * st)
        } by {
            assert(k * st <= (q - 1) * st) by (nonlinear_arith)
                requires k <= q - 1, st >= 1;
            assert(k * st >= 0) by (nonlinear_arith)
                requires k >= 0, st >= 1;
            lemma_ease_prefix(m, k);
        }
        lemma_ease_prefix(m, (n - 1) as nat);
        assert((n - 1) * st + st == n * st) by (nonlinear_arith);
        assert(tick_n(m, n) == tick_model(tick_n(m, (n - 1) as nat)));
    }
}

impl Score {
    /// The score and every pending change together stay within the bound, the score lies
    /// between where the front change started and where it settles, and the running size of
    /// the queue is kept.
    pub closed spec fn wf(&self) -> bool {
        &&& self.backlog as int == magnitude(self.score_change_vector@)
        &&& if self.score_change_vector@.len() == 0 {
            abs(self.current_score as int) <= SCORE_LIMIT
        } else {
            let f = self.score_change_vector@[0];
            &&& abs(f.initial_score as int) + magnitude(self.score_change_vector@) <= SCORE_LIMIT
            &&& between(self.current_score as int, f.initial_score as int, target_of(f))
        }
    }

    /// A ledger at score zero, with no mistakes and nothing pending.
    pub fn new() -> (s: Self)
        ensures
            s.wf(),
            s@.current == 0,
            s@.mistakes == 0,
            s@.pending.len() == 0,
    {
        Score { current_score: 0, mistakes: 0, score_change_vector: Vec::new(), backlog: 0 }
    }

    /// The score as shown now.
    pub fn current_score(&self) -> (r: i64)
        ensures
            r == self@.current,
    {
        self.current_score
    }

    /// How many negative changes have settled.
    pub fn mistakes(&self) -> (r: u32)
        ensures
            r == self@.mistakes,
    {
        self.mistakes
    }

    /// How many changes wait, the one being eased in included.
    pub fn pending_len(&self) -> (r: usize)
        ensures
            r == self@.pending.len(),
    {
        self.score_change_vector.len()
    }

    /// The change being eased in, if any.
    pub fn front(&self) -> (r: Option<ScoreChange>)
        ensures
            r == (if self@.pending.len() == 0 { None } else { Some(self@.pending[0]) }),
    {
        if self.score_change_vector.len() == 0 {
            None
        } else {
            Some(self.score_change_vector[0])
        }
    }

    /// Queues a change of `delta`, anchored at the current score. Returns false, and
    /// changes nothing, where the change would take the ledger past its bound.
    pub fn enqueue(&mut self, delta: i64) -> (accepted: bool)
        requires
            old(self).wf(),
        ensures
            final(self).wf(),
            accepted == fits(old(self)@, delta as int),
            accepted ==> final(self)@ == enqueue_model(old(self)@, delta as int),
            !accepted ==> final(self)@ == old(self)@,
    {
        let size: u64 = if delta < 0 {
            if delta == i64::MIN { return false; }
            (-delta) as u64
        } else {
            delta as u64
        };
        proof { lemma_magnitude_nonneg(self.score_change_vector@); }
        let base: i64 = if self.score_change_vector.len() == 0 {
            self.current_score
        } else {
            self.score_change_vector[0].initial_score
        };
        let base_size: u64 = if base < 0 { (-(base as i128)) as u64 } else { base as u64 };
        if base_size > SCORE_LIMIT || size > SCORE_LIMIT - base_size
            || self.backlog > SCORE_LIMIT - base_size - size {
            return false;
        }
        let ghost old_q = self.score_change_vector@;
        self.score_change_vector.push(ScoreChange { initial_score: self.current_score, delta_score: delta });
        self.backlog = self.backlog + size;
        proof {
            assert(self.score_change_vector@.drop_last() =~= old_q);
            if old_q.len() == 0 {
                assert(magnitude(old_q) == 0);
            }
        }
        true
    }

    /// Eases the front change one step toward where it settles; once there, drops it,
    /// counts a mistake if it was negative, and anchors the next change at the score reached.
    pub fn tick(&mut self)
        requires
            old(self).wf(),
        ensures
            final(self).wf(),
            final(self)@ == tick_model(old(self)@),
    {
        if self.score_change_vector.len() == 0 {
            return;
        }
        let f: ScoreChange = self.score_change_vector[0];
        proof {
            lemma_magnitude_front(self.score_change_vector@);
            lemma_magnitude_nonneg(self.score_change_vector@.drop_first());
        }
        let size: u64 = if f.delta_score < 0 { (-(f.delta_score as i128)) as u64 } else { f.delta_score as u64 };
        let mut step: u64 = (size + (SCORE_CHANGE_SPEED - 1)) / SCORE_CHANGE_SPEED;
        if step == 0 {
            step = 1;
        }
        let t: i64 = f.initial_score + f.delta_score;
        let c: i64 = self.current_score;
        let moved: i64 = if c < t {
            if (t as i128) - (c as i128) > step as i128 { c + step as i64 } else { t }
        } else if c > t {
            if (c as i128) - (t as i128) > step as i128 { c - step as i64 } else { t }
        } else {
            t
        };
        self.current_score = moved;
        if moved == t {
            let ghost old_q = self.score_change_vector@;
            self.score_change_vector.remove(0);
            self.backlog = self.backlog - size;
            if f.delta_score < 0 && self.mistakes < u32::MAX {
                self.mistakes = self.mistakes + 1;
            }
            if self.score_change_vector.len() > 0 {
                let d: i64 = self.score_change_vector[0].delta_score;
                self.score_change_vector.set(0, ScoreChange { initial_score: t, delta_score: d });
            }
            proof {
                assert(old_q.drop_first() =~= old_q.remove(0));
                lemma_magnitude_reanchor(old_q.drop_first(), t as int);
                assert(self.score_change_vector@ =~= reanchor(old_q.drop_first(), t as int));
                if self.score_change_vector@.len() == 0 {
                    assert(old_q.drop_first().len() == 0);
                }
            }
        }
    }
}

} // verus!
