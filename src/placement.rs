use vstd::prelude::*;
use crate::geometry::{Point, dist_sq, within, clamp_coord, is_within, offset_point};
use crate::stage::GameState;

verus! {

/// How a puzzle judges its items.
#[derive(Clone, Copy, Debug, PartialEq, Eq, Structural)]
pub enum Policy {
    /// The held item is dropped; it is placed where it lies close enough to its own target.
    Radius,
    /// On release every item near the pointer is judged by whether it is a right answer.
    Identity,
    /// A press on an item settles it; a right answer solves the puzzle.
    ClickOnce,
    /// A release inside a zone solves the puzzle.
    Zone,
}

/// The zone of a zone puzzle: the open rectangle `min_x < x < max_x`, `min_y < y < max_y`.
/// A release outside it counts as a miss only where `|x| < reach` and `|y| < reach`.
#[derive(Clone, Copy, Debug, PartialEq, Eq, Structural)]
pub struct Zone {
    pub min_x: i32,
    pub max_x: i32,
    pub min_y: i32,
    pub max_y: i32,
    pub reach: i32,
}

/// One item of a puzzle. `placed` marks an item that is settled (put on its target, judged a
/// right answer, or in a click-once puzzle clicked); a settled item never changes again.
#[derive(Clone, Copy, Debug, PartialEq, Eq, Structural)]
pub struct Placeable {
    pub position: Point,
    pub home: Point,
    /// Where the item belongs under the radius policy; `None` for a decoy that belongs nowhere.
    pub target: Option<Point>,
    pub correct: bool,
    pub placed: bool,
}

/// The item held by the pointer, and the offset from the pointer to the item at the grab.
#[derive(Clone, Copy, Debug, PartialEq, Eq, Structural)]
pub struct Selection {
    pub index: usize,
    pub dx: i64,
    pub dy: i64,
}

/// What one pointer event decided.
#[derive(Clone, Copy, Debug, PartialEq, Eq, Structural)]
pub struct Tally {
    pub accepted: usize,
    pub rejected: usize,
    pub solved: bool,
}

/// A puzzle in play: its items, its rules, the pointer and the held item.
pub struct Board {
    pub items: Vec<Placeable>,
    pub policy: Policy,
    pub pick_radius_sq: u64,
    pub accept_radius_sq: u64,
    pub zone: Zone,
    pub required: usize,
    pub pointer: Point,
    pub selection: Option<Selection>,
}

/// The item is still in play and lies strictly within the squared radius `r_sq` of `p`.
pub open spec fn hit(it: Placeable, p: Point, r_sq: u64) -> bool {
    !it.placed && within(it.position, p, r_sq)
}

/// The first item from `i` on that is not placed and lies within the radius of `p`.
pub open spec fn first_hit_from(items: Seq<Placeable>, p: Point, r_sq: u64, i: int) -> Option<int>
    decreases items.len() - i,
{
    if i < 0 || i >= items.len() {
        None
    } else if hit(items[i], p, r_sq) {
        Some(i)
    } else {
        first_hit_from(items, p, r_sq, i + 1)
    }
}

/// The first item still in play within the squared radius `r_sq` of `p`.
pub open spec fn first_hit(items: Seq<Placeable>, p: Point, r_sq: u64) -> Option<int> {
    first_hit_from(items, p, r_sq, 0)
}

/// An item moved by the pointer to `p` while held with `s`.
pub open spec fn dragged(it: Placeable, p: Point, s: Selection) -> Placeable {
    Placeable {
        position: Point { x: clamp_coord(p.x + s.dx), y: clamp_coord(p.y + s.dy) },
        ..it
    }
}

/// An item dropped under the radius policy lands: it has a target and lies close enough to it.
pub open spec fn lands(it: Placeable, r_sq: u64) -> bool {
    it.target matches Some(t) && within(it.position, t, r_sq)
}

/// An item dropped under the radius policy: placed on its target where it lands, else sent home.
pub open spec fn dropped(it: Placeable, r_sq: u64) -> Placeable {
    if lands(it, r_sq) {
        Placeable { position: it.target->Some_0, placed: true, ..it }
    } else {
        Placeable { position: it.home, ..it }
    }
}

/// An item judged at a release under the identity policy.
pub open spec fn rescanned(it: Placeable, p: Point, r_sq: u64) -> Placeable {
    if hit(it, p, r_sq) {
        if it.correct {
            Placeable { placed: true, ..it }
        } else {
            Placeable { position: it.home, ..it }
        }
    } else {
        it
    }
}

/// How many items near `p` are right answers.
pub open spec fn count_right(items: Seq<Placeable>, p: Point, r_sq: u64) -> nat
    decreases items.len(),
{
    if items.len() == 0 {
        0
    } else {
        count_right(items.drop_last(), p, r_sq) + if hit(items.last(), p, r_sq)
            && items.last().correct { 1nat } else { 0nat }
    }
}

/// How many items near `p` are wrong answers.
pub open spec fn count_wrong(items: Seq<Placeable>, p: Point, r_sq: u64) -> nat
    decreases items.len(),
{
    if items.len() == 0 {
        0
    } else {
        count_wrong(items.drop_last(), p, r_sq) + if hit(items.last(), p, r_sq)
            && !items.last().correct { 1nat } else { 0nat }
    }
}

/// How many items are placed.
pub open spec fn placed_count(items: Seq<Placeable>) -> nat
    decreases items.len(),
{
    if items.len() == 0 {
        0
    } else {
        placed_count(items.drop_last()) + if items.last().placed { 1nat } else { 0nat }
    }
}

/// The release point lies inside the zone's open rectangle.
pub open spec fn in_zone(z: Zone, p: Point) -> bool {
    z.min_x < p.x < z.max_x && z.min_y < p.y < z.max_y
}

/// The release point lies within the zone's reach.
pub open spec fn in_reach(z: Zone, p: Point) -> bool {
    -z.reach < p.x < z.reach && -z.reach < p.y < z.reach
}

/// Policies under which the puzzle is solved by placing enough items.
pub open spec fn counts_placements(policy: Policy) -> bool {
    policy == Policy::Radius || policy == Policy::Identity
}

/// A tally of nothing.
pub open spec fn nothing() -> Tally {
    Tally { accepted: 0, rejected: 0, solved: false }
}

/// No item that was placed has changed.
pub open spec fn placed_kept(before: Seq<Placeable>, after: Seq<Placeable>) -> bool {
    &&& after.len() == before.len()
    &&& forall|i: int| 0 <= i < before.len() && (#[trigger] before[i]).placed ==> after[i] == before[i]
}

/// Both boards have the same rules.
pub open spec fn same_rules(a: Board, b: Board) -> bool {
    &&& a.policy == b.policy
    &&& a.pick_radius_sq == b.pick_radius_sq
    &&& a.accept_radius_sq == b.accept_radius_sq
    &&& a.zone == b.zone
    &&& a.required == b.required
}

/// The items once the pointer has moved to `p`: a held item follows at its grab offset.
pub open spec fn drag(b: Board, p: Point) -> Seq<Placeable> {
    match b.selection {
        Some(s) => b.items@.update(s.index as int, dragged(b.items@[s.index as int], p, s)),
        None => b.items@,
    }
}

/// The items, the held item and the tally after a press of the pointer.
pub open spec fn press(b: Board) -> (Seq<Placeable>, Option<Selection>, Tally) {
    let items = b.items@;
    let p = b.pointer;
    let h = first_hit(items, p, b.pick_radius_sq);
    match b.policy {
        Policy::Radius | Policy::Identity => {
            let sel = if b.selection is Some {
                b.selection
            } else {
                match h {
                    Some(i) => Some(Selection {
                        index: i as usize,
                        dx: (items[i].position.x - p.x) as i64,
                        dy: (items[i].position.y - p.y) as i64,
                    }),
                    None => None,
                }
            };
            (items, sel, nothing())
        },
        Policy::ClickOnce => match h {
            Some(i) => (
                items.update(i, Placeable { placed: true, ..items[i] }),
                b.selection,
                Tally { accepted: 0, rejected: if items[i].correct { 0 } else { 1 }, solved: items[i].correct },
            ),
            None => (items, b.selection, nothing()),
        },
        Policy::Zone => (items, b.selection, nothing()),
    }
}

/// The items and the tally after a release of the pointer.
pub open spec fn release(b: Board) -> (Seq<Placeable>, Tally) {
    let items = b.items@;
    let p = b.pointer;
    match b.policy {
        Policy::Radius => match b.selection {
            Some(s) => {
                let it = items[s.index as int];
                let ok = lands(it, b.accept_radius_sq);
                (
                    items.update(s.index as int, dropped(it, b.accept_radius_sq)),
                    Tally { accepted: if ok { 1 } else { 0 }, rejected: if ok { 0 } else { 1 }, solved: false },
                )
            },
            None => (items, nothing()),
        },
        Policy::Identity => match b.selection {
            Some(s) => (
                Seq::new(items.len(), |j: int| rescanned(items[j], p, b.pick_radius_sq)),
                Tally {
                    accepted: count_right(items, p, b.pick_radius_sq) as usize,
                    rejected: count_wrong(items, p, b.pick_radius_sq) as usize,
                    solved: false,
                },
            ),
            None => (items, nothing()),
        },
        Policy::Zone => (
            items,
            if in_zone(b.zone, p) {
                Tally { accepted: 0, rejected: 0, solved: true }
            } else if in_reach(b.zone, p) {
                Tally { accepted: 0, rejected: 1, solved: false }
            } else {
                nothing()
            },
        ),
        Policy::ClickOnce => (items, nothing()),
    }
}

/// Squared radius within which a press takes hold of an item.
pub const PICK_RADIUS_SQ: u64 = 10000;

/// Squared radius within which a press settles a periodic-table tile: strictly inside
/// half of the tiles' 55-unit width (a squared distance of at most 756).
pub const TILE_PICK_RADIUS_SQ: u64 = 757;

/// Squared radius within which most dropped items count as placed.
pub const WIDE_ACCEPT_RADIUS_SQ: u64 = 5625;

/// Squared radius within which a dropped twelve-days item counts as placed.
pub const NARROW_ACCEPT_RADIUS_SQ: u64 = 2500;

/// The grocery zone as a value.
pub open spec fn spec_grocery_zone() -> Zone {
    Zone { min_x: 25, max_x: 190, min_y: 90, max_y: 220, reach: 5000 }
}

/// The zone of the grocery puzzle.
#[verifier::when_used_as_spec(spec_grocery_zone)]
pub fn grocery_zone() -> (z: Zone)
    ensures
        z == spec_grocery_zone(),
{
    Zone { min_x: 25, max_x: 190, min_y: 90, max_y: 220, reach: 5000 }
}

/// The unreachable zone as a value.
pub open spec fn spec_no_zone() -> Zone {
    Zone { min_x: 0, max_x: 0, min_y: 0, max_y: 0, reach: 0 }
}

/// A zone that no release reaches.
#[verifier::when_used_as_spec(spec_no_zone)]
pub fn no_zone() -> (z: Zone)
    ensures
        z == spec_no_zone(),
{
    Zone { min_x: 0, max_x: 0, min_y: 0, max_y: 0, reach: 0 }
}

/// How a stage's puzzle judges, with its radii, zone and the count of placed items that solves it.
pub open spec fn rules_of(s: GameState, n_items: nat) -> (Policy, u64, u64, Zone, nat) {
    match s {
        GameState::PuzzleTurkeyMistletoe => (Policy::Identity, PICK_RADIUS_SQ, 0, no_zone(), 2),
        GameState::PuzzlePeriodicTable => (Policy::ClickOnce, TILE_PICK_RADIUS_SQ, 0, no_zone(), 0),
        GameState::PuzzleWaltz => (Policy::Radius, PICK_RADIUS_SQ, WIDE_ACCEPT_RADIUS_SQ, no_zone(), 2),
        GameState::PuzzleReindeer => (Policy::Radius, PICK_RADIUS_SQ, WIDE_ACCEPT_RADIUS_SQ, no_zone(), 8),
        GameState::PuzzleGrocery => (Policy::Zone, 0, 0, grocery_zone(), 0),
        GameState::PuzzleTwelveDays => (Policy::Radius, PICK_RADIUS_SQ, NARROW_ACCEPT_RADIUS_SQ, no_zone(), 12),
        GameState::PuzzleFamilyTree => (Policy::Radius, PICK_RADIUS_SQ, WIDE_ACCEPT_RADIUS_SQ, no_zone(), 3),
        GameState::PuzzleCranberries => (Policy::Radius, PICK_RADIUS_SQ, WIDE_ACCEPT_RADIUS_SQ, no_zone(), n_items),
        _ => (Policy::ClickOnce, 0, 0, no_zone(), 0),
    }
}

/// Holds the puzzle of a stage.
pub open spec fn has_rules(b: Board, s: GameState, n_items: nat) -> bool {
    let (policy, pick, accept, zone, required) = rules_of(s, n_items);
    &&& b.policy == policy
    &&& b.pick_radius_sq == pick
    &&& b.accept_radius_sq == accept
    &&& b.zone == zone
    &&& b.required == required
}

impl Board {
    /// A held item exists, is still in play, and is held only under a dragging policy.
    pub open spec fn wf(&self) -> bool {
        self.selection matches Some(s) ==> s.index < self.items@.len()
            && !self.items@[s.index as int].placed && counts_placements(self.policy)
    }

    /// The rules of a puzzle and its items, with the pointer far off and nothing held.
    pub fn new(
        items: Vec<Placeable>,
        policy: Policy,
        pick_radius_sq: u64,
        accept_radius_sq: u64,
        zone: Zone,
        required: usize,
    ) -> (b: Self)
        ensures
            b.wf(),
            b.items@ == items@,
            b.policy == policy,
            b.pick_radius_sq == pick_radius_sq,
            b.accept_radius_sq == accept_radius_sq,
            b.zone == zone,
            b.required == required,
            b.pointer == (Point { x: i32::MAX, y: i32::MAX }),
            b.selection is None,
    {
        Board {
            items,
            policy,
            pick_radius_sq,
            accept_radius_sq,
            zone,
            required,
            pointer: Point { x: i32::MAX, y: i32::MAX },
            selection: None,
        }
    }

    /// The puzzle of stage `s` over `items` (stages without a puzzle get one that ignores the pointer).
    pub fn for_stage(s: GameState, items: Vec<Placeable>) -> (b: Self)
        ensures
            b.wf(),
            b.items@ == items@,
            has_rules(b, s, items@.len()),
            b.pointer == (Point { x: i32::MAX, y: i32::MAX }),
            b.selection is None,
    {
        let n = items.len();
        match s {
            GameState::PuzzleTurkeyMistletoe => Board::new(items, Policy::Identity, PICK_RADIUS_SQ, 0, no_zone(), 2),
            GameState::PuzzlePeriodicTable => Board::new(items, Policy::ClickOnce, TILE_PICK_RADIUS_SQ, 0, no_zone(), 0),
            GameState::PuzzleWaltz => Board::new(items, Policy::Radius, PICK_RADIUS_SQ, WIDE_ACCEPT_RADIUS_SQ, no_zone(), 2),
            GameState::PuzzleReindeer => Board::new(items, Policy::Radius, PICK_RADIUS_SQ, WIDE_ACCEPT_RADIUS_SQ, no_zone(), 8),
            GameState::PuzzleGrocery => Board::new(items, Policy::Zone, 0, 0, grocery_zone(), 0),
            GameState::PuzzleTwelveDays => Board::new(items, Policy::Radius, PICK_RADIUS_SQ, NARROW_ACCEPT_RADIUS_SQ, no_zone(), 12),
            GameState::PuzzleFamilyTree => Board::new(items, Policy::Radius, PICK_RADIUS_SQ, WIDE_ACCEPT_RADIUS_SQ, no_zone(), 3),
            GameState::PuzzleCranberries => Board::new(items, Policy::Radius, PICK_RADIUS_SQ, WIDE_ACCEPT_RADIUS_SQ, no_zone(), n),
            _ => Board::new(items, Policy::ClickOnce, 0, 0, no_zone(), 0),
        }
    }

    /// The first item not yet placed within the pick radius of the pointer.
    pub fn find_first_hit(&self) -> (r: Option<usize>)
        ensures
            r matches Some(i) ==> first_hit(self.items@, self.pointer, self.pick_radius_sq) == Some(i as int)
                && i < self.items@.len() && hit(self.items@[i as int], self.pointer, self.pick_radius_sq),
            r is None ==> first_hit(self.items@, self.pointer, self.pick_radius_sq) is None,
    {
        let mut i: usize = 0;
        while i < self.items.len()
            invariant
                i <= self.items@.len(),
                first_hit(self.items@, self.pointer, self.pick_radius_sq) == first_hit_from(
                    self.items@,
                    self.pointer,
                    self.pick_radius_sq,
                    i as int,
                ),
            decreases self.items@.len() - i,
        {
            let it = self.items[i];
            if !it.placed && is_within(it.position, self.pointer, self.pick_radius_sq) {
                return Some(i);
            }
            i = i + 1;
        }
        None
    }

    /// How many items are placed.
    pub fn count_placed(&self) -> (n: usize)
        ensures
            n == placed_count(self.items@),
    {
        let mut n: usize = 0;
        let mut i: usize = 0;
        while i < self.items.len()
            invariant
                i <= self.items@.len(),
                n == placed_count(self.items@.take(i as int)),
                n <= i,
            decreases self.items@.len() - i,
        {
            assert(self.items@.take(i + 1).drop_last() =~= self.items@.take(i as int));
            if self.items[i].placed {
                n = n + 1;
            }
            i = i + 1;
        }
        assert(self.items@.take(i as int) =~= self.items@);
        n
    }

    /// Tells whether enough items are placed to solve a puzzle that counts placements; a
    /// puzzle that asks for no placed item is never solved this way (only its countdown ends it).
    pub fn enough_placed(&self) -> (r: bool)
        ensures
            r == (counts_placements(self.policy) && self.required > 0 && placed_count(self.items@) >= self.required),
    {
        match self.policy {
            Policy::Radius | Policy::Identity => self.required > 0 && self.count_placed() >= self.required,
            _ => false,
        }
    }

    /// The pointer moves to `p`; a held item follows it, kept at its grab offset.
    pub fn pointer_moved(&mut self, p: Point)
        requires
            old(self).wf(),
        ensures
            final(self).wf(),
            final(self).items@ == drag(*old(self), p),
            final(self).pointer == p,
            same_rules(*old(self), *final(self)),
            final(self).selection == old(self).selection,
            placed_kept(old(self).items@, final(self).items@),
    {
        self.pointer = p;
        match self.selection {
            Some(s) => {
                let it = self.items[s.index];
                let moved = Placeable { position: offset_point(p, s.dx, s.dy), ..it };
                self.items.set(s.index, moved);
            },
            None => {},
        }
    }
    /// A press of the pointer. Under the radius and identity policies, with nothing held,
    /// it takes hold of the first item not yet placed within the pick radius. Under the
    /// click-once policy that item is settled: a right answer solves the puzzle, a wrong
    /// one is a miss. A zone puzzle ignores presses.
    pub fn pointer_down(&mut self) -> (t: Tally)
        requires
            old(self).wf(),
        ensures
            final(self).wf(),
            (final(self).items@, final(self).selection, t) == press(*old(self)),
            final(self).pointer == old(self).pointer,
            same_rules(*old(self), *final(self)),
            placed_kept(old(self).items@, final(self).items@),
    {
        match self.policy {
            Policy::Radius | Policy::Identity => {
                if self.selection.is_none() {
                    match self.find_first_hit() {
                        Some(i) => {
                            let it = self.items[i];
                            self.selection = Some(Selection {
                                index: i,
                                dx: it.position.x as i64 - self.pointer.x as i64,
                                dy: it.position.y as i64 - self.pointer.y as i64,
                            });
                        },
                        None => {},
                    }
                }
                Tally { accepted: 0, rejected: 0, solved: false }
            },
            Policy::ClickOnce => {
                match self.find_first_hit() {
                    Some(i) => {
                        let it = self.items[i];
                        self.items.set(i, Placeable { placed: true, ..it });
                        if it.correct {
                            Tally { accepted: 0, rejected: 0, solved: true }
                        } else {
                            Tally { accepted: 0, rejected: 1, solved: false }
                        }
                    },
                    None => Tally { accepted: 0, rejected: 0, solved: false },
                }
            },
            Policy::Zone => Tally { accepted: 0, rejected: 0, solved: false },
        }
    }

    /// A release of the pointer; nothing is held afterwards. Under the radius policy the
    /// held item is dropped. Under the identity policy, if an item was held, every item not
    /// yet placed within the pick radius of the pointer is judged: a right answer is placed,
    /// a wrong one goes home and is a miss. A zone puzzle is solved by a release inside its
    /// zone; a release elsewhere within reach is a miss.
    pub fn pointer_up(&mut self) -> (t: Tally)
        requires
            old(self).wf(),
        ensures
            final(self).wf(),
            (final(self).items@, t) == release(*old(self)),
            final(self).selection is None,
            final(self).pointer == old(self).pointer,
            same_rules(*old(self), *final(self)),
            placed_kept(old(self).items@, final(self).items@),
    {
        let held = self.selection;
        self.selection = None;
        match self.policy {
            Policy::Radius => match held {
                Some(s) => {
                    let it = self.items[s.index];
                    let landed = match it.target {
                        Some(t) => if is_within(it.position, t, self.accept_radius_sq) { Some(t) } else { None },
                        None => None,
                    };
                    if let Some(t) = landed {
                        self.items.set(s.index, Placeable { position: t, placed: true, ..it });
                        Tally { accepted: 1, rejected: 0, solved: false }
                    } else {
                        self.items.set(s.index, Placeable { position: it.home, ..it });
                        Tally { accepted: 0, rejected: 1, solved: false }
                    }
                },
                None => Tally { accepted: 0, rejected: 0, solved: false },
            },
            Policy::Identity => match held {
                Some(_) => self.rescan(),
                None => Tally { accepted: 0, rejected: 0, solved: false },
            },
            Policy::Zone => {
                let p = self.pointer;
                let z = self.zone;
                if z.min_x < p.x && p.x < z.max_x && z.min_y < p.y && p.y < z.max_y {
                    Tally { accepted: 0, rejected: 0, solved: true }
                } else if -(z.reach as i64) < p.x as i64 && (p.x as i64) < z.reach as i64
                    && -(z.reach as i64) < p.y as i64 && (p.y as i64) < z.reach as i64 {
                    Tally { accepted: 0, rejected: 1, solved: false }
                } else {
                    Tally { accepted: 0, rejected: 0, solved: false }
                }
            },
            Policy::ClickOnce => Tally { accepted: 0, rejected: 0, solved: false },
        }
    }

    fn rescan(&mut self) -> (t: Tally)
        requires
            old(self).selection is None,
        ensures
            final(self).selection is None,
            final(self).pointer == old(self).pointer,
            final(self).policy == old(self).policy,
            final(self).pick_radius_sq == old(self).pick_radius_sq,
            final(self).accept_radius_sq == old(self).accept_radius_sq,
            final(self).zone == old(self).zone,
            final(self).required == old(self).required,
            final(self).items@ == Seq::new(
                old(self).items@.len(),
                |j: int| rescanned(old(self).items@[j], old(self).pointer, old(self).pick_radius_sq),
            ),
            t == (Tally {
                accepted: count_right(old(self).items@, old(self).pointer, old(self).pick_radius_sq) as usize,
                rejected: count_wrong(old(self).items@, old(self).pointer, old(self).pick_radius_sq) as usize,
                solved: false,
            }),
    {
        let ghost items = self.items@;
        let p = self.pointer;
        let r_sq = self.pick_radius_sq;
        let mut a: usize = 0;
        let mut r: usize = 0;
        let mut i: usize = 0;
        while i < self.items.len()
            invariant
                self.selection is None,
                self.pointer == p,
                self.pick_radius_sq == r_sq,
                self.policy == old(self).policy,
                self.accept_radius_sq == old(self).accept_radius_sq,
                self.zone == old(self).zone,
                self.required == old(self).required,
                self.items@.len() == items.len(),
                i <= items.len(),
                items == old(self).items@,
                p == old(self).pointer,
                r_sq == old(self).pick_radius_sq,
                forall|j: int| 0 <= j < i ==> self.items@[j] == rescanned(items[j], p, r_sq),
                forall|j: int| i <= j < items.len() ==> self.items@[j] == items[j],
                a == count_right(items.take(i as int), p, r_sq),
                r == count_wrong(items.take(i as int), p, r_sq),
                a + r <= i,
            decreases items.len() - i,
        {
            assert(items.take(i + 1).drop_last() =~= items.take(i as int));
            let it = self.items[i];
            if !it.placed && is_within(it.position, p, r_sq) {
                if it.correct {
                    self.items.set(i, Placeable { placed: true, ..it });
                    a = a + 1;
                } else {
                    self.items.set(i, Placeable { position: it.home, ..it });
                    r = r + 1;
                }
            }
            i = i + 1;
        }
        assert(items.take(i as int) =~= items);
        assert(self.items@ =~= Seq::new(items.len(), |j: int| rescanned(items[j], p, r_sq)));
        Tally { accepted: a, rejected: r, solved: false }
    }
}

proof fn lemma_first_hit_is_hit(items: Seq<Placeable>, p: Point, r_sq: u64, i: int)
    requires
        0 <= i,
    ensures
        first_hit_from(items, p, r_sq, i) matches Some(k) ==> i <= k < items.len() && hit(items[k], p, r_sq),
    decreases items.len() - i,
{
    if i < items.len() && !hit(items[i], p, r_sq) {
        lemma_first_hit_is_hit(items, p, r_sq, i + 1);
    }
}

/// A placed item is final: no move, press or release of the pointer changes it.
pub proof fn lemma_placed_items_stay(b: Board, p: Point)
    requires
        b.wf(),
    ensures
        placed_kept(b.items@, drag(b, p)),
        placed_kept(b.items@, press(b).0),
        placed_kept(b.items@, release(b).0),
{
    lemma_first_hit_is_hit(b.items@, b.pointer, b.pick_radius_sq, 0);
}

/// Under the radius policy an item dropped exactly on its target is always placed there.
pub proof fn lemma_drop_on_target_accepted(b: Board)
    requires
        b.wf(),
        b.policy == Policy::Radius,
        b.accept_radius_sq > 0,
        b.selection matches Some(s) && b.items@[s.index as int].target == Some(b.items@[s.index as int].position),
    ensures
        release(b).1 == (Tally { accepted: 1, rejected: 0, solved: false }),
        release(b).0[b.selection->Some_0.index as int].placed,
        release(b).0[b.selection->Some_0.index as int].position == b.items@[b.selection->Some_0.index as int].position,
{
}

/// Under the radius policy the acceptance radius is strict: an item dropped at exactly
/// that distance from its target is sent home as a miss.
pub proof fn lemma_drop_at_radius_rejected(b: Board)
    requires
        b.wf(),
        b.policy == Policy::Radius,
        b.selection matches Some(s) && b.items@[s.index as int].target matches Some(t)
            && dist_sq(b.items@[s.index as int].position, t) == b.accept_radius_sq,
    ensures
        release(b).1 == (Tally { accepted: 0, rejected: 1, solved: false }),
        !release(b).0[b.selection->Some_0.index as int].placed,
        release(b).0[b.selection->Some_0.index as int].position == b.items@[b.selection->Some_0.index as int].home,
{
}

/// Under the radius policy a decoy, which has no target, is never placed: dropped anywhere,
/// it goes home as a miss.
pub proof fn lemma_decoy_never_placed(b: Board)
    requires
        b.wf(),
        b.policy == Policy::Radius,
        b.selection matches Some(s) && b.items@[s.index as int].target is None,
    ensures
        release(b).1 == (Tally { accepted: 0, rejected: 1, solved: false }),
        !release(b).0[b.selection->Some_0.index as int].placed,
        release(b).0[b.selection->Some_0.index as int].position == b.items@[b.selection->Some_0.index as int].home,
{
}

} // verus!
