use snowglobe::{
    answer_reveal_secs, is_puzzle, next_stage, stage_duration_secs, theme_song, Board, Game,
    GameState, InstructionScreenEnum, Placeable, Point, Policy, PuzzleState, Score, SoundsEnum,
    TimerResource, distance_squared, is_within, offset_point,
};

fn item(x: i32, y: i32, tx: i32, ty: i32, correct: bool) -> Placeable {
    Placeable {
        position: Point { x, y },
        home: Point { x, y },
        target: Some(Point { x: tx, y: ty }),
        correct,
        placed: false,
    }
}

fn game_at(stage: GameState, items: Vec<Placeable>) -> Game {
    Game {
        stage,
        phase: PuzzleState::GetReady,
        timer: TimerResource::for_stage(stage),
        score: Score::new(),
        board: Board::for_stage(stage, items),
    }
}

fn periodic_tiles() -> Vec<Placeable> {
    vec![
        item(-450, -150, 0, 0, false),
        item(485, -150, 0, 0, false),
        item(-450, -95, 0, 0, true),
        item(-395, -95, 0, 0, false),
    ]
}

fn waltz_items() -> Vec<Placeable> {
    vec![item(-500, 200, 100, -100, true), item(-300, 200, 300, -100, true)]
}

fn drag(g: &mut Game, from: Point, to: Point) -> Vec<SoundsEnum> {
    g.pointer_moved(from);
    let mut cues = g.pointer_down();
    g.pointer_moved(to);
    cues.extend(g.pointer_up());
    cues
}

#[test]
fn geometry_is_strict_and_squared() {
    let a = Point { x: 0, y: 0 };
    let b = Point { x: 3, y: 4 };
    assert_eq!(distance_squared(a, b), 25);
    assert!(!is_within(a, b, 25));
    assert!(is_within(a, b, 26));
    let far = Point { x: i32::MIN, y: i32::MAX };
    assert_eq!(distance_squared(far, Point { x: i32::MAX, y: i32::MIN }), 2 * (u32::MAX as u128).pow(2));
    assert_eq!(offset_point(Point { x: 10, y: -10 }, 5, -5), Point { x: 15, y: -15 });
    assert_eq!(offset_point(Point { x: i32::MAX, y: i32::MIN }, 5, -5), Point { x: i32::MAX, y: i32::MIN });
}

#[test]
fn stages_follow_the_order_of_play() {
    let mut s = GameState::TitleScreen;
    let mut order = vec![s];
    while let Some(n) = next_stage(s) {
        order.push(n);
        s = n;
    }
    assert_eq!(
        order,
        vec![
            GameState::TitleScreen,
            GameState::Instructions,
            GameState::PuzzleTurkeyMistletoe,
            GameState::PuzzlePeriodicTable,
            GameState::PuzzleWaltz,
            GameState::PuzzleReindeer,
            GameState::PuzzleGrocery,
            GameState::PuzzleTwelveDays,
            GameState::PuzzleFamilyTree,
            GameState::PuzzleCranberries,
            GameState::ShowScore,
        ]
    );
    assert!(!is_puzzle(GameState::ShowScore));
    assert!(is_puzzle(GameState::PuzzleGrocery));
    assert_eq!(stage_duration_secs(GameState::PuzzleFamilyTree), 27);
    assert_eq!(stage_duration_secs(GameState::PuzzleReindeer), 60);
    assert_eq!(stage_duration_secs(GameState::PuzzleWaltz), 20);
    assert_eq!(stage_duration_secs(GameState::Instructions), 0);
    assert_eq!(answer_reveal_secs(GameState::PuzzleFamilyTree), 5);
    assert_eq!(answer_reveal_secs(GameState::PuzzleCranberries), 4);
    assert_eq!(answer_reveal_secs(GameState::PuzzleGrocery), 3);
    assert_eq!(theme_song(GameState::PuzzleWaltz), Some(SoundsEnum::WaltzSong));
    assert_eq!(theme_song(GameState::TitleScreen), None);
    assert!(SoundsEnum::ReindeerSong.loops());
    assert!(!SoundsEnum::Success.loops());
}

#[test]
fn instructions_pages_then_first_puzzle() {
    assert_eq!(InstructionScreenEnum::ScreenOne.press(), Some(InstructionScreenEnum::ScreenTwo));
    assert_eq!(InstructionScreenEnum::ScreenTwo.press(), Some(InstructionScreenEnum::ScreenThree));
    assert_eq!(InstructionScreenEnum::ScreenThree.press(), None);
}

#[test]
fn continue_and_begin_drive_the_phases() {
    let mut g = Game::new();
    assert!(g.press_continue(vec![]));
    assert_eq!(g.stage, GameState::Instructions);
    assert_eq!(g.press_begin(), None);
    assert!(g.press_continue(waltz_items()));
    assert_eq!(g.stage, GameState::PuzzleTurkeyMistletoe);
    assert_eq!(g.phase, PuzzleState::GetReady);
    assert_eq!(g.timer.total_ms, 20_000);
    assert!(!g.press_continue(vec![]));
    assert_eq!(g.press_begin(), Some(SoundsEnum::TurkeyMistletoeSong));
    assert_eq!(g.phase, PuzzleState::InProgress);
    assert_eq!(g.press_begin(), None);
    assert!(!g.press_continue(vec![]));
    g.phase = PuzzleState::Complete;
    assert!(g.press_continue(periodic_tiles()));
    assert_eq!(g.stage, GameState::PuzzlePeriodicTable);
    assert_eq!(g.phase, PuzzleState::GetReady);
    let mut end = game_at(GameState::ShowScore, vec![]);
    end.phase = PuzzleState::Complete;
    assert!(end.finished());
    assert!(!end.press_continue(vec![]));
}

#[test]
fn countdown_of_twenty_seconds_ends_the_puzzle_once() {
    let mut g = game_at(GameState::PuzzleWaltz, waltz_items());
    g.press_begin();
    let mut endings = 0;
    for _ in 0..20 {
        let before = g.phase;
        let cues = g.tick(1000);
        assert!(cues.is_empty());
        if before == PuzzleState::InProgress && g.phase == PuzzleState::Complete {
            endings += 1;
        }
    }
    assert_eq!(endings, 1);
    assert_eq!(g.phase, PuzzleState::Complete);
    assert_eq!(g.timer.remaining_ms(), 0);
    assert_eq!(g.score.pending_len(), 0);
    for _ in 0..5 {
        g.tick(1000);
    }
    assert_eq!(g.phase, PuzzleState::Complete);
    assert_eq!(g.score.pending_len(), 0);
}

#[test]
fn countdown_does_not_run_before_begin() {
    let mut g = game_at(GameState::PuzzleWaltz, waltz_items());
    g.tick(30_000);
    assert_eq!(g.phase, PuzzleState::GetReady);
    assert_eq!(g.timer.remaining_ms(), 20_000);
}

#[test]
fn completion_fires_once_with_the_time_bonus() {
    let mut g = game_at(GameState::PuzzleWaltz, waltz_items());
    g.press_begin();
    g.tick(2500);
    let cues = drag(&mut g, Point { x: -500, y: 200 }, Point { x: 110, y: -90 });
    assert_eq!(cues, vec![SoundsEnum::Success]);
    assert!(g.tick(0).is_empty());
    let cues = drag(&mut g, Point { x: -300, y: 200 }, Point { x: 300, y: -100 });
    assert_eq!(cues, vec![SoundsEnum::Success]);
    assert_eq!(g.tick(16), vec![SoundsEnum::HoHoHo]);
    assert_eq!(g.phase, PuzzleState::Complete);
    assert_eq!(g.score.front().unwrap().delta_score, 17_500);
    let remaining = g.timer.remaining_ms();
    for _ in 0..100 {
        assert!(g.tick(16).is_empty());
    }
    assert_eq!(g.timer.remaining_ms(), remaining);
    assert_eq!(g.score.pending_len(), 0);
    assert_eq!(g.score.current_score(), 17_500);
}

#[test]
fn drop_on_target_snaps_and_boundary_is_strict() {
    let mut g = game_at(GameState::PuzzleWaltz, waltz_items());
    g.press_begin();
    let cues = drag(&mut g, Point { x: -500, y: 200 }, Point { x: 100, y: -100 });
    assert_eq!(cues, vec![SoundsEnum::Success]);
    assert!(g.board.items[0].placed);
    assert_eq!(g.board.items[0].position, Point { x: 100, y: -100 });
    // exactly 75 units from its target: not close enough
    let cues = drag(&mut g, Point { x: -300, y: 200 }, Point { x: 375, y: -100 });
    assert_eq!(cues, vec![SoundsEnum::Failure]);
    assert!(!g.board.items[1].placed);
    assert_eq!(g.board.items[1].position, Point { x: -300, y: 200 });
    assert_eq!(g.score.front().unwrap().delta_score, -1250);
    // 74 units away: close enough, and it lands on the target itself
    let cues = drag(&mut g, Point { x: -300, y: 200 }, Point { x: 374, y: -100 });
    assert_eq!(cues, vec![SoundsEnum::Success]);
    assert_eq!(g.board.items[1].position, Point { x: 300, y: -100 });
}

#[test]
fn grab_keeps_the_offset_to_the_pointer() {
    let mut g = game_at(GameState::PuzzleWaltz, waltz_items());
    g.press_begin();
    g.pointer_moved(Point { x: -480, y: 230 });
    g.pointer_down();
    let sel = g.board.selection.unwrap();
    assert_eq!((sel.index, sel.dx, sel.dy), (0, -20, -30));
    g.pointer_moved(Point { x: 0, y: 0 });
    assert_eq!(g.board.items[0].position, Point { x: -20, y: -30 });
    g.pointer_up();
    assert!(g.board.selection.is_none());
    assert_eq!(g.board.items[0].position, Point { x: -500, y: 200 });
}

#[test]
fn placed_items_no_longer_respond() {
    let mut g = game_at(GameState::PuzzleReindeer, waltz_items());
    g.press_begin();
    drag(&mut g, Point { x: -500, y: 200 }, Point { x: 100, y: -100 });
    let placed = g.board.items[0];
    assert!(placed.placed);
    let cues = drag(&mut g, Point { x: 100, y: -100 }, Point { x: 600, y: 300 });
    assert!(cues.is_empty());
    assert_eq!(g.board.items[0], placed);
    assert!(g.board.selection.is_none());
}

#[test]
fn first_item_within_reach_is_taken() {
    let items = vec![item(0, 0, 500, 500, true), item(50, 0, 500, 500, true)];
    let mut g = game_at(GameState::PuzzleWaltz, items);
    g.press_begin();
    g.pointer_moved(Point { x: 40, y: 0 });
    g.pointer_down();
    assert_eq!(g.board.selection.unwrap().index, 0);
}

#[test]
fn presses_before_begin_do_nothing() {
    let mut g = game_at(GameState::PuzzleWaltz, waltz_items());
    let cues = drag(&mut g, Point { x: -500, y: 200 }, Point { x: 100, y: -100 });
    assert!(cues.is_empty());
    assert!(!g.board.items[0].placed);
}

#[test]
fn identity_release_judges_every_item_near_the_pointer() {
    let items = vec![
        item(-600, 0, 0, 0, false),
        item(-400, 0, 0, 0, true),
        item(-200, 0, 0, 0, false),
        item(400, 0, 0, 0, true),
    ];
    let mut g = game_at(GameState::PuzzleTurkeyMistletoe, items);
    g.press_begin();
    // carry the wreath onto the elf: both wrong, both go home
    let cues = drag(&mut g, Point { x: -600, y: 0 }, Point { x: -210, y: 0 });
    assert_eq!(cues, vec![SoundsEnum::Failure, SoundsEnum::Failure]);
    assert_eq!(g.board.items[0].position, Point { x: -600, y: 0 });
    assert_eq!(g.score.pending_len(), 2);
    // carry the turkey a little: it is a right answer
    let cues = drag(&mut g, Point { x: -400, y: 0 }, Point { x: -390, y: 10 });
    assert_eq!(cues, vec![SoundsEnum::Success]);
    assert!(g.board.items[1].placed);
    assert_eq!(g.board.items[1].position, Point { x: -390, y: 10 });
    let cues = drag(&mut g, Point { x: 400, y: 0 }, Point { x: 400, y: 0 });
    assert_eq!(cues, vec![SoundsEnum::Success]);
    assert_eq!(g.tick(16), vec![SoundsEnum::HoHoHo]);
    assert_eq!(g.phase, PuzzleState::Complete);
}

#[test]
fn periodic_table_first_right_click_wins() {
    let mut g = game_at(GameState::PuzzlePeriodicTable, periodic_tiles());
    g.press_begin();
    g.tick(1500);
    g.pointer_moved(Point { x: -440, y: -100 });
    let cues = g.pointer_down();
    assert_eq!(cues, vec![SoundsEnum::HoHoHo]);
    assert_eq!(g.phase, PuzzleState::Complete);
    assert!(g.board.items[2].placed);
    assert_eq!(g.score.front().unwrap().delta_score, 18_500);
    assert_eq!(g.score.pending_len(), 1);
    let cues = g.pointer_down();
    assert!(cues.is_empty());
    assert_eq!(g.score.pending_len(), 1);
    assert!(g.tick(16).is_empty());
}

#[test]
fn periodic_table_wrong_click_costs_once() {
    let mut g = game_at(GameState::PuzzlePeriodicTable, periodic_tiles());
    g.press_begin();
    g.pointer_moved(Point { x: -450, y: -150 });
    assert_eq!(g.pointer_down(), vec![SoundsEnum::Failure]);
    assert!(g.board.items[0].placed);
    assert_eq!(g.phase, PuzzleState::InProgress);
    assert!(g.pointer_down().is_empty());
    assert_eq!(g.score.pending_len(), 1);
    // 28 units from the centre of a tile is outside its pick radius
    g.pointer_moved(Point { x: -395 + 28, y: -95 });
    assert!(g.pointer_down().is_empty());
    g.pointer_moved(Point { x: -395 + 27, y: -95 });
    assert_eq!(g.pointer_down(), vec![SoundsEnum::Failure]);
}

#[test]
fn grocery_release_inside_the_zone_completes() {
    let mut g = game_at(GameState::PuzzleGrocery, vec![]);
    g.press_begin();
    g.pointer_moved(Point { x: 100, y: 150 });
    assert!(g.pointer_down().is_empty());
    assert_eq!(g.pointer_up(), vec![SoundsEnum::HoHoHo]);
    assert_eq!(g.phase, PuzzleState::Complete);
    assert_eq!(g.score.front().unwrap().delta_score, 20_000);
}

#[test]
fn grocery_release_far_away_is_ignored() {
    let mut g = game_at(GameState::PuzzleGrocery, vec![]);
    g.press_begin();
    g.pointer_moved(Point { x: 10_000, y: 10_000 });
    assert!(g.pointer_up().is_empty());
    assert_eq!(g.phase, PuzzleState::InProgress);
    assert_eq!(g.score.pending_len(), 0);
    g.pointer_moved(Point { x: 190, y: 150 });
    assert_eq!(g.pointer_up(), vec![SoundsEnum::Failure]);
    assert_eq!(g.score.front().unwrap().delta_score, -1250);
    assert_eq!(g.phase, PuzzleState::InProgress);
}

#[test]
fn answers_show_near_the_end() {
    let mut g = game_at(GameState::PuzzleFamilyTree, waltz_items());
    g.press_begin();
    g.tick(22_000);
    assert!(!g.answers_shown());
    g.tick(1);
    assert!(g.answers_shown());
    assert!(!game_at(GameState::Instructions, vec![]).answers_shown());
}

#[test]
fn board_rules_per_stage() {
    let b = Board::for_stage(GameState::PuzzleTwelveDays, vec![]);
    assert_eq!((b.policy, b.accept_radius_sq, b.required), (Policy::Radius, 2500, 12));
    let b = Board::for_stage(GameState::PuzzleFamilyTree, vec![]);
    assert_eq!((b.policy, b.accept_radius_sq, b.required), (Policy::Radius, 5625, 3));
    let b = Board::for_stage(GameState::PuzzleCranberries, waltz_items());
    assert_eq!(b.required, 2);
    let b = Board::for_stage(GameState::PuzzleTurkeyMistletoe, vec![]);
    assert_eq!((b.policy, b.pick_radius_sq, b.required), (Policy::Identity, 10_000, 2));
    assert_eq!(Board::for_stage(GameState::PuzzleGrocery, vec![]).policy, Policy::Zone);
    let mut b = Board::for_stage(GameState::PuzzleReindeer, waltz_items());
    assert_eq!(b.count_placed(), 0);
    assert!(!b.enough_placed());
    b.items[0].placed = true;
    assert_eq!(b.count_placed(), 1);
}

#[test]
fn skip_ends_only_a_puzzle_in_progress() {
    let mut g = game_at(GameState::PuzzleWaltz, waltz_items());
    g.skip_puzzle();
    assert_eq!(g.phase, PuzzleState::GetReady);
    g.press_begin();
    g.tick(1000);
    g.skip_puzzle();
    assert_eq!(g.phase, PuzzleState::Complete);
    assert_eq!(g.score.pending_len(), 0);
    assert!(g.tick(1000).is_empty());
    assert_eq!(g.timer.remaining_ms(), 19_000);
}

#[test]
fn grocery_zone_bounds_are_open() {
    let z = snowglobe::grocery_zone();
    assert_eq!((z.min_x, z.max_x, z.min_y, z.max_y, z.reach), (25, 190, 90, 220, 5000));
    let mut g = game_at(GameState::PuzzleGrocery, vec![]);
    g.press_begin();
    g.pointer_moved(Point { x: 25, y: 150 });
    assert_eq!(g.pointer_up(), vec![SoundsEnum::Failure]);
    g.pointer_moved(Point { x: 26, y: 91 });
    assert_eq!(g.pointer_up(), vec![SoundsEnum::HoHoHo]);
}

#[test]
fn misses_each_cost_a_penalty_in_turn() {
    let mut g = game_at(GameState::PuzzleGrocery, vec![]);
    g.press_begin();
    g.pointer_moved(Point { x: 0, y: 0 });
    g.pointer_up();
    g.pointer_up();
    assert_eq!(g.score.pending_len(), 2);
    for _ in 0..100 {
        g.tick(1);
    }
    assert_eq!(g.score.pending_len(), 0);
    assert_eq!(g.score.current_score(), -2500);
    assert_eq!(g.score.mistakes(), 2);
}

#[test]
fn decoy_is_never_placed() {
    let mut decoy = item(-600, 100, 0, 0, false);
    decoy.target = None;
    let mut g = game_at(GameState::PuzzleWaltz, vec![decoy]);
    g.press_begin();
    let cues = drag(&mut g, Point { x: -600, y: 100 }, Point { x: i32::MAX, y: i32::MAX });
    assert_eq!(cues, vec![SoundsEnum::Failure]);
    assert!(!g.board.items[0].placed);
    assert_eq!(g.board.items[0].position, Point { x: -600, y: 100 });
}

#[test]
fn empty_board_is_not_solved_by_placing() {
    let mut g = game_at(GameState::PuzzleCranberries, vec![]);
    assert_eq!(g.board.required, 0);
    assert!(!g.board.enough_placed());
    g.press_begin();
    assert!(g.tick(16).is_empty());
    assert_eq!(g.phase, PuzzleState::InProgress);
    assert_eq!(g.score.pending_len(), 0);
    for _ in 0..20 {
        assert!(g.tick(1000).is_empty());
    }
    assert_eq!(g.phase, PuzzleState::Complete);
    assert_eq!(g.score.pending_len(), 0);
}
