use vstd::prelude::*;

verus! {

/// The stages of the game, in the order they are played.
#[derive(Clone, Copy, Debug, PartialEq, Eq, Structural)]
pub enum GameState {
    TitleScreen,
    Instructions,
    PuzzleTurkeyMistletoe,
    PuzzlePeriodicTable,
    PuzzleWaltz,
    PuzzleReindeer,
    PuzzleGrocery,
    PuzzleTwelveDays,
    PuzzleFamilyTree,
    PuzzleCranberries,
    ShowScore,
}

/// The phase of a puzzle stage.
#[derive(Clone, Copy, Debug, PartialEq, Eq, Structural)]
pub enum PuzzleState {
    GetReady,
    InProgress,
    Complete,
}

/// The sound cues the game asks for.
#[derive(Clone, Copy, Debug, PartialEq, Eq, Structural)]
pub enum SoundsEnum {
    TitleScreen,
    HoHoHo,
    Success,
    Failure,
    TurkeyMistletoeSong,
    PeriodicTableSong,
    TwelveDaysSong,
    ReindeerSong,
    WaltzSong,
    GrocerySong,
    FamilyTreeSong,
    CranberriesSong,
    MerryChristmas,
}

/// The place of a stage in the order of play.
pub open spec fn rank(s: GameState) -> nat {
    match s {
        GameState::TitleScreen => 0,
        GameState::Instructions => 1,
        GameState::PuzzleTurkeyMistletoe => 2,
        GameState::PuzzlePeriodicTable => 3,
        GameState::PuzzleWaltz => 4,
        GameState::PuzzleReindeer => 5,
        GameState::PuzzleGrocery => 6,
        GameState::PuzzleTwelveDays => 7,
        GameState::PuzzleFamilyTree => 8,
        GameState::PuzzleCranberries => 9,
        GameState::ShowScore => 10,
    }
}

/// The stages that hold a puzzle.
pub open spec fn puzzle_stage(s: GameState) -> bool {
    !(s == GameState::TitleScreen || s == GameState::Instructions || s == GameState::ShowScore)
}

/// Tells whether a stage holds a puzzle.
pub fn is_puzzle(s: GameState) -> (r: bool)
    ensures
        r == puzzle_stage(s),
{
    match s {
        GameState::TitleScreen | GameState::Instructions | GameState::ShowScore => false,
        _ => true,
    }
}

/// The stage that follows `s` in the order of play (the final score screen is the last).
pub open spec fn successor(s: GameState) -> Option<GameState> {
    match s {
        GameState::TitleScreen => Some(GameState::Instructions),
        GameState::Instructions => Some(GameState::PuzzleTurkeyMistletoe),
        GameState::PuzzleTurkeyMistletoe => Some(GameState::PuzzlePeriodicTable),
        GameState::PuzzlePeriodicTable => Some(GameState::PuzzleWaltz),
        GameState::PuzzleWaltz => Some(GameState::PuzzleReindeer),
        GameState::PuzzleReindeer => Some(GameState::PuzzleGrocery),
        GameState::PuzzleGrocery => Some(GameState::PuzzleTwelveDays),
        GameState::PuzzleTwelveDays => Some(GameState::PuzzleFamilyTree),
        GameState::PuzzleFamilyTree => Some(GameState::PuzzleCranberries),
        GameState::PuzzleCranberries => Some(GameState::ShowScore),
        GameState::ShowScore => None,
    }
}

/// The order of play is linear: each stage but the last is followed by the stage of the
/// next rank, and the final score screen by none.
pub proof fn lemma_successor_is_next_rank(s: GameState)
    ensures
        s == GameState::ShowScore <==> successor(s) is None,
        successor(s) matches Some(n) ==> rank(n) == rank(s) + 1,
{
}

/// The stage that follows `s`; the final score screen has none.
pub fn next_stage(s: GameState) -> (r: Option<GameState>)
    ensures
        r == successor(s),
{
    match s {
        GameState::TitleScreen => Some(GameState::Instructions),
        GameState::Instructions => Some(GameState::PuzzleTurkeyMistletoe),
        GameState::PuzzleTurkeyMistletoe => Some(GameState::PuzzlePeriodicTable),
        GameState::PuzzlePeriodicTable => Some(GameState::PuzzleWaltz),
        GameState::PuzzleWaltz => Some(GameState::PuzzleReindeer),
        GameState::PuzzleReindeer => Some(GameState::PuzzleGrocery),
        GameState::PuzzleGrocery => Some(GameState::PuzzleTwelveDays),
        GameState::PuzzleTwelveDays => Some(GameState::PuzzleFamilyTree),
        GameState::PuzzleFamilyTree => Some(GameState::PuzzleCranberries),
        GameState::PuzzleCranberries => Some(GameState::ShowScore),
        GameState::ShowScore => None,
    }
}

/// Each stage has a stage of its own rank, so the order of play is total.
pub proof fn lemma_rank_identifies_stage(a: GameState, b: GameState)
    requires
        rank(a) == rank(b),
    ensures
        a == b,
{
}

/// Seconds on a stage's countdown.
pub open spec fn duration_secs(s: GameState) -> nat {
    match s {
        GameState::TitleScreen | GameState::Instructions | GameState::ShowScore => 0,
        GameState::PuzzleFamilyTree => 27,
        GameState::PuzzleTwelveDays | GameState::PuzzleReindeer => 60,
        _ => 20,
    }
}

/// Returns the seconds on a stage's countdown.
pub fn stage_duration_secs(s: GameState) -> (r: u64)
    ensures
        r == duration_secs(s),
{
    match s {
        GameState::TitleScreen | GameState::Instructions | GameState::ShowScore => 0,
        GameState::PuzzleFamilyTree => 27,
        GameState::PuzzleTwelveDays | GameState::PuzzleReindeer => 60,
        _ => 20,
    }
}

/// The theme played once a stage's puzzle begins.
pub open spec fn theme_of(s: GameState) -> Option<SoundsEnum> {
    match s {
        GameState::PuzzleTurkeyMistletoe => Some(SoundsEnum::TurkeyMistletoeSong),
        GameState::PuzzlePeriodicTable => Some(SoundsEnum::PeriodicTableSong),
        GameState::PuzzleTwelveDays => Some(SoundsEnum::TwelveDaysSong),
        GameState::PuzzleWaltz => Some(SoundsEnum::WaltzSong),
        GameState::PuzzleReindeer => Some(SoundsEnum::ReindeerSong),
        GameState::PuzzleGrocery => Some(SoundsEnum::GrocerySong),
        GameState::PuzzleCranberries => Some(SoundsEnum::CranberriesSong),
        GameState::PuzzleFamilyTree => Some(SoundsEnum::FamilyTreeSong),
        _ => None,
    }
}

/// Returns the theme played once a stage's puzzle begins.
pub fn theme_song(s: GameState) -> (r: Option<SoundsEnum>)
    ensures
        r == theme_of(s),
{
    match s {
        GameState::PuzzleTurkeyMistletoe => Some(SoundsEnum::TurkeyMistletoeSong),
        GameState::PuzzlePeriodicTable => Some(SoundsEnum::PeriodicTableSong),
        GameState::PuzzleTwelveDays => Some(SoundsEnum::TwelveDaysSong),
        GameState::PuzzleWaltz => Some(SoundsEnum::WaltzSong),
        GameState::PuzzleReindeer => Some(SoundsEnum::ReindeerSong),
        GameState::PuzzleGrocery => Some(SoundsEnum::GrocerySong),
        GameState::PuzzleCranberries => Some(SoundsEnum::CranberriesSong),
        GameState::PuzzleFamilyTree => Some(SoundsEnum::FamilyTreeSong),
        _ => None,
    }
}

/// Seconds before the end of a stage's countdown at which its answers are shown.
pub open spec fn reveal_secs(s: GameState) -> nat {
    match s {
        GameState::TitleScreen | GameState::Instructions | GameState::ShowScore => 0,
        GameState::PuzzleFamilyTree => 5,
        GameState::PuzzleCranberries => 4,
        _ => 3,
    }
}

/// Returns the seconds before the end of a stage's countdown at which its answers are shown.
pub fn answer_reveal_secs(s: GameState) -> (r: u64)
    ensures
        r == reveal_secs(s),
{
    match s {
        GameState::TitleScreen | GameState::Instructions | GameState::ShowScore => 0,
        GameState::PuzzleFamilyTree => 5,
        GameState::PuzzleCranberries => 4,
        _ => 3,
    }
}

/// The cues that play until stopped rather than once.
pub open spec fn looping(c: SoundsEnum) -> bool {
    c == SoundsEnum::TwelveDaysSong || c == SoundsEnum::ReindeerSong || c == SoundsEnum::FamilyTreeSong
}

impl SoundsEnum {
    /// Tells whether the cue plays in a loop until stopped (otherwise it plays once).
    pub fn loops(&self) -> (r: bool)
        ensures
            r == looping(*self),
    {
        match self {
            SoundsEnum::TwelveDaysSong | SoundsEnum::ReindeerSong | SoundsEnum::FamilyTreeSong => true,
            _ => false,
        }
    }
}

/// The pages of the instructions screen.
#[derive(Clone, Copy, Debug, PartialEq, Eq, Structural)]
pub enum InstructionScreenEnum {
    ScreenOne,
    ScreenTwo,
    ScreenThree,
}

impl InstructionScreenEnum {
    /// The page shown after a press of the button, or `None` where the press starts the first puzzle.
    pub fn press(self) -> (r: Option<InstructionScreenEnum>)
        ensures
            self == InstructionScreenEnum::ScreenOne ==> r == Some(InstructionScreenEnum::ScreenTwo),
            self == InstructionScreenEnum::ScreenTwo ==> r == Some(InstructionScreenEnum::ScreenThree),
            self == InstructionScreenEnum::ScreenThree ==> r is None,
    {
        match self {
            InstructionScreenEnum::ScreenOne => Some(InstructionScreenEnum::ScreenTwo),
            InstructionScreenEnum::ScreenTwo => Some(InstructionScreenEnum::ScreenThree),
            InstructionScreenEnum::ScreenThree => None,
        }
    }
}

} // verus!
