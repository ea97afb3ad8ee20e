//! Fixed integer-coded enumerations shared by both schema generations.
//!
//! Every wire value is a small signed integer; each enumeration carries its
//! code table both as a spec-level function and as executable decoding and
//! encoding functions proved against it.

use vstd::prelude::*;

verus! {

/// Which hand a note or slider belongs to.
#[derive(Debug, Clone, Copy, PartialEq, Eq, Structural)]
pub enum NoteColor {
    Red,
    Blue,
}

impl NoteColor {
    /// Wire code of each symbol.
    pub open spec fn spec_code(self) -> int {
        match self {
            NoteColor::Red => 0,
            NoteColor::Blue => 1,
        }
    }

    /// Symbol carried by a wire code, if any.
    pub open spec fn spec_of_code(c: int) -> Option<NoteColor> {
        if c == 0 {
            Some(NoteColor::Red)
        } else if c == 1 {
            Some(NoteColor::Blue)
        } else {
            None
        }
    }

    pub fn of_code(c: i64) -> (r: Option<NoteColor>)
        ensures
            r == NoteColor::spec_of_code(c as int),
    {
        if c == 0 {
            Some(NoteColor::Red)
        } else if c == 1 {
            Some(NoteColor::Blue)
        } else {
            None
        }
    }

    pub fn code(&self) -> (r: i64)
        ensures
            r == self.spec_code(),
    {
        match self {
            NoteColor::Red => 0,
            NoteColor::Blue => 1,
        }
    }
}

/// Cut direction of a note.
#[derive(Debug, Clone, Copy, PartialEq, Eq, Structural)]
pub enum Direction {
    Up,
    Down,
    Left,
    Right,
    UpLeft,
    UpRight,
    DownLeft,
    DownRight,
    Any,
}

impl Direction {
    pub open spec fn spec_code(self) -> int {
        match self {
            Direction::Up => 0,
            Direction::Down => 1,
            Direction::Left => 2,
            Direction::Right => 3,
            Direction::UpLeft => 4,
            Direction::UpRight => 5,
            Direction::DownLeft => 6,
            Direction::DownRight => 7,
            Direction::Any => 8,
        }
    }

    pub open spec fn spec_of_code(c: int) -> Option<Direction> {
        if c == 0 {
            Some(Direction::Up)
        } else if c == 1 {
            Some(Direction::Down)
        } else if c == 2 {
            Some(Direction::Left)
        } else if c == 3 {
            Some(Direction::Right)
        } else if c == 4 {
            Some(Direction::UpLeft)
        } else if c == 5 {
            Some(Direction::UpRight)
        } else if c == 6 {
            Some(Direction::DownLeft)
        } else if c == 7 {
            Some(Direction::DownRight)
        } else if c == 8 {
            Some(Direction::Any)
        } else {
            None
        }
    }

    pub fn of_code(c: i64) -> (r: Option<Direction>)
        ensures
            r == Direction::spec_of_code(c as int),
    {
        if c == 0 {
            Some(Direction::Up)
        } else if c == 1 {
            Some(Direction::Down)
        } else if c == 2 {
            Some(Direction::Left)
        } else if c == 3 {
            Some(Direction::Right)
        } else if c == 4 {
            Some(Direction::UpLeft)
        } else if c == 5 {
            Some(Direction::UpRight)
        } else if c == 6 {
            Some(Direction::DownLeft)
        } else if c == 7 {
            Some(Direction::DownRight)
        } else if c == 8 {
            Some(Direction::Any)
        } else {
            None
        }
    }

    pub fn code(&self) -> (r: i64)
        ensures
            r == self.spec_code(),
    {
        match self {
            Direction::Up => 0,
            Direction::Down => 1,
            Direction::Left => 2,
            Direction::Right => 3,
            Direction::UpLeft => 4,
            Direction::UpRight => 5,
            Direction::DownLeft => 6,
            Direction::DownRight => 7,
            Direction::Any => 8,
        }
    }
}

/// How a slider bends between its two anchors.
#[derive(Debug, Clone, Copy, PartialEq, Eq, Structural)]
pub enum SliderMidAnchorMode {
    Straight,
    Clockwise,
    CounterClockwise,
}

impl SliderMidAnchorMode {
    pub open spec fn spec_code(self) -> int {
        match self {
            SliderMidAnchorMode::Straight => 0,
            SliderMidAnchorMode::Clockwise => 1,
            SliderMidAnchorMode::CounterClockwise => 2,
        }
    }

    pub open spec fn spec_of_code(c: int) -> Option<SliderMidAnchorMode> {
        if c == 0 {
            Some(SliderMidAnchorMode::Straight)
        } else if c == 1 {
            Some(SliderMidAnchorMode::Clockwise)
        } else if c == 2 {
            Some(SliderMidAnchorMode::CounterClockwise)
        } else {
            None
        }
    }

    pub fn of_code(c: i64) -> (r: Option<SliderMidAnchorMode>)
        ensures
            r == SliderMidAnchorMode::spec_of_code(c as int),
    {
        if c == 0 {
            Some(SliderMidAnchorMode::Straight)
        } else if c == 1 {
            Some(SliderMidAnchorMode::Clockwise)
        } else if c == 2 {
            Some(SliderMidAnchorMode::CounterClockwise)
        } else {
            None
        }
    }

    pub fn code(&self) -> (r: i64)
        ensures
            r == self.spec_code(),
    {
        match self {
            SliderMidAnchorMode::Straight => 0,
            SliderMidAnchorMode::Clockwise => 1,
            SliderMidAnchorMode::CounterClockwise => 2,
        }
    }
}

/// How a light rotation event relates to the previous one.
#[derive(Debug, Clone, Copy, PartialEq, Eq, Structural)]
pub enum RotationBehaviour {
    Transition,
    Extend,
}

impl RotationBehaviour {
    pub open spec fn spec_code(self) -> int {
        match self {
            RotationBehaviour::Transition => 0,
            RotationBehaviour::Extend => 1,
        }
    }

    pub open spec fn spec_of_code(c: int) -> Option<RotationBehaviour> {
        if c == 0 {
            Some(RotationBehaviour::Transition)
        } else if c == 1 {
            Some(RotationBehaviour::Extend)
        } else {
            None
        }
    }

    pub fn of_code(c: i64) -> (r: Option<RotationBehaviour>)
        ensures
            r == RotationBehaviour::spec_of_code(c as int),
    {
        if c == 0 {
            Some(RotationBehaviour::Transition)
        } else if c == 1 {
            Some(RotationBehaviour::Extend)
        } else {
            None
        }
    }

    pub fn code(&self) -> (r: i64)
        ensures
            r == self.spec_code(),
    {
        match self {
            RotationBehaviour::Transition => 0,
            RotationBehaviour::Extend => 1,
        }
    }
}

/// Spin direction of a light rotation.
#[derive(Debug, Clone, Copy, PartialEq, Eq, Structural)]
pub enum RotationDirection {
    Automatic,
    Clockwise,
    CounterClockwise,
}

impl RotationDirection {
    pub open spec fn spec_code(self) -> int {
        match self {
            RotationDirection::Automatic => 0,
            RotationDirection::Clockwise => 1,
            RotationDirection::CounterClockwise => 2,
        }
    }

    pub open spec fn spec_of_code(c: int) -> Option<RotationDirection> {
        if c == 0 {
            Some(RotationDirection::Automatic)
        } else if c == 1 {
            Some(RotationDirection::Clockwise)
        } else if c == 2 {
            Some(RotationDirection::CounterClockwise)
        } else {
            None
        }
    }

    pub fn of_code(c: i64) -> (r: Option<RotationDirection>)
        ensures
            r == RotationDirection::spec_of_code(c as int),
    {
        if c == 0 {
            Some(RotationDirection::Automatic)
        } else if c == 1 {
            Some(RotationDirection::Clockwise)
        } else if c == 2 {
            Some(RotationDirection::CounterClockwise)
        } else {
            None
        }
    }

    pub fn code(&self) -> (r: i64)
        ensures
            r == self.spec_code(),
    {
        match self {
            RotationDirection::Automatic => 0,
            RotationDirection::Clockwise => 1,
            RotationDirection::CounterClockwise => 2,
        }
    }
}

/// How a lane distributes its value across the fixtures it covers.
#[derive(Debug, Clone, Copy, PartialEq, Eq, Structural)]
pub enum DistributionKind {
    Wave,
    Step,
}

impl DistributionKind {
    pub open spec fn spec_code(self) -> int {
        match self {
            DistributionKind::Wave => 1,
            DistributionKind::Step => 2,
        }
    }

    pub open spec fn spec_of_code(c: int) -> Option<DistributionKind> {
        if c == 1 {
            Some(DistributionKind::Wave)
        } else if c == 2 {
            Some(DistributionKind::Step)
        } else {
            None
        }
    }

    pub fn of_code(c: i64) -> (r: Option<DistributionKind>)
        ensures
            r == DistributionKind::spec_of_code(c as int),
    {
        if c == 1 {
            Some(DistributionKind::Wave)
        } else if c == 2 {
            Some(DistributionKind::Step)
        } else {
            None
        }
    }

    pub fn code(&self) -> (r: i64)
        ensures
            r == self.spec_code(),
    {
        match self {
            DistributionKind::Wave => 1,
            DistributionKind::Step => 2,
        }
    }
}

/// Easing curve applied to a distribution or rotation.
#[derive(Debug, Clone, Copy, PartialEq, Eq, Structural)]
pub enum Easing {
    NoEasing,
    Linear,
    EaseInQuad,
    EaseOutQuad,
    EaseInOutQuad,
}

impl Easing {
    pub open spec fn spec_code(self) -> int {
        match self {
            Easing::NoEasing => -1,
            Easing::Linear => 0,
            Easing::EaseInQuad => 1,
            Easing::EaseOutQuad => 2,
            Easing::EaseInOutQuad => 3,
        }
    }

    pub open spec fn spec_of_code(c: int) -> Option<Easing> {
        if c == -1 {
            Some(Easing::NoEasing)
        } else if c == 0 {
            Some(Easing::Linear)
        } else if c == 1 {
            Some(Easing::EaseInQuad)
        } else if c == 2 {
            Some(Easing::EaseOutQuad)
        } else if c == 3 {
            Some(Easing::EaseInOutQuad)
        } else {
            None
        }
    }

    pub fn of_code(c: i64) -> (r: Option<Easing>)
        ensures
            r == Easing::spec_of_code(c as int),
    {
        if c == -1 {
            Some(Easing::NoEasing)
        } else if c == 0 {
            Some(Easing::Linear)
        } else if c == 1 {
            Some(Easing::EaseInQuad)
        } else if c == 2 {
            Some(Easing::EaseOutQuad)
        } else if c == 3 {
            Some(Easing::EaseInOutQuad)
        } else {
            None
        }
    }

    pub fn code(&self) -> (r: i64)
        ensures
            r == self.spec_code(),
    {
        match self {
            Easing::NoEasing => -1,
            Easing::Linear => 0,
            Easing::EaseInQuad => 1,
            Easing::EaseOutQuad => 2,
            Easing::EaseInOutQuad => 3,
        }
    }
}

/// Rotation axis of a light fixture.
#[derive(Debug, Clone, Copy, PartialEq, Eq, Structural)]
pub enum Axis {
    X,
    Y,
    Z,
}

impl Axis {
    pub open spec fn spec_code(self) -> int {
        match self {
            Axis::X => 0,
            Axis::Y => 1,
            Axis::Z => 2,
        }
    }

    pub open spec fn spec_of_code(c: int) -> Option<Axis> {
        if c == 0 {
            Some(Axis::X)
        } else if c == 1 {
            Some(Axis::Y)
        } else if c == 2 {
            Some(Axis::Z)
        } else {
            None
        }
    }

    pub fn of_code(c: i64) -> (r: Option<Axis>)
        ensures
            r == Axis::spec_of_code(c as int),
    {
        if c == 0 {
            Some(Axis::X)
        } else if c == 1 {
            Some(Axis::Y)
        } else if c == 2 {
            Some(Axis::Z)
        } else {
            None
        }
    }

    pub fn code(&self) -> (r: i64)
        ensures
            r == self.spec_code(),
    {
        match self {
            Axis::X => 0,
            Axis::Y => 1,
            Axis::Z => 2,
        }
    }
}

/// How a light color event reaches its target value.
#[derive(Debug, Clone, Copy, PartialEq, Eq, Structural)]
pub enum TransitionKind {
    Instant,
    Transition,
    Extend,
}

impl TransitionKind {
    pub open spec fn spec_code(self) -> int {
        match self {
            TransitionKind::Instant => 0,
            TransitionKind::Transition => 1,
            TransitionKind::Extend => 2,
        }
    }

    pub open spec fn spec_of_code(c: int) -> Option<TransitionKind> {
        if c == 0 {
            Some(TransitionKind::Instant)
        } else if c == 1 {
            Some(TransitionKind::Transition)
        } else if c == 2 {
            Some(TransitionKind::Extend)
        } else {
            None
        }
    }

    pub fn of_code(c: i64) -> (r: Option<TransitionKind>)
        ensures
            r == TransitionKind::spec_of_code(c as int),
    {
        if c == 0 {
            Some(TransitionKind::Instant)
        } else if c == 1 {
            Some(TransitionKind::Transition)
        } else if c == 2 {
            Some(TransitionKind::Extend)
        } else {
            None
        }
    }

    pub fn code(&self) -> (r: i64)
        ensures
            r == self.spec_code(),
    {
        match self {
            TransitionKind::Instant => 0,
            TransitionKind::Transition => 1,
            TransitionKind::Extend => 2,
        }
    }
}

/// Color of a light.
#[derive(Debug, Clone, Copy, PartialEq, Eq, Structural)]
pub enum LightColor {
    Red,
    Blue,
    White,
}

impl LightColor {
    pub open spec fn spec_code(self) -> int {
        match self {
            LightColor::Red => 0,
            LightColor::Blue => 1,
            LightColor::White => 2,
        }
    }

    pub open spec fn spec_of_code(c: int) -> Option<LightColor> {
        if c == 0 {
            Some(LightColor::Red)
        } else if c == 1 {
            Some(LightColor::Blue)
        } else if c == 2 {
            Some(LightColor::White)
        } else {
            None
        }
    }

    pub fn of_code(c: i64) -> (r: Option<LightColor>)
        ensures
            r == LightColor::spec_of_code(c as int),
    {
        if c == 0 {
            Some(LightColor::Red)
        } else if c == 1 {
            Some(LightColor::Blue)
        } else if c == 2 {
            Some(LightColor::White)
        } else {
            None
        }
    }

    pub fn code(&self) -> (r: i64)
        ensures
            r == self.spec_code(),
    {
        match self {
            LightColor::Red => 0,
            LightColor::Blue => 1,
            LightColor::White => 2,
        }
    }
}

/// Traversal order of the fixture chunks a filter selects.
#[derive(Debug, Clone, Copy, PartialEq, Eq, Structural)]
pub enum BoxFilterOrdering {
    Standard1,
    Standard2,
    Random,
    RandomStartingIndex,
}

impl BoxFilterOrdering {
    pub open spec fn spec_code(self) -> int {
        match self {
            BoxFilterOrdering::Standard1 => 0,
            BoxFilterOrdering::Standard2 => 1,
            BoxFilterOrdering::Random => 2,
            BoxFilterOrdering::RandomStartingIndex => 3,
        }
    }

    pub open spec fn spec_of_code(c: int) -> Option<BoxFilterOrdering> {
        if c == 0 {
            Some(BoxFilterOrdering::Standard1)
        } else if c == 1 {
            Some(BoxFilterOrdering::Standard2)
        } else if c == 2 {
            Some(BoxFilterOrdering::Random)
        } else if c == 3 {
            Some(BoxFilterOrdering::RandomStartingIndex)
        } else {
            None
        }
    }

    pub fn of_code(c: i64) -> (r: Option<BoxFilterOrdering>)
        ensures
            r == BoxFilterOrdering::spec_of_code(c as int),
    {
        if c == 0 {
            Some(BoxFilterOrdering::Standard1)
        } else if c == 1 {
            Some(BoxFilterOrdering::Standard2)
        } else if c == 2 {
            Some(BoxFilterOrdering::Random)
        } else if c == 3 {
            Some(BoxFilterOrdering::RandomStartingIndex)
        } else {
            None
        }
    }

    pub fn code(&self) -> (r: i64)
        ensures
            r == self.spec_code(),
    {
        match self {
            BoxFilterOrdering::Standard1 => 0,
            BoxFilterOrdering::Standard2 => 1,
            BoxFilterOrdering::Random => 2,
            BoxFilterOrdering::RandomStartingIndex => 3,
        }
    }
}

/// What a filter's limit value applies to.
#[derive(Debug, Clone, Copy, PartialEq, Eq, Structural)]
pub enum LimitKind {
    Sections,
    SectionsDuration,
    SectionsBrightness,
    SectionsDurationBrightness,
}

impl LimitKind {
    pub open spec fn spec_code(self) -> int {
        match self {
            LimitKind::Sections => 0,
            LimitKind::SectionsDuration => 1,
            LimitKind::SectionsBrightness => 2,
            LimitKind::SectionsDurationBrightness => 3,
        }
    }

    pub open spec fn spec_of_code(c: int) -> Option<LimitKind> {
        if c == 0 {
            Some(LimitKind::Sections)
        } else if c == 1 {
            Some(LimitKind::SectionsDuration)
        } else if c == 2 {
            Some(LimitKind::SectionsBrightness)
        } else if c == 3 {
            Some(LimitKind::SectionsDurationBrightness)
        } else {
            None
        }
    }

    pub fn of_code(c: i64) -> (r: Option<LimitKind>)
        ensures
            r == LimitKind::spec_of_code(c as int),
    {
        if c == 0 {
            Some(LimitKind::Sections)
        } else if c == 1 {
            Some(LimitKind::SectionsDuration)
        } else if c == 2 {
            Some(LimitKind::SectionsBrightness)
        } else if c == 3 {
            Some(LimitKind::SectionsDurationBrightness)
        } else {
            None
        }
    }

    pub fn code(&self) -> (r: i64)
        ensures
            r == self.spec_code(),
    {
        match self {
            LimitKind::Sections => 0,
            LimitKind::SectionsDuration => 1,
            LimitKind::SectionsBrightness => 2,
            LimitKind::SectionsDurationBrightness => 3,
        }
    }
}

/// Which of the two filter parameter shapes a filter uses.
#[derive(Debug, Clone, Copy, PartialEq, Eq, Structural)]
pub enum BoxFilterKind {
    Sections,
    StepAndOffset,
}

impl BoxFilterKind {
    pub open spec fn spec_code(self) -> int {
        match self {
            BoxFilterKind::Sections => 1,
            BoxFilterKind::StepAndOffset => 2,
        }
    }

    pub open spec fn spec_of_code(c: int) -> Option<BoxFilterKind> {
        if c == 1 {
            Some(BoxFilterKind::Sections)
        } else if c == 2 {
            Some(BoxFilterKind::StepAndOffset)
        } else {
            None
        }
    }

    pub fn of_code(c: i64) -> (r: Option<BoxFilterKind>)
        ensures
            r == BoxFilterKind::spec_of_code(c as int),
    {
        if c == 1 {
            Some(BoxFilterKind::Sections)
        } else if c == 2 {
            Some(BoxFilterKind::StepAndOffset)
        } else {
            None
        }
    }

    pub fn code(&self) -> (r: i64)
        ensures
            r == self.spec_code(),
    {
        match self {
            BoxFilterKind::Sections => 1,
            BoxFilterKind::StepAndOffset => 2,
        }
    }
}

/// Named difficulty tier of a beatmap.
#[derive(Debug, Clone, Copy, PartialEq, Eq, Structural)]
pub enum Difficulty {
    Easy,
    Normal,
    Hard,
    Expert,
    ExpertPlus,
}

impl Difficulty {
    /// Conventional rank number of each tier.
    pub open spec fn spec_rank(self) -> int {
        match self {
            Difficulty::Easy => 1,
            Difficulty::Normal => 3,
            Difficulty::Hard => 5,
            Difficulty::Expert => 7,
            Difficulty::ExpertPlus => 9,
        }
    }


    /// Difficulty named by its wire string, if any.
    pub open spec fn spec_of_name(s: Seq<char>) -> Option<Difficulty> {
        if s == "Easy"@ {
            Some(Difficulty::Easy)
        } else if s == "Normal"@ {
            Some(Difficulty::Normal)
        } else if s == "Hard"@ {
            Some(Difficulty::Hard)
        } else if s == "Expert"@ {
            Some(Difficulty::Expert)
        } else if s == "ExpertPlus"@ {
            Some(Difficulty::ExpertPlus)
        } else {
            None
        }
    }

    pub fn of_name(s: &String) -> (r: Option<Difficulty>)
        ensures
            r == Difficulty::spec_of_name(s@),
    {
        if *s == String::from_str("Easy") {
            Some(Difficulty::Easy)
        } else if *s == String::from_str("Normal") {
            Some(Difficulty::Normal)
        } else if *s == String::from_str("Hard") {
            Some(Difficulty::Hard)
        } else if *s == String::from_str("Expert") {
            Some(Difficulty::Expert)
        } else if *s == String::from_str("ExpertPlus") {
            Some(Difficulty::ExpertPlus)
        } else {
            None
        }
    }

    pub fn rank(&self) -> (r: i32)
        ensures
            r == self.spec_rank(),
    {
        match self {
            Difficulty::Easy => 1,
            Difficulty::Normal => 3,
            Difficulty::Hard => 5,
            Difficulty::Expert => 7,
            Difficulty::ExpertPlus => 9,
        }
    }
}

} // verus!
