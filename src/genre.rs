//! A rule-based genre guess. Each genre gains points for every rule whose
//! feature lies within the rule's bounds; the genre with the most points wins,
//! and of equal scores the one listed first.
use vstd::prelude::*;

verus! {

#[derive(Clone, Copy, Debug, PartialEq, Eq, Structural)]
pub enum Genre {
    House,
    Techno,
    DrumAndBass,
    Trance,
    Dubstep,
    HipHop,
    Rock,
    Pop,
    Ambient,
    Jazz,
}

/// The track features that the rules read.
#[derive(Clone, Copy, Debug, PartialEq, Eq, Structural)]
pub enum Feature {
    Bpm,
    Energy,
    SpectralCentroid,
    ZeroCrossingRate,
    DynamicRange,
}

/// One end of a rule's range, in thousandths of the feature's unit.
#[derive(Clone, Copy, Debug, PartialEq, Eq, Structural)]
pub struct Bound {
    pub thousandths: i64,
    pub inclusive: bool,
}

/// While `feature` lies above `low` and below `high` (an absent bound does
/// not limit), the genre gains `points` hundredths.
#[derive(Clone, Copy, Debug, PartialEq, Eq, Structural)]
pub struct GenreRule {
    pub feature: Feature,
    pub low: Option<Bound>,
    pub high: Option<Bound>,
    pub points: u32,
}

/// The genres in the order that breaks ties.
pub open spec fn genre_at(i: int) -> Genre {
    if i == 0 {
        Genre::House
    } else if i == 1 {
        Genre::Techno
    } else if i == 2 {
        Genre::DrumAndBass
    } else if i == 3 {
        Genre::Trance
    } else if i == 4 {
        Genre::Dubstep
    } else if i == 5 {
        Genre::HipHop
    } else if i == 6 {
        Genre::Rock
    } else if i == 7 {
        Genre::Pop
    } else if i == 8 {
        Genre::Ambient
    } else {
        Genre::Jazz
    }
}

pub open spec fn genre_name(g: Genre) -> Seq<char> {
    match g {
        Genre::House => "House"@,
        Genre::Techno => "Techno"@,
        Genre::DrumAndBass => "Drum & Bass"@,
        Genre::Trance => "Trance"@,
        Genre::Dubstep => "Dubstep"@,
        Genre::HipHop => "Hip Hop"@,
        Genre::Rock => "Rock"@,
        Genre::Pop => "Pop"@,
        Genre::Ambient => "Ambient"@,
        Genre::Jazz => "Jazz"@,
    }
}

pub const GENRE_COUNT: usize = 10;

pub open spec fn closed(feature: Feature, low: i64, high: i64, points: u32) -> GenreRule {
    GenreRule {
        feature,
        low: Some(Bound { thousandths: low, inclusive: true }),
        high: Some(Bound { thousandths: high, inclusive: true }),
        points,
    }
}

pub open spec fn open_range(feature: Feature, low: i64, high: i64, points: u32) -> GenreRule {
    GenreRule {
        feature,
        low: Some(Bound { thousandths: low, inclusive: false }),
        high: Some(Bound { thousandths: high, inclusive: false }),
        points,
    }
}

pub open spec fn over(feature: Feature, low: i64, points: u32) -> GenreRule {
    GenreRule {
        feature,
        low: Some(Bound { thousandths: low, inclusive: false }),
        high: None,
        points,
    }
}

pub open spec fn under(feature: Feature, high: i64, points: u32) -> GenreRule {
    GenreRule {
        feature,
        low: None,
        high: Some(Bound { thousandths: high, inclusive: false }),
        points,
    }
}

/// The rules of each genre.
pub open spec fn genre_rules(g: Genre) -> Seq<GenreRule> {
    match g {
        Genre::House => seq![
            closed(Feature::Bpm, 118000, 130000, 30),
            open_range(Feature::SpectralCentroid, 2000000, 5000000, 20),
            over(Feature::Energy, 300, 20),
            under(Feature::DynamicRange, 30000, 20),
            over(Feature::ZeroCrossingRate, 50, 10),
        ],
        Genre::Techno => seq![
            closed(Feature::Bpm, 120000, 150000, 30),
            over(Feature::SpectralCentroid, 3000000, 20),
            over(Feature::Energy, 400, 20),
            under(Feature::DynamicRange, 25000, 20),
            over(Feature::ZeroCrossingRate, 80, 10),
        ],
        Genre::DrumAndBass => seq![
            closed(Feature::Bpm, 160000, 180000, 40),
            over(Feature::Energy, 500, 20),
            over(Feature::SpectralCentroid, 4000000, 15),
            over(Feature::DynamicRange, 35000, 15),
            over(Feature::ZeroCrossingRate, 100, 10),
        ],
        Genre::Trance => seq![
            closed(Feature::Bpm, 128000, 145000, 30),
            over(Feature::Energy, 350, 20),
            over(Feature::DynamicRange, 30000, 20),
            over(Feature::SpectralCentroid, 2500000, 15),
        ],
        Genre::Dubstep => seq![
            closed(Feature::Bpm, 135000, 145000, 25),
            over(Feature::SpectralCentroid, 5000000, 20),
            over(Feature::DynamicRange, 40000, 20),
            over(Feature::ZeroCrossingRate, 120, 20),
            over(Feature::Energy, 600, 15),
        ],
        Genre::HipHop => seq![
            closed(Feature::Bpm, 80000, 110000, 30),
            over(Feature::DynamicRange, 35000, 20),
            under(Feature::SpectralCentroid, 2500000, 20),
            under(Feature::ZeroCrossingRate, 60, 15),
            under(Feature::Energy, 300, 15),
        ],
        Genre::Rock => seq![
            closed(Feature::Bpm, 100000, 140000, 25),
            over(Feature::Energy, 450, 25),
            over(Feature::DynamicRange, 35000, 20),
            over(Feature::SpectralCentroid, 3000000, 15),
            over(Feature::ZeroCrossingRate, 70, 15),
        ],
        Genre::Pop => seq![
            closed(Feature::Bpm, 100000, 130000, 30),
            open_range(Feature::Energy, 300, 600, 25),
            under(Feature::DynamicRange, 35000, 20),
            open_range(Feature::SpectralCentroid, 2000000, 4500000, 15),
            over(Feature::ZeroCrossingRate, 40, 10),
        ],
        Genre::Ambient => seq![
            under(Feature::Energy, 200, 40),
            under(Feature::DynamicRange, 25000, 25),
            under(Feature::SpectralCentroid, 2000000, 20),
            under(Feature::ZeroCrossingRate, 30, 15),
        ],
        Genre::Jazz => seq![
            closed(Feature::Bpm, 60000, 120000, 30),
            over(Feature::DynamicRange, 30000, 25),
            under(Feature::SpectralCentroid, 3000000, 20),
            under(Feature::ZeroCrossingRate, 50, 15),
        ],
    }
}

/// The points of the rules that are met, in hundredths.
pub open spec fn points_met(rules: Seq<GenreRule>, met: Seq<bool>) -> int
    decreases rules.len(),
{
    if rules.len() == 0 || met.len() == 0 {
        0
    } else {
        points_met(rules.drop_last(), met.drop_last()) + if met.last() {
            rules.last().points as int
        } else {
            0
        }
    }
}

/// The score of the genre at position `i`, given for each genre which of its
/// rules are met.
pub open spec fn score_at(met: Seq<Vec<bool>>, i: int) -> int {
    points_met(genre_rules(genre_at(i)), met[i]@)
}

/// `met` says, for each genre in order, which of its rules are met.
pub open spec fn evidence_wf(met: Seq<Vec<bool>>) -> bool {
    met.len() == 10 && forall|i: int|
        0 <= i < 10 ==> (#[trigger] met[i])@.len() == genre_rules(genre_at(i)).len()
}

fn closed_rule(feature: Feature, low: i64, high: i64, points: u32) -> (r: GenreRule)
    ensures
        r == closed(feature, low, high, points),
{
    GenreRule {
        feature,
        low: Some(Bound { thousandths: low, inclusive: true }),
        high: Some(Bound { thousandths: high, inclusive: true }),
        points,
    }
}

fn open_rule(feature: Feature, low: i64, high: i64, points: u32) -> (r: GenreRule)
    ensures
        r == open_range(feature, low, high, points),
{
    GenreRule {
        feature,
        low: Some(Bound { thousandths: low, inclusive: false }),
        high: Some(Bound { thousandths: high, inclusive: false }),
        points,
    }
}

fn over_rule(feature: Feature, low: i64, points: u32) -> (r: GenreRule)
    ensures
        r == over(feature, low, points),
{
    GenreRule { feature, low: Some(Bound { thousandths: low, inclusive: false }), high: None, points }
}

fn under_rule(feature: Feature, high: i64, points: u32) -> (r: GenreRule)
    ensures
        r == under(feature, high, points),
{
    GenreRule { feature, low: None, high: Some(Bound { thousandths: high, inclusive: false }), points }
}

impl Genre {
    /// The genre at position `i` of the tie-breaking order.
    pub fn at(i: usize) -> (r: Genre)
        requires
            i < 10,
        ensures
            r == genre_at(i as int),
    {
        match i {
            0 => Genre::House,
            1 => Genre::Techno,
            2 => Genre::DrumAndBass,
            3 => Genre::Trance,
            4 => Genre::Dubstep,
            5 => Genre::HipHop,
            6 => Genre::Rock,
            7 => Genre::Pop,
            8 => Genre::Ambient,
            _ => Genre::Jazz,
        }
    }

    /// The genre's name, such as "Drum & Bass".
    pub fn name(&self) -> (r: &'static str)
        ensures
            r@ == genre_name(*self),
    {
        match self {
            Genre::House => "House",
            Genre::Techno => "Techno",
            Genre::DrumAndBass => "Drum & Bass",
            Genre::Trance => "Trance",
            Genre::Dubstep => "Dubstep",
            Genre::HipHop => "Hip Hop",
            Genre::Rock => "Rock",
            Genre::Pop => "Pop",
            Genre::Ambient => "Ambient",
            Genre::Jazz => "Jazz",
        }
    }

    /// The genre's rules.
    pub fn rules(&self) -> (r: Vec<GenreRule>)
        ensures
            r@ == genre_rules(*self),
    {
        let r = match self {
            Genre::House => vec![
                closed_rule(Feature::Bpm, 118000, 130000, 30),
                open_rule(Feature::SpectralCentroid, 2000000, 5000000, 20),
                over_rule(Feature::Energy, 300, 20),
                under_rule(Feature::DynamicRange, 30000, 20),
                over_rule(Feature::ZeroCrossingRate, 50, 10),
            ],
            Genre::Techno => vec![
                closed_rule(Feature::Bpm, 120000, 150000, 30),
                over_rule(Feature::SpectralCentroid, 3000000, 20),
                over_rule(Feature::Energy, 400, 20),
                under_rule(Feature::DynamicRange, 25000, 20),
                over_rule(Feature::ZeroCrossingRate, 80, 10),
            ],
            Genre::DrumAndBass => vec![
                closed_rule(Feature::Bpm, 160000, 180000, 40),
                over_rule(Feature::Energy, 500, 20),
                over_rule(Feature::SpectralCentroid, 4000000, 15),
                over_rule(Feature::DynamicRange, 35000, 15),
                over_rule(Feature::ZeroCrossingRate, 100, 10),
            ],
            Genre::Trance => vec![
                closed_rule(Feature::Bpm, 128000, 145000, 30),
                over_rule(Feature::Energy, 350, 20),
                over_rule(Feature::DynamicRange, 30000, 20),
                over_rule(Feature::SpectralCentroid, 2500000, 15),
            ],
            Genre::Dubstep => vec![
                closed_rule(Feature::Bpm, 135000, 145000, 25),
                over_rule(Feature::SpectralCentroid, 5000000, 20),
                over_rule(Feature::DynamicRange, 40000, 20),
                over_rule(Feature::ZeroCrossingRate, 120, 20),
                over_rule(Feature::Energy, 600, 15),
            ],
            Genre::HipHop => vec![
                closed_rule(Feature::Bpm, 80000, 110000, 30),
                over_rule(Feature::DynamicRange, 35000, 20),
                under_rule(Feature::SpectralCentroid, 2500000, 20),
                under_rule(Feature::ZeroCrossingRate, 60, 15),
                under_rule(Feature::Energy, 300, 15),
            ],
            Genre::Rock => vec![
                closed_rule(Feature::Bpm, 100000, 140000, 25),
                over_rule(Feature::Energy, 450, 25),
                over_rule(Feature::DynamicRange, 35000, 20),
                over_rule(Feature::SpectralCentroid, 3000000, 15),
                over_rule(Feature::ZeroCrossingRate, 70, 15),
            ],
            Genre::Pop => vec![
                closed_rule(Feature::Bpm, 100000, 130000, 30),
                open_rule(Feature::Energy, 300, 600, 25),
                under_rule(Feature::DynamicRange, 35000, 20),
                open_rule(Feature::SpectralCentroid, 2000000, 4500000, 15),
                over_rule(Feature::ZeroCrossingRate, 40, 10),
            ],
            Genre::Ambient => vec![
                under_rule(Feature::Energy, 200, 40),
                under_rule(Feature::DynamicRange, 25000, 25),
                under_rule(Feature::SpectralCentroid, 2000000, 20),
                under_rule(Feature::ZeroCrossingRate, 30, 15),
            ],
            Genre::Jazz => vec![
                closed_rule(Feature::Bpm, 60000, 120000, 30),
                over_rule(Feature::DynamicRange, 30000, 25),
                under_rule(Feature::SpectralCentroid, 3000000, 20),
                under_rule(Feature::ZeroCrossingRate, 50, 15),
            ],
        };
        assert(r@ =~= genre_rules(*self));
        r
    }
}

/// The score of a genre, in hundredths: the points of its rules that `met`
/// marks as met.
pub fn genre_score(genre: Genre, met: &Vec<bool>) -> (r: u32)
    requires
        met@.len() == genre_rules(genre).len(),
    ensures
        r as int == points_met(genre_rules(genre), met@),
        r <= 200,
{
    let rules = genre.rules();
    let mut total: u32 = 0;
    let mut i: usize = 0;
    while i < rules.len()
        invariant
            i <= rules.len(),
            rules@ == genre_rules(genre),
            met@.len() == rules@.len(),
            rules@.len() <= 5,
            forall|k: int| 0 <= k < rules@.len() ==> (#[trigger] rules@[k]).points <= 40,
            total as int == points_met(rules@.subrange(0, i as int), met@.subrange(0, i as int)),
            total <= 40 * i,
        decreases rules.len() - i,
    {
        let ghost rs = rules@.subrange(0, i + 1);
        let ghost ms = met@.subrange(0, i + 1);
        assert(rs.drop_last() =~= rules@.subrange(0, i as int));
        assert(ms.drop_last() =~= met@.subrange(0, i as int));
        assert(rules@[i as int].points <= 40);
        if met[i] {
            total = total + rules[i].points;
        }
        i = i + 1;
    }
    assert(rules@.subrange(0, i as int) =~= rules@);
    assert(met@.subrange(0, i as int) =~= met@);
    total
}

/// The outcome of genre scoring.
#[derive(Clone, Copy, Debug, PartialEq, Eq, Structural)]
pub struct GenreClassification {
    pub primary_genre: Genre,
    /// The winner's score, in hundredths.
    pub genre_confidence: u32,
}

/// Scores every genre and picks the one with the highest score; of equal
/// scores the genre listed first wins. `met[i]` says which rules of the
/// genre at position `i` are met.
pub fn classify_genre(met: &Vec<Vec<bool>>) -> (r: GenreClassification)
    requires
        evidence_wf(met@),
    ensures
        exists|w: int|
            0 <= w < 10 && r.primary_genre == genre_at(w) && r.genre_confidence as int == score_at(
                met@,
                w,
            ) && (forall|i: int| 0 <= i < 10 ==> #[trigger] score_at(met@, i) <= score_at(met@, w))
                && (forall|i: int| 0 <= i < w ==> #[trigger] score_at(met@, i) < score_at(met@, w)),
{
    let mut best: usize = 0;
    let mut best_score: u32 = genre_score(Genre::at(0), &met[0]);
    let mut i: usize = 1;
    while i < GENRE_COUNT
        invariant
            1 <= i <= 10,
            best < i,
            evidence_wf(met@),
            best_score as int == score_at(met@, best as int),
            forall|k: int| 0 <= k < i ==> #[trigger] score_at(met@, k) <= best_score,
            forall|k: int| 0 <= k < best ==> #[trigger] score_at(met@, k) < best_score,
        decreases 10 - i,
    {
        assert(met@[i as int]@.len() == genre_rules(genre_at(i as int)).len());
        let s = genre_score(Genre::at(i), &met[i]);
        if s > best_score {
            best = i;
            best_score = s;
        }
        i = i + 1;
    }
    GenreClassification { primary_genre: Genre::at(best), genre_confidence: best_score }
}

} // verus!
