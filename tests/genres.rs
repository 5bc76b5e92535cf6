use jellyfin_audio::genre::{classify_genre, genre_score, Feature, Genre};

fn genres() -> Vec<Genre> {
    (0..10).map(Genre::at).collect()
}

fn evidence(pick: impl Fn(Genre) -> bool) -> Vec<Vec<bool>> {
    genres().into_iter().map(|g| vec![pick(g); g.rules().len()]).collect()
}

#[test]
fn genre_order_and_names() {
    let names: Vec<&str> = genres().iter().map(|g| g.name()).collect();
    assert_eq!(
        names,
        vec![
            "House", "Techno", "Drum & Bass", "Trance", "Dubstep", "Hip Hop", "Rock", "Pop",
            "Ambient", "Jazz"
        ]
    );
}

#[test]
fn each_genre_sums_to_its_full_score() {
    let full = [100, 100, 100, 85, 100, 100, 100, 100, 100, 90];
    for (g, want) in genres().into_iter().zip(full) {
        let met = vec![true; g.rules().len()];
        assert_eq!(genre_score(g, &met), want, "{:?}", g);
    }
}

#[test]
fn partial_scores() {
    assert_eq!(genre_score(Genre::House, &vec![true, false, true, false, false]), 50);
    assert_eq!(genre_score(Genre::DrumAndBass, &vec![true, false, false, false, true]), 50);
    assert_eq!(genre_score(Genre::Ambient, &vec![false; 4]), 0);
}

#[test]
fn house_rules_read_as_written() {
    let rules = Genre::House.rules();
    assert_eq!(rules[0].feature, Feature::Bpm);
    let low = rules[0].low.unwrap();
    let high = rules[0].high.unwrap();
    assert_eq!((low.thousandths, low.inclusive), (118000, true));
    assert_eq!((high.thousandths, high.inclusive), (130000, true));
    assert_eq!(rules[0].points, 30);
    assert_eq!(rules[2].feature, Feature::Energy);
    assert_eq!(rules[2].low.unwrap().thousandths, 300);
    assert!(!rules[2].low.unwrap().inclusive);
    assert!(rules[2].high.is_none());
}

#[test]
fn nothing_met_gives_the_first_genre() {
    let r = classify_genre(&evidence(|_| false));
    assert_eq!(r.primary_genre, Genre::House);
    assert_eq!(r.genre_confidence, 0);
}

#[test]
fn ties_go_to_the_genre_listed_first() {
    let r = classify_genre(&evidence(|_| true));
    assert_eq!(r.primary_genre, Genre::House);
    assert_eq!(r.genre_confidence, 100);
    let r = classify_genre(&evidence(|g| g == Genre::Ambient || g == Genre::Pop));
    assert_eq!(r.primary_genre, Genre::Pop);
}

#[test]
fn highest_score_wins() {
    let r = classify_genre(&evidence(|g| g == Genre::Ambient));
    assert_eq!(r.primary_genre, Genre::Ambient);
    assert_eq!(r.genre_confidence, 100);
    let r = classify_genre(&evidence(|g| g == Genre::Jazz || g == Genre::Trance));
    assert_eq!(r.primary_genre, Genre::Jazz);
    assert_eq!(r.genre_confidence, 90);
}
