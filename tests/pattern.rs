use eb_rs::geometry::{primary_display, Display, Grid, ScreenGeometry};
use eb_rs::pattern::{Pattern, PatternRecognition, PatternStatus, RectanglePattern, SampleOutcome};

fn center(cell: (u8, u8)) -> (i32, i32) {
    (200 * cell.0 as i32 + 100, 200 * cell.1 as i32 + 100)
}

fn clockwise_walk() -> Vec<(u8, u8)> {
    vec![
        (1, 0),
        (2, 0),
        (3, 0),
        (4, 0),
        (5, 0),
        (5, 1),
        (5, 2),
        (4, 2),
        (3, 2),
        (2, 2),
        (1, 2),
        (0, 2),
        (0, 1),
        (0, 0),
    ]
}

#[test]
fn wrong_move_after_skipping_a_cell() {
    let mut p = RectanglePattern::new(600, 1200);
    assert_eq!(p.check_position(100, 100), PatternStatus::PatternProgressing);
    assert_eq!(p.check_position(300, 50), PatternStatus::PatternProgressing);
    assert_eq!(p.check_position(500, 50), PatternStatus::PatternProgressing);
    assert_eq!(p.check_position(100, 100), PatternStatus::WrongPattern);
    p.reset_visited();
    let mut fresh = RectanglePattern::new(600, 1200);
    for cell in clockwise_walk() {
        let (x, y) = center(cell);
        assert_eq!(p.check_position(x, y), fresh.check_position(x, y));
    }
}

#[test]
fn full_clockwise_walk_completes_on_last_waypoint() {
    let mut p = RectanglePattern::new(600, 1200);
    let walk = clockwise_walk();
    assert_eq!(walk.len(), 2 * (6 - 1) + 2 * (3 - 1));
    let mut verdicts = Vec::new();
    for cell in walk {
        let (x, y) = center(cell);
        verdicts.push(p.check_position(x, y));
    }
    let progressing = verdicts.iter().filter(|v| **v == PatternStatus::PatternProgressing).count();
    assert_eq!(progressing, 13);
    assert_eq!(verdicts[13], PatternStatus::PatternFinished);
}

#[test]
fn lingering_in_the_current_cell_keeps_progressing() {
    let mut p = RectanglePattern::new(600, 1200);
    for k in 0..50 {
        assert_eq!(p.check_position(10 + k, 190 - k), PatternStatus::PatternProgressing);
    }
    assert_eq!(p.check_position(300, 100), PatternStatus::PatternProgressing);
    for _ in 0..20 {
        assert_eq!(p.check_position(250, 150), PatternStatus::PatternProgressing);
    }
    assert_eq!(p.check_position(500, 100), PatternStatus::PatternProgressing);
}

#[test]
fn sample_on_a_shared_edge_counts_for_the_current_cell() {
    let mut p = RectanglePattern::new(600, 1200);
    assert_eq!(p.check_position(200, 100), PatternStatus::PatternProgressing);
    // still in the start cell: the next cell after (1, 0) is not reached
    assert_eq!(p.check_position(500, 100), PatternStatus::WrongPattern);
}

#[test]
fn sample_outside_the_corridor_is_a_wrong_move() {
    let mut p = RectanglePattern::new(600, 1200);
    assert_eq!(p.check_position(100, 300), PatternStatus::WrongPattern);
    assert_eq!(p.check_position(-1, 100), PatternStatus::WrongPattern);
    assert_eq!(p.check_position(700, 500), PatternStatus::WrongPattern);
}

#[test]
fn reset_twice_equals_reset_once() {
    let mut p = RectanglePattern::new(600, 1200);
    p.check_position(300, 100);
    p.reset_visited();
    p.reset_visited();
    assert_eq!(p.check_position(300, 100), PatternStatus::PatternProgressing);
    assert_eq!(p.check_position(500, 100), PatternStatus::PatternProgressing);
}

#[test]
fn recognition_reports_match_and_resets() {
    let mut pt = PatternRecognition::<RectanglePattern>::new_rectangle_pattern(600, 1200);
    assert_eq!(pt.process_sample(None), SampleOutcome::KeepSampling);
    let walk = clockwise_walk();
    for (i, cell) in walk.iter().enumerate() {
        let outcome = pt.process_sample(Some(center(*cell)));
        if i + 1 == walk.len() {
            assert_eq!(outcome, SampleOutcome::Match);
        } else {
            assert_eq!(outcome, SampleOutcome::KeepSampling);
        }
    }
    // reset: the walk starts again from the top-left cell
    assert_eq!(pt.process_sample(Some(center((1, 0)))), SampleOutcome::KeepSampling);
    assert_eq!(pt.process_sample(Some(center((5, 2)))), SampleOutcome::NoMatch);
    assert_eq!(pt.process_sample(Some(center((1, 0)))), SampleOutcome::KeepSampling);
}

#[test]
fn missing_sample_does_not_break_an_attempt() {
    let mut pt = PatternRecognition::new(RectanglePattern::new(600, 1200));
    assert_eq!(pt.process_sample(Some((300, 100))), SampleOutcome::KeepSampling);
    assert_eq!(pt.process_sample(None), SampleOutcome::KeepSampling);
    assert_eq!(pt.process_sample(Some((500, 100))), SampleOutcome::KeepSampling);
}

#[test]
fn grid_cells_include_their_edges() {
    let g = Grid::new(1200, 600, 6, 3);
    assert!(g.contains((0, 0), 0, 0));
    assert!(g.contains((0, 0), 200, 200));
    assert!(g.contains((1, 1), 200, 200));
    assert!(!g.contains((1, 0), 199, 100));
    assert!(!g.contains((0, 0), 201, 100));
    // a cell size that does not divide evenly: 1000 / 6 = 166.67
    let odd = Grid::new(1000, 600, 6, 3);
    assert!(odd.contains((0, 0), 166, 0));
    assert!(!odd.contains((0, 0), 167, 0));
    assert!(odd.contains((1, 0), 167, 0));
}

#[test]
fn primary_display_is_the_last_marked_primary() {
    let d = |w: u32, h: u32, p: bool| Display {
        geometry: ScreenGeometry { height: h, width: w },
        is_primary: p,
    };
    let displays = vec![d(800, 600, true), d(1920, 1080, false), d(1200, 600, true)];
    assert_eq!(primary_display(&displays), Some(ScreenGeometry { height: 600, width: 1200 }));
    assert_eq!(primary_display(&vec![d(800, 600, false)]), None);
    assert_eq!(primary_display(&vec![]), None);
}
