use twobody::state::TwoBodyState;
use twobody::trajectory::Trajectory;

fn at(x1: f64, y1: f64, x2: f64, y2: f64) -> TwoBodyState<f64> {
    TwoBodyState { x1, y1, vx1: 9.0, vy1: 9.0, x2, y2, vx2: 9.0, vy2: 9.0 }
}

#[test]
fn new_trajectory_is_empty() {
    let t: Trajectory<f64> = Trajectory::new();
    assert_eq!(t.len(), 0);
    assert!(t.x1().is_empty());
    assert!(t.y1().is_empty());
    assert!(t.x2().is_empty());
    assert!(t.y2().is_empty());
}

#[test]
fn record_appends_positions_to_each_column() {
    let mut t = Trajectory::new();
    t.record(&at(-0.5, 0.0, 0.5, 0.0));
    t.record(&at(-0.4, -0.1, 0.4, 0.1));
    assert_eq!(t.len(), 2);
    assert_eq!(t.x1(), &vec![-0.5, -0.4]);
    assert_eq!(t.y1(), &vec![0.0, -0.1]);
    assert_eq!(t.x2(), &vec![0.5, 0.4]);
    assert_eq!(t.y2(), &vec![0.0, 0.1]);
}

#[test]
fn columns_have_one_entry_per_step() {
    let mut t = Trajectory::new();
    let mut k: usize = 0;
    while k < 2000 {
        t.record(&at(k as f64, 1.0, 2.0, 3.0));
        k += 1;
    }
    assert_eq!(t.len(), 2000);
    assert_eq!(t.x1().len(), 2000);
    assert_eq!(t.y2().len(), 2000);
    assert_eq!(t.x1()[1999], 1999.0);
}
