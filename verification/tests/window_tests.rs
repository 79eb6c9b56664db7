use taiko_hid::window::SampleWindow;

#[test]
fn end_to_end_window() {
    // Window capacity 4, filler 0; insert 10, 20, 5, 15 in sequence.
    let mut w = SampleWindow::new(4, 0);
    w.store(10);
    w.store(20);
    w.store(5);
    w.store(15);
    assert_eq!(w.sorted, vec![5, 10, 15, 20]);
    assert_eq!(w.threshold(), 15);
    assert_eq!(w.min(), 5);
    assert_eq!(w.max(), 20);
}

#[test]
fn constant_fill_idempotence() {
    // Inserting the same value n consecutive times yields a constant
    // sorted copy with median = min = max = value.
    let mut w = SampleWindow::new(8, 0);
    for _ in 0..8 {
        w.store(7);
    }
    assert_eq!(w.sorted, vec![7; 8]);
    assert_eq!(w.threshold(), 7);
    assert_eq!(w.min(), 7);
    assert_eq!(w.max(), 7);
}

#[test]
fn ring_wraps_and_replaces_oldest() {
    let mut w = SampleWindow::new(2, 0);
    w.store(1);
    w.store(2);
    w.store(3);
    // The third store overwrites the oldest (1).
    assert_eq!(w.fifo, vec![3, 2]);
    assert_eq!(w.sorted, vec![2, 3]);
    assert_eq!(w.min(), 2);
    assert_eq!(w.max(), 3);
}

#[test]
fn sorted_stays_permutation_of_fifo() {
    // After each insert the sorted copy holds exactly the window's
    // current contents, in ascending order.
    let mut w = SampleWindow::new(8, 0);
    let inputs = [5, -3, 12, 7, -3, 100, 0, -50, 12, 12, 3];
    for (k, v) in inputs.iter().enumerate() {
        w.store(*v);
        let mut expected = w.fifo.clone();
        expected.sort();
        assert_eq!(w.sorted, expected, "after store {}", k);
    }
}

#[test]
fn negative_values_ordered() {
    let mut w = SampleWindow::new(4, 0);
    w.store(-5);
    w.store(3);
    assert_eq!(w.sorted, vec![-5, 0, 0, 3]);
    assert_eq!(w.min(), -5);
    assert_eq!(w.max(), 3);
    assert_eq!(w.threshold(), 0);
}
