use timeseries::window::{window_bounds, Window};

#[test]
fn test_window_accessors() {
    let window = Window::new(3, 2);
    assert_eq!(window.size(), 3);
    assert_eq!(window.ramp_up(), 2);
}

#[test]
fn test_window_bounds_count() {
    let window = Window::new(3, 0);
    let bounds = window_bounds(10, &window);
    assert_eq!(bounds.len(), 8);
}

#[test]
fn test_window_bounds_left_aligned() {
    let window = Window::new(2, 0);
    let bounds = window_bounds(5, &window);
    assert_eq!(bounds, vec![(0, 2), (1, 3), (2, 4), (3, 5)]);
}

#[test]
fn test_window_bounds_full_span() {
    let window = Window::new(4, 1);
    let bounds = window_bounds(4, &window);
    assert_eq!(bounds, vec![(0, 4)]);
}

#[test]
fn test_window_bounds_single_sample_windows() {
    let window = Window::new(1, 0);
    let bounds = window_bounds(3, &window);
    assert_eq!(bounds, vec![(0, 1), (1, 2), (2, 3)]);
}
