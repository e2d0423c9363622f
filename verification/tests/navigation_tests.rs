use player_core::navigator::next;
use player_core::navigator::previous;

#[test]
fn previous_wraps_from_first_to_last() {
    for n in 1..20usize {
        assert_eq!(previous(0, n), Some(n - 1));
    }
}

#[test]
fn next_wraps_from_last_to_first() {
    for n in 1..20usize {
        assert_eq!(next(n - 1, n), Some(0));
    }
}

#[test]
fn next_steps_forward_inside_playlist() {
    assert_eq!(next(0, 5), Some(1));
    assert_eq!(next(3, 5), Some(4));
}

#[test]
fn previous_steps_backward_inside_playlist() {
    assert_eq!(previous(4, 5), Some(3));
    assert_eq!(previous(1, 5), Some(0));
}

#[test]
fn navigation_is_noop_on_empty_playlist() {
    assert_eq!(next(0, 0), None);
    assert_eq!(previous(0, 0), None);
    assert_eq!(next(7, 0), None);
    assert_eq!(previous(7, 0), None);
}

#[test]
fn next_from_stale_id_restarts_at_first_track() {
    assert_eq!(next(9, 3), Some(0));
}

#[test]
fn single_track_playlist_cycles_to_itself() {
    assert_eq!(next(0, 1), Some(0));
    assert_eq!(previous(0, 1), Some(0));
}
