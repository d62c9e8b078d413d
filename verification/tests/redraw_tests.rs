use appit::redraw::{merge_redraw_at, time_until_redraw, Moment, RedrawTarget, TimeUntilRedraw};

fn at(ticks: u64) -> Moment {
    Moment { ticks }
}

#[test]
fn merge_into_empty_schedules() {
    assert_eq!(
        merge_redraw_at(None, at(100)),
        Some(RedrawTarget::Scheduled(at(100)))
    );
}

#[test]
fn merge_never_delays_immediate() {
    assert_eq!(
        merge_redraw_at(Some(RedrawTarget::Immediate), at(5)),
        Some(RedrawTarget::Immediate)
    );
}

#[test]
fn merge_later_instant_is_ignored() {
    let earlier = Some(RedrawTarget::Scheduled(at(50)));
    assert_eq!(merge_redraw_at(earlier, at(200)), earlier);
}

#[test]
fn merge_sooner_instant_overrides() {
    let later = Some(RedrawTarget::Scheduled(at(200)));
    assert_eq!(
        merge_redraw_at(later, at(50)),
        Some(RedrawTarget::Scheduled(at(50)))
    );
}

#[test]
fn merge_equal_instant_keeps_deadline() {
    let target = Some(RedrawTarget::Scheduled(at(70)));
    assert_eq!(merge_redraw_at(target, at(70)), target);
}

#[test]
fn merge_is_idempotent_on_values() {
    let target = Some(RedrawTarget::Scheduled(at(90)));
    let once = merge_redraw_at(target, at(40));
    let twice = merge_redraw_at(once, at(40));
    assert_eq!(once, twice);
}

#[test]
fn wait_is_ready_when_immediate() {
    assert_eq!(
        time_until_redraw(Some(RedrawTarget::Immediate), at(10)),
        TimeUntilRedraw::Ready
    );
}

#[test]
fn wait_is_timed_before_the_scheduled_instant() {
    assert_eq!(
        time_until_redraw(Some(RedrawTarget::Scheduled(at(150))), at(100)),
        TimeUntilRedraw::After(50)
    );
}

#[test]
fn wait_is_ready_once_the_instant_passed() {
    assert_eq!(
        time_until_redraw(Some(RedrawTarget::Scheduled(at(80))), at(100)),
        TimeUntilRedraw::Ready
    );
    assert_eq!(
        time_until_redraw(Some(RedrawTarget::Scheduled(at(100))), at(100)),
        TimeUntilRedraw::Ready
    );
}

#[test]
fn wait_is_indefinite_without_a_target() {
    assert_eq!(time_until_redraw(None, at(0)), TimeUntilRedraw::Indefinite);
}

#[test]
fn moment_after_saturates() {
    assert_eq!(at(10).after(5), at(15));
    assert_eq!(at(u64::MAX - 1).after(10), at(u64::MAX));
}
