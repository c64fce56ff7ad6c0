use mosth_autosplitter::sample::{truncate_sample, sample_eq, SAMPLE_LEN};
use mosth_autosplitter::text::{
    start_scribble, reset_line, station_end, end_amy, end_knuckles, end_espio_vector,
    end_blaze_rouge, end_shadow, end_sonic, sonic_chase, ending,
};
use mosth_autosplitter::watcher::{DialogueWatcher, SamplePair};

fn zeros() -> [u16; SAMPLE_LEN] {
    [0u16; SAMPLE_LEN]
}

#[test]
fn truncate_keeps_prefix_before_first_zero() {
    let mut raw = zeros();
    raw[0] = 5;
    raw[1] = 6;
    raw[2] = 0;
    raw[3] = 7;
    raw[4] = 8;
    let out = truncate_sample(&raw);
    let mut expected = zeros();
    expected[0] = 5;
    expected[1] = 6;
    assert_eq!(out, expected);
}

#[test]
fn truncate_of_all_zero_is_all_zero() {
    let out = truncate_sample(&zeros());
    assert_eq!(out, zeros());
}

#[test]
fn truncate_without_zero_keeps_everything() {
    let raw = [3u16; SAMPLE_LEN];
    let out = truncate_sample(&raw);
    assert_eq!(out, raw);
}

#[test]
fn truncate_of_constants_is_identity() {
    // The data tables are already zero-padded after their first zero, so
    // truncation leaves each one unchanged.
    for c in [
        start_scribble(),
        reset_line(),
        station_end(),
        end_amy(),
        end_knuckles(),
        end_espio_vector(),
        end_blaze_rouge(),
        end_shadow(),
        end_sonic(),
        sonic_chase(),
        ending(),
    ] {
        assert_eq!(truncate_sample(&c), c);
    }
}

#[test]
fn no_constant_is_all_zero() {
    for c in [
        start_scribble(),
        reset_line(),
        station_end(),
        end_amy(),
        end_knuckles(),
        end_espio_vector(),
        end_blaze_rouge(),
        end_shadow(),
        end_sonic(),
        sonic_chase(),
        ending(),
    ] {
        assert!(!sample_eq(&c, &zeros()));
    }
}

#[test]
fn sample_eq_detects_single_element_difference() {
    let mut a = station_end();
    assert!(sample_eq(&a, &station_end()));
    a[26] = a[26].wrapping_add(1);
    assert!(!sample_eq(&a, &station_end()));
    let mut b = station_end();
    b[SAMPLE_LEN - 1] = 1;
    assert!(!sample_eq(&b, &station_end()));
}

#[test]
fn changed_to_requires_change_and_exact_value() {
    let moved = SamplePair { previous: zeros(), current: start_scribble() };
    assert!(moved.changed());
    assert!(moved.changed_to(&start_scribble()));
    assert!(!moved.changed_to(&reset_line()));

    // Never true when current equals previous, even if both equal the target.
    let still = SamplePair { previous: start_scribble(), current: start_scribble() };
    assert!(!still.changed());
    assert!(!still.changed_to(&start_scribble()));
}

#[test]
fn first_update_reports_no_change() {
    let mut w = DialogueWatcher::new();
    assert!(w.pair.is_none());
    w.update(start_scribble());
    let p = w.pair.as_ref().unwrap();
    assert_eq!(p.previous, start_scribble());
    assert_eq!(p.current, start_scribble());
    assert!(!p.changed());
}

#[test]
fn second_update_shifts_current_to_previous() {
    let mut w = DialogueWatcher::new();
    w.update(zeros());
    w.update(start_scribble());
    let p = w.pair.as_ref().unwrap();
    assert_eq!(p.previous, zeros());
    assert_eq!(p.current, start_scribble());
    assert!(p.changed());
}
