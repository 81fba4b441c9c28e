use cputest::error::EngineError;
use cputest::smoother::Smoother;

fn feed(smoother: &mut Smoother, samples: &[u32]) -> Vec<u32> {
    samples.iter().map(|&raw| smoother.update(raw)).collect()
}

#[test]
fn zero_sized_window_is_refused() {
    assert_eq!(Smoother::new(0).err(), Some(EngineError::InvalidWindowSize));
}

#[test]
fn new_window_is_zero_seeded() {
    let smoother = Smoother::new(5).unwrap();
    assert_eq!(smoother.slots(), vec![0, 0, 0, 0, 0]);
    assert_eq!(smoother.cursor(), 0);
    assert_eq!(smoother.window_size(), 5);
    assert_eq!(smoother.total(), 0);
    assert_eq!(smoother.mean(), 0);
}

#[test]
fn warm_up_counts_unwritten_slots_as_zero() {
    let mut smoother = Smoother::new(5).unwrap();
    let outputs = feed(&mut smoother, &[1000, 2000, 3000, 4000, 5000]);
    assert_eq!(outputs, vec![200, 600, 1200, 2000, 3000]);
}

#[test]
fn warm_up_in_fractions() {
    let mut smoother = Smoother::new(5).unwrap();
    let fractions: [f64; 5] = [0.1, 0.2, 0.3, 0.4, 0.5];
    let expected: [f64; 5] = [0.02, 0.06, 0.12, 0.20, 0.30];
    for (fraction, want) in fractions.iter().zip(expected.iter()) {
        let raw = (fraction * 10_000.0).round() as u32;
        let smoothed = smoother.update(raw);
        assert_eq!(f64::from(smoothed) / 10_000.0, *want);
    }
}

#[test]
fn full_overwrite_converges() {
    let mut smoother = Smoother::new(5).unwrap();
    feed(&mut smoother, &[1000, 2000, 3000, 4000, 5000]);
    let outputs = feed(&mut smoother, &[5000, 5000, 5000, 5000, 5000]);
    assert_eq!(outputs, vec![3800, 4400, 4800, 5000, 5000]);
    assert_eq!(smoother.mean(), 5000);
    assert_eq!(smoother.slots(), vec![5000; 5]);
}

#[test]
fn mean_is_over_the_last_window_of_samples() {
    let samples: [u32; 10] = [7, 100, 45, 9000, 3, 3, 821, 10_000, 0, 64];
    for size in 1..=4usize {
        let mut smoother = Smoother::new(size).unwrap();
        for (fed, &raw) in samples.iter().enumerate() {
            let smoothed = smoother.update(raw);
            let count = fed + 1;
            if count >= size {
                let last: u64 = samples[count - size..count].iter().map(|&s| u64::from(s)).sum();
                assert_eq!(u64::from(smoothed), last / size as u64);
                assert_eq!(smoother.total(), u128::from(last));
            }
        }
    }
}

#[test]
fn window_of_one_passes_samples_through() {
    let mut smoother = Smoother::new(1).unwrap();
    assert_eq!(feed(&mut smoother, &[17, 0, 9999, u32::MAX]), vec![17, 0, 9999, u32::MAX]);
    assert_eq!(smoother.cursor(), 0);
}

#[test]
fn update_overwrites_the_slot_under_the_cursor() {
    let mut smoother = Smoother::new(3).unwrap();
    smoother.update(10);
    assert_eq!(smoother.slots(), vec![10, 0, 0]);
    assert_eq!(smoother.cursor(), 1);
    smoother.update(20);
    assert_eq!(smoother.slots(), vec![10, 20, 0]);
    assert_eq!(smoother.cursor(), 2);
    smoother.update(30);
    assert_eq!(smoother.slots(), vec![10, 20, 30]);
    assert_eq!(smoother.cursor(), 0);
    smoother.update(40);
    assert_eq!(smoother.slots(), vec![40, 20, 30]);
    assert_eq!(smoother.cursor(), 1);
}

#[test]
fn mean_rounds_down() {
    let mut smoother = Smoother::new(2).unwrap();
    assert_eq!(smoother.update(1), 0);
    assert_eq!(smoother.update(2), 1);
    assert_eq!(smoother.total(), 3);
    assert_eq!(smoother.update(4), 3);
}

#[test]
fn largest_samples_do_not_overflow() {
    let mut smoother = Smoother::new(4).unwrap();
    let outputs = feed(&mut smoother, &[u32::MAX; 4]);
    assert_eq!(outputs[3], u32::MAX);
    assert_eq!(smoother.total(), 4 * u128::from(u32::MAX));
}

#[test]
fn samples_are_not_clamped() {
    let mut smoother = Smoother::new(2).unwrap();
    assert_eq!(smoother.update(30_000), 15_000);
    assert_eq!(smoother.update(30_000), 30_000);
}
