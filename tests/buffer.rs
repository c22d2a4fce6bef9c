use tailord::buffer::{TemperatureBuffer, HISTORY_LEN};

#[test]
fn new_buffer_holds_the_seed() {
    let buf = TemperatureBuffer::new(33);
    assert_eq!(buf.samples(), &vec![33u8]);
    assert_eq!(buf.get_latest(), 33);
    assert_eq!(buf.min(), 33);
    assert_eq!(buf.diff_to_min_in_history(), 0);
}

#[test]
fn min_is_the_smallest_sample() {
    let mut buf = TemperatureBuffer::new(50);
    buf.update(45);
    buf.update(60);
    assert_eq!(buf.min(), 45);
    assert_eq!(buf.get_latest(), 60);
    assert_eq!(buf.diff_to_min_in_history(), 15);
}

#[test]
fn oldest_sample_is_evicted_when_full() {
    let mut buf = TemperatureBuffer::new(10);
    for t in 0..HISTORY_LEN {
        buf.update(20 + t as u8);
    }
    assert_eq!(buf.samples().len(), HISTORY_LEN);
    assert_eq!(buf.samples()[0], 20);
    assert_eq!(buf.min(), 20);
    assert_eq!(buf.get_latest(), 20 + HISTORY_LEN as u8 - 1);
}

#[test]
fn spike_does_not_raise_the_minimum_until_the_window_passes() {
    let mut buf = TemperatureBuffer::new(40);
    buf.update(80);
    assert_eq!(buf.min(), 40);
    for _ in 0..HISTORY_LEN - 1 {
        buf.update(80);
    }
    assert_eq!(buf.min(), 80);
}
