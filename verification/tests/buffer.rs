use netdmx::buffer::Buffer;

fn frame_filled(value: u8) -> [u8; 512] {
    [value; 512]
}

#[test]
fn initial_value_is_read_before_any_publish() {
    let buffer = Buffer::with_constructor(|| frame_filled(0));
    assert_eq!(*buffer.read(), [0u8; 512]);
}

#[test]
fn read_returns_last_published_value() {
    let mut buffer = Buffer::with_constructor(|| frame_filled(0));
    buffer.update(frame_filled(1));
    buffer.update(frame_filled(2));
    buffer.update(frame_filled(3));
    assert_eq!(*buffer.read(), frame_filled(3));
}

#[test]
fn read_without_new_publish_repeats_same_value() {
    let mut buffer = Buffer::with_constructor(|| frame_filled(0));
    buffer.update(frame_filled(42));
    assert_eq!(*buffer.read(), frame_filled(42));
    assert_eq!(*buffer.read(), frame_filled(42));
}

#[test]
fn publish_demotes_previous_value_to_scratch() {
    let mut buffer = Buffer::with_constructor(|| frame_filled(0));
    buffer.update(frame_filled(7));
    buffer.update(frame_filled(8));
    assert_eq!(buffer.r, frame_filled(8));
    assert_eq!(buffer.w, frame_filled(7));
}

#[test]
fn overload_drops_everything_but_the_last_frame() {
    let mut buffer = Buffer::with_constructor(|| frame_filled(0));
    for n in 0u32..1000 {
        let mut frame = [0u8; 512];
        frame[0] = (n % 256) as u8;
        frame[1] = (n / 256) as u8;
        buffer.update(frame);
    }
    let mut last = [0u8; 512];
    last[0] = (999 % 256) as u8;
    last[1] = (999 / 256) as u8;
    assert_eq!(*buffer.read(), last);
}

#[test]
fn tearing_is_never_observed_across_alternating_publishes() {
    let mut buffer = Buffer::with_constructor(|| frame_filled(0));
    for n in 0..100 {
        let value = if n % 2 == 0 { 0x00 } else { 0xff };
        buffer.update(frame_filled(value));
        let seen = *buffer.read();
        assert!(seen == frame_filled(0x00) || seen == frame_filled(0xff));
        assert_eq!(seen, frame_filled(value));
    }
}
