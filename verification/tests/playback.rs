use acoustic_modem::playback::Playback;

#[test]
fn playback_starts_at_the_front() {
    let p = Playback::new(10);
    assert_eq!(p, Playback { total: 10, sent: 0 });
    assert_eq!(p.offset(), 0);
}

#[test]
fn playback_goes_on_while_samples_remain() {
    let mut p = Playback::new(10);
    assert!(p.accept(4));
    assert_eq!(p.offset(), 4);
    assert!(p.accept(5));
    assert_eq!(p.offset(), 9);
    assert!(!p.accept(1));
    assert_eq!(p, Playback { total: 10, sent: 10 });
}

#[test]
fn playback_stops_when_nothing_is_accepted() {
    let mut p = Playback::new(10);
    assert!(p.accept(3));
    assert!(!p.accept(0));
    assert_eq!(p.offset(), 3);
}

#[test]
fn playback_of_nothing_is_over_at_once() {
    let mut p = Playback::new(0);
    assert!(!p.accept(0));
    assert_eq!(p.offset(), 0);
}

#[test]
fn playback_drains_a_buffer() {
    let buffer: Vec<i16> = (0..25).collect();
    let mut heard: Vec<i16> = Vec::new();
    let mut p = Playback::new(buffer.len());
    loop {
        let rest = &buffer[p.offset()..];
        let written = rest.len().min(7);
        heard.extend_from_slice(&rest[..written]);
        if !p.accept(written) {
            break;
        }
    }
    assert_eq!(heard, buffer);
}
