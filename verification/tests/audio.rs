use oxidenes::apu::Apu;
use oxidenes::audio::{choose_sample, sample_queue, ApuOut, SILENCE};

#[test]
fn callback_plays_the_queue_in_order() {
    let (producer, consumer) = sample_queue(8);
    let mut apu = Apu::new(producer, 44_100);
    let mut out = ApuOut::new(consumer);
    for code in [11u32, 22, 33, 44, 55] {
        assert!(apu.emit(code));
    }
    let mut buffer = vec![0u32; 3];
    out.callback(&mut buffer);
    assert_eq!(buffer, vec![11, 22, 33]);
    out.callback(&mut buffer);
    assert_eq!(buffer, vec![44, 55, 55]); // underrun: the last sample once more
    out.callback(&mut buffer);
    assert_eq!(buffer, vec![SILENCE, SILENCE, SILENCE]);
}

#[test]
fn callback_with_an_empty_buffer() {
    let (producer, consumer) = sample_queue(8);
    let mut apu = Apu::new(producer, 44_100);
    let mut out = ApuOut::new(consumer);
    assert!(apu.emit(7));
    let mut buffer: Vec<u32> = Vec::new();
    out.callback(&mut buffer);
    assert!(buffer.is_empty());
    let mut buffer = vec![0u32; 1];
    out.callback(&mut buffer);
    assert_eq!(buffer, vec![7]);
}

#[test]
fn next_sample_is_the_taken_one_or_the_last() {
    assert_eq!(choose_sample(5, Some(9)), 9);
    assert_eq!(choose_sample(5, None), 5);
    assert_eq!(choose_sample(SILENCE, None), SILENCE);
}
