use vban_stream::jitter::JitterBuffer;

#[test]
fn starts_warming_and_pulls_silence() {
    let mut jb = JitterBuffer::new(1000);
    assert!(jb.is_warming());
    assert_eq!(jb.capacity(), 1000);
    assert_eq!(jb.occupied(), 0);
    let out = jb.pop(64);
    assert_eq!(out, vec![0i16; 64]);
    assert!(jb.is_warming());
}

#[test]
fn too_few_samples_keep_it_warming() {
    let mut jb = JitterBuffer::new(1000);
    let accepted = jb.push(&[1, 2, 3]);
    assert_eq!(accepted, 3);
    let out = jb.pop(10);
    assert_eq!(out, vec![0i16; 10]);
    assert!(jb.is_warming());
    // nothing was drained by the warming pull
    assert_eq!(jb.occupied(), 3);
}

#[test]
fn enough_samples_start_playback() {
    let mut jb = JitterBuffer::new(1000);
    let samples: Vec<i16> = (1..=12).collect();
    jb.push(&samples);
    let out = jb.pop(10);
    assert!(!jb.is_warming());
    assert_eq!(out, (1..=10).collect::<Vec<i16>>());
    assert_eq!(jb.occupied(), 2);
}

#[test]
fn underrun_returns_silence_and_rewarms() {
    let mut jb = JitterBuffer::new(1000);
    let samples: Vec<i16> = (1..=10).collect();
    jb.push(&samples);
    let out = jb.pop(10);
    assert_eq!(out, samples);
    assert!(!jb.is_warming());
    // Playing, but only 0 samples remain: an underrun pull is all silence,
    // drains nothing, and falls back to Warming
    jb.push(&[5, 6]);
    let out = jb.pop(10);
    assert_eq!(out, vec![0i16; 10]);
    assert!(jb.is_warming());
    assert_eq!(jb.occupied(), 2);
}

#[test]
fn fifo_order_is_kept() {
    let mut jb = JitterBuffer::new(8);
    jb.push(&[10, -20]);
    jb.push(&[30]);
    let out = jb.pop(3);
    assert_eq!(out, vec![10, -20, 30]);
}

#[test]
fn overrun_drops_the_excess() {
    let mut jb = JitterBuffer::new(4);
    let accepted = jb.push(&[1, 2, 3, 4, 5, 6]);
    assert_eq!(accepted, 4);
    assert_eq!(jb.occupied(), 4);
    let out = jb.pop(4);
    assert_eq!(out, vec![1, 2, 3, 4]);
    let accepted = jb.push(&[7]);
    assert_eq!(accepted, 1);
}
