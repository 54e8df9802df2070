use pngtooba::audio::{can_name_source, needs_resubscribe, CaptureLink, SampleWindow, FFT_SIZE};

#[test]
fn window_waits_for_enough_samples() {
    let mut w: SampleWindow<i32> = SampleWindow::new(4);
    assert_eq!(w.size(), 4);
    assert_eq!(w.push(&[1, 2]), None);
    assert_eq!(w.push(&[3]), None);
    assert_eq!(w.push(&[4]), Some(vec![1, 2, 3, 4]));
    assert_eq!(w.push(&[5, 6, 7]), None);
}

#[test]
fn window_keeps_latest_samples() {
    let mut w: SampleWindow<i32> = SampleWindow::new(3);
    assert_eq!(w.push(&[1, 2]), None);
    assert_eq!(w.push(&[3, 4, 5, 6]), Some(vec![4, 5, 6]));
    assert_eq!(w.push(&[7, 8]), None);
}

#[test]
fn window_clear_starts_over() {
    let mut w: SampleWindow<u8> = SampleWindow::new(3);
    assert_eq!(w.push(&[1, 2]), None);
    w.clear();
    assert_eq!(w.push(&[3, 4]), None);
    assert_eq!(w.push(&[5]), Some(vec![3, 4, 5]));
}

#[test]
fn window_of_analysis_size() {
    let mut w: SampleWindow<f32> = SampleWindow::new(FFT_SIZE);
    let block = vec![0.25f32; 1000];
    assert!(w.push(&block).is_none());
    assert!(w.push(&block).is_none());
    let win = w.push(&block).unwrap();
    assert_eq!(win.len(), FFT_SIZE);
}

#[test]
fn capture_link_pause_and_resume() {
    let mut link = CaptureLink::attached();
    assert!(link.attached_now());
    assert!(link.pause());
    assert!(!link.attached_now());
    assert!(!link.pause());
    assert!(link.resume());
    assert!(link.attached_now());
    assert!(!link.resume());
}

#[test]
fn source_names() {
    assert!(!can_name_source(""));
    assert!(can_name_source("Mic/Aux"));
    assert!(!can_name_source("bad\0name"));
}

#[test]
fn resubscribe_only_for_another_source() {
    let mic = "Mic".to_string();
    assert!(!needs_resubscribe(&mic, &"Mic".to_string()));
    assert!(needs_resubscribe(&mic, &"Aux".to_string()));
    assert!(needs_resubscribe(&String::new(), &mic));
    assert!(needs_resubscribe(&mic, &String::new()));
}
