use ouch::cli::ProgressBarPolicy;
use ouch::progress::{
    bar_position, bar_template, percent, CloseAction, DisplayError, DisplayHandle, PrintLoop, Progress, RenderAction,
    RenderLoop,
};

#[test]
fn writes_then_flush_give_one_message() {
    let mut h = DisplayHandle::new();
    assert_eq!(h.write(b"Compress"), 8);
    assert_eq!(h.write(b"ing "), 4);
    h.write_str("'caf\u{e9}.txt'.");
    assert_eq!(h.flush(), Ok(String::from("Compressing 'caf\u{e9}.txt'.")));
    assert_eq!(h.flush(), Ok(String::new()));
}

#[test]
fn flush_of_invalid_text_is_an_encoding_error() {
    let mut h = DisplayHandle::new();
    h.write(&[0x61, 0xFF, 0x62]);
    assert_eq!(h.flush(), Err(DisplayError::EncodingError));
    h.write(b"ok");
    assert_eq!(h.flush(), Ok(String::from("ok")));
}

#[test]
fn samples_are_clamped_to_the_total() {
    assert_eq!(bar_position(Some(500), 1000, 0), 500);
    assert_eq!(bar_position(Some(1000), 1000, 0), 1000);
    assert_eq!(bar_position(Some(1500), 1000, 0), 1000);
    assert_eq!(bar_position(Some(u64::MAX), 7, 7), 7);
    assert_eq!(bar_position(Some(3), 0, 0), 0);
}

#[test]
fn unreadable_sample_keeps_last_position() {
    assert_eq!(bar_position(None, 1000, 0), 0);
    assert_eq!(bar_position(None, 1000, 400), 400);
    let mut r = RenderLoop::new(1000, true, true);
    r.tick(false, Some(600), Vec::new());
    r.tick(false, None, Vec::new());
    assert_eq!(r.position(), 600);
}

#[test]
fn percent_values() {
    assert_eq!(percent(0, 1000), 0);
    assert_eq!(percent(500, 1000), 50);
    assert_eq!(percent(1000, 1000), 100);
    assert_eq!(percent(1, 3), 33);
    assert_eq!(percent(0, 0), 100);
    assert_eq!(percent(u64::MAX, u64::MAX), 100);
}

#[test]
fn templates() {
    assert_eq!(
        bar_template(true, true),
        "{prefix} [{elapsed_precise}] [{wide_bar:.cyan/blue}] {bytes}/ {total_bytes} ({bytes_per_sec}, {eta}) {path}"
    );
    assert_eq!(bar_template(false, false), "{prefix} [{elapsed_precise}] {spinner:.green} ({bytes_per_sec}, {eta}) {path}");
    assert_eq!(
        bar_template(true, false),
        "{prefix} [{elapsed_precise}] {spinner:.green} {total_bytes} ({bytes_per_sec}, {eta}) {path}"
    );
    assert_eq!(
        RenderLoop::new(10, false, true).template(),
        "{prefix} [{elapsed_precise}] {spinner:.green} {bytes}/ ({bytes_per_sec}, {eta}) {path}"
    );
}

#[test]
fn callback_ticks_show_percentages_then_finish_once() {
    let mut r = RenderLoop::new(1000, true, true);
    let mut shown = Vec::new();
    for sample in [0u64, 500, 1000] {
        let action = r.tick(false, Some(sample), Vec::new());
        assert!(matches!(action, RenderAction::Draw { position: Some(p), prefix: None } if p == sample));
        shown.push(r.percent());
    }
    assert_eq!(shown, vec![0, 50, 100]);
    let mut acks = 0;
    for _ in 0..3 {
        match r.tick(true, Some(1000), Vec::new()) {
            RenderAction::Finish { prefix: None } => acks += 1,
            RenderAction::Idle => {}
            _ => panic!("unexpected action"),
        }
    }
    assert_eq!(acks, 1);
    assert!(!r.is_running());
}

#[test]
fn missing_output_file_reads_as_zero() {
    let mut r = RenderLoop::new(1000, true, true);
    let mut positions = Vec::new();
    for observed in [None, None, Some(1000u64)] {
        r.tick(false, observed, Vec::new());
        positions.push(r.position());
    }
    assert_eq!(positions, vec![0, 0, 1000]);
}

#[test]
fn spinner_ticks_keep_position() {
    let mut r = RenderLoop::new(1000, false, false);
    let action = r.tick(false, Some(300), Vec::new());
    assert!(matches!(action, RenderAction::Draw { position: None, prefix: None }));
    assert_eq!(r.position(), 0);
}

#[test]
fn only_latest_message_is_shown() {
    let mut r = RenderLoop::new(10, true, true);
    let action = r.tick(false, Some(4), vec![String::from("old"), String::from("new")]);
    match action {
        RenderAction::Draw { position, prefix } => {
            assert_eq!(position, Some(4));
            assert_eq!(prefix.as_deref(), Some("new"));
        }
        _ => panic!("expected a draw"),
    }
}

#[test]
fn message_flushed_before_close_is_in_final_frame() {
    let mut progress = Progress::new(ProgressBarPolicy::Enable);
    let mut render = RenderLoop::new(100, true, true);
    let handle = progress.display_handle();
    handle.write_str("Compressing 'a.txt'.");
    let message = handle.flush().unwrap();
    assert_eq!(progress.close(), CloseAction::SignalAndWait);
    match render.tick(true, Some(50), vec![message]) {
        RenderAction::Finish { prefix } => assert_eq!(prefix.as_deref(), Some("Compressing 'a.txt'.")),
        _ => panic!("expected the final frame"),
    }
}

#[test]
fn close_is_idempotent() {
    let mut enabled = Progress::new(ProgressBarPolicy::Enable);
    assert_eq!(enabled.close(), CloseAction::SignalAndWait);
    assert_eq!(enabled.close(), CloseAction::Nothing);
    assert_eq!(enabled.close(), CloseAction::Nothing);
    let mut disabled = Progress::new(ProgressBarPolicy::Disable);
    assert_eq!(disabled.close(), CloseAction::Signal);
    assert_eq!(disabled.close(), CloseAction::Nothing);
}

#[test]
fn disabled_policy_prints_each_message_once_in_order() {
    let mut p = PrintLoop::new();
    let mut printed = Vec::new();
    let sent = vec!["one", "two", "three"];
    for m in &sent {
        if let Some(line) = p.receive(Some(String::from(*m))) {
            printed.push(line);
        }
    }
    assert_eq!(p.receive(None), None);
    assert!(!p.is_open());
    assert_eq!(p.receive(Some(String::from("late"))), None);
    assert_eq!(printed, sent);
}
