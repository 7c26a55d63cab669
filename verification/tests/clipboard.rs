use kill_zen_all::clipboard::{ClipboardError, Probe, PROBE_FAILED};

fn ok() -> Result<(), String> {
    Ok(())
}

fn err(detail: &str) -> Result<(), String> {
    Err(detail.to_string())
}

#[test]
fn probe_accepts_a_clipboard_that_reads() {
    let probe = Probe::start();
    assert_eq!(probe, Probe::Create);
    let probe = probe.advance(ok());
    assert_eq!(probe, Probe::Read);
    assert_eq!(probe.advance(ok()), Probe::Usable);
}

#[test]
fn probe_accepts_a_clipboard_that_only_writes() {
    let probe = Probe::start().advance(ok()).advance(err("empty"));
    assert_eq!(probe, Probe::WriteEmpty);
    assert_eq!(probe.advance(ok()), Probe::Usable);
}

#[test]
fn probe_rejects_a_clipboard_that_neither_reads_nor_writes() {
    let probe = Probe::start()
        .advance(ok())
        .advance(err("no display"))
        .advance(err("no display"));
    assert_eq!(
        probe,
        Probe::Unusable(ClipboardError::CreateContext(
            "Failed to set empty contents".to_string()
        ))
    );
    assert_eq!(PROBE_FAILED, "Failed to set empty contents");
}

#[test]
fn probe_rejects_a_provider_that_cannot_be_created() {
    let probe = Probe::start().advance(err("no provider"));
    assert_eq!(
        probe,
        Probe::Unusable(ClipboardError::CreateContext("no provider".to_string()))
    );
}

#[test]
fn probe_that_has_ended_stays() {
    assert_eq!(Probe::Usable.advance(err("late")), Probe::Usable);
    let unusable = Probe::Unusable(ClipboardError::CreateContext("x".to_string()));
    assert_eq!(unusable.clone().advance(ok()), unusable);
}

#[test]
fn clipboard_errors_have_their_sentences() {
    assert_eq!(
        ClipboardError::CreateContext("a".to_string()).message(),
        "Failed to create clipboard provider: a"
    );
    assert_eq!(
        ClipboardError::SetContents("b".to_string()).message(),
        "Failed to set clipboard contents: b"
    );
    assert_eq!(
        ClipboardError::GetContents("c".to_string()).message(),
        "Failed to get clipboard contents: c"
    );
    assert_eq!(
        ClipboardError::GetContents(String::new()).message(),
        "Failed to get clipboard contents: "
    );
}
