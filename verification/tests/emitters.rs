use diag_ctxt::{
    BufferEmitter, CallbackEmitter, DiagCtxt, Diagnostic, DynEmitter, Emitter, Level,
};
use std::sync::atomic::{AtomicUsize, Ordering};
use std::sync::Arc;

fn emit_some<E: Emitter>(dcx: &mut DiagCtxt<E>) {
    dcx.emit_diagnostic(Diagnostic::new(Level::Error, String::from("undefined symbol x")));
    dcx.emit_diagnostic(Diagnostic::new(Level::Error, String::from("undefined symbol x")));
    dcx.emit_diagnostic(Diagnostic::new(Level::Allow, String::from("quiet")));
    let mut first = Diagnostic::new(Level::Warning, String::from("first"));
    first.sub(Level::OnceNote, String::from("once"));
    let mut second = Diagnostic::new(Level::Warning, String::from("second"));
    second.sub(Level::OnceNote, String::from("once"));
    dcx.emit_diagnostic(first);
    dcx.emit_diagnostic(second);
}

#[test]
fn boxed_emitter_is_called_once_per_shown_diagnostic() {
    let mut dcx = DiagCtxt::new(Box::new(BufferEmitter::new()));
    emit_some(&mut dcx);
    assert_eq!(dcx.emitter().len(), 3);
    assert_eq!(dcx.emitter().get(1).unwrap().children.len(), 1);
    assert_eq!(dcx.emitter().get(2).unwrap().children.len(), 0);
    assert_eq!(dcx.err_count(), 2);
    assert_eq!(dcx.deduplicated_err_count(), 1);
    assert_eq!(dcx.warn_count(), 2);
    assert_eq!(dcx.deduplicated_warn_count(), 2);
}

#[test]
fn context_takes_an_emitter_chosen_at_run_time() {
    let emitter: Box<DynEmitter> = Box::new(BufferEmitter::new());
    let mut dcx = DiagCtxt::new(emitter);
    emit_some(&mut dcx);
    assert_eq!(dcx.err_count(), 2);
    assert_eq!(dcx.deduplicated_err_count(), 1);
    assert_eq!(dcx.warn_count(), 2);
    assert_eq!(dcx.deduplicated_warn_count(), 2);
    assert!(dcx.has_errors());
}

#[test]
fn buffer_emitter_keeps_what_it_is_given() {
    let mut emitter = BufferEmitter::new();
    assert_eq!(emitter.len(), 0);
    assert!(emitter.get(0).is_none());
    let mut d = Diagnostic::new(Level::Warning, String::from("w"));
    d.sub(Level::Help, String::from("h"));
    emitter.emit_diagnostic(&d);
    emitter.emit_diagnostic(&Diagnostic::new(Level::Note, String::from("n")));
    assert_eq!(emitter.len(), 2);
    let kept = emitter.get(0).unwrap();
    assert_eq!(kept.level, Level::Warning);
    assert_eq!(kept.message, "w");
    assert_eq!(kept.children.len(), 1);
    assert_eq!(kept.children[0].message, "h");
    assert_eq!(emitter.get(1).unwrap().message, "n");
    assert!(emitter.get(2).is_none());
}

#[test]
fn callback_is_called_once_per_shown_diagnostic() {
    let calls = Arc::new(AtomicUsize::new(0));
    let children = Arc::new(AtomicUsize::new(0));
    let (calls_in, children_in) = (calls.clone(), children.clone());
    let emitter = CallbackEmitter::new(move |d: &Diagnostic| {
        calls_in.fetch_add(1, Ordering::SeqCst);
        children_in.fetch_add(d.children.len(), Ordering::SeqCst);
    });
    let mut dcx = DiagCtxt::new(emitter);
    dcx.emit_diagnostic(Diagnostic::new(Level::Error, String::from("undefined symbol x")));
    assert_eq!(calls.load(Ordering::SeqCst), 1);
    dcx.emit_diagnostic(Diagnostic::new(Level::Error, String::from("undefined symbol x")));
    assert_eq!(calls.load(Ordering::SeqCst), 1);
    assert_eq!(dcx.err_count(), 2);
    assert_eq!(dcx.deduplicated_err_count(), 1);
    emit_some(&mut dcx);
    assert_eq!(calls.load(Ordering::SeqCst), 3);
    assert_eq!(children.load(Ordering::SeqCst), 1);
}

#[test]
fn callback_is_not_called_for_what_is_dropped() {
    let calls = Arc::new(AtomicUsize::new(0));
    let calls_in = calls.clone();
    let emitter = CallbackEmitter::new(move |_: &Diagnostic| {
        calls_in.fetch_add(1, Ordering::SeqCst);
    });
    let mut dcx = DiagCtxt::new(emitter).disable_warnings();
    let guarantee =
        dcx.emit_diagnostic(Diagnostic::new(Level::Warning, String::from("unused variable y")));
    assert!(guarantee.is_none());
    dcx.emit_diagnostic(Diagnostic::new(Level::Allow, String::from("quiet")));
    assert_eq!(calls.load(Ordering::SeqCst), 0);
    assert_eq!(dcx.warn_count(), 0);
    assert_eq!(dcx.deduplicated_warn_count(), 0);
}
