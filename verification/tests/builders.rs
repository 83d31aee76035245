use diag_ctxt::{
    BufferEmitter, DiagCtxt, Diagnostic, DiagnosticBuilder, ErrorGuaranteed, FatalAbort, Level,
};

fn new_ctxt() -> DiagCtxt<BufferEmitter> {
    DiagCtxt::new(BufferEmitter::new())
}

#[test]
fn level_policy() {
    let all = [
        Level::Fatal,
        Level::Error,
        Level::Warning,
        Level::Note,
        Level::Help,
        Level::OnceNote,
        Level::OnceHelp,
        Level::Allow,
    ];
    let errors: Vec<bool> = all.iter().map(|l| l.is_error()).collect();
    assert_eq!(errors, vec![true, true, false, false, false, false, false, false]);
    let once: Vec<bool> = all.iter().map(|l| l.is_once()).collect();
    assert_eq!(once, vec![false, false, false, false, false, true, true, false]);
    let dropped_on: Vec<bool> = all.iter().map(|l| l.is_dropped(true)).collect();
    assert_eq!(dropped_on, vec![false, false, false, false, false, false, false, true]);
    let dropped_off: Vec<bool> = all.iter().map(|l| l.is_dropped(false)).collect();
    assert_eq!(dropped_off, vec![false, false, true, false, false, false, false, true]);
}

#[test]
fn diagnostic_keeps_the_order_of_its_children() {
    let mut d = Diagnostic::new(Level::Error, String::from("e"));
    assert!(d.is_error());
    assert_eq!(d.children.len(), 0);
    d.sub(Level::Note, String::from("1"));
    d.sub(Level::Help, String::from("2"));
    d.sub(Level::OnceNote, String::from("3"));
    let got: Vec<(Level, &str)> = d.children.iter().map(|c| (c.level, c.message.as_str())).collect();
    assert_eq!(got, vec![(Level::Note, "1"), (Level::Help, "2"), (Level::OnceNote, "3")]);
    let copy = d.duplicate();
    assert_eq!(copy.level, Level::Error);
    assert_eq!(copy.message, "e");
    assert_eq!(copy.children.len(), 3);
    assert_eq!(copy.children[2].message, "3");
    assert!(!Diagnostic::new(Level::Warning, String::from("w")).is_error());
}

#[test]
fn error_builder_returns_the_token_for_a_repeat_too() {
    let mut dcx = new_ctxt();
    let first: ErrorGuaranteed = dcx.err(String::from("undefined symbol x")).emit(&mut dcx);
    let second: ErrorGuaranteed = dcx.err(String::from("undefined symbol x")).emit(&mut dcx);
    assert_eq!(first, second);
    assert_eq!(dcx.err_count(), 2);
    assert_eq!(dcx.deduplicated_err_count(), 1);
    assert_eq!(dcx.emitter().len(), 1);
}

#[test]
fn warning_builder_returns_nothing() {
    let mut dcx = new_ctxt();
    let () = dcx.warn(String::from("unused variable y")).emit(&mut dcx);
    assert_eq!(dcx.warn_count(), 1);
    assert_eq!(dcx.deduplicated_warn_count(), 1);
    let mut quiet = new_ctxt().disable_warnings();
    let () = quiet.warn(String::from("unused variable y")).emit(&mut quiet);
    assert_eq!(quiet.warn_count(), 0);
    assert_eq!(quiet.deduplicated_warn_count(), 0);
    assert_eq!(quiet.emitter().len(), 0);
}

#[test]
fn fatal_builder_emits_and_signals() {
    let mut dcx = new_ctxt();
    let _signal: FatalAbort = dcx.fatal(String::from("cannot read input")).emit(&mut dcx);
    assert_eq!(dcx.err_count(), 1);
    assert_eq!(dcx.deduplicated_err_count(), 1);
    assert_eq!(dcx.emitter().get(0).unwrap().level, Level::Fatal);
}

#[test]
fn note_and_help_builders() {
    let mut dcx = new_ctxt();
    dcx.note(String::from("n")).emit(&mut dcx);
    dcx.help(String::from("h")).emit(&mut dcx);
    assert_eq!(dcx.emitter().len(), 2);
    assert_eq!(dcx.emitter().get(0).unwrap().level, Level::Note);
    assert_eq!(dcx.emitter().get(1).unwrap().level, Level::Help);
    assert_eq!(dcx.err_count(), 0);
    assert_eq!(dcx.warn_count(), 0);
}

#[test]
fn builder_attaches_in_call_order() {
    let dcx = new_ctxt();
    let d = dcx
        .err(String::from("type mismatch"))
        .note(String::from("a"))
        .help(String::from("b"))
        .note_once(String::from("c"))
        .help_once(String::from("d"));
    assert_eq!(d.level(), Level::Error);
    let d = d.into_diagnostic();
    assert_eq!(d.level, Level::Error);
    assert_eq!(d.message, "type mismatch");
    let got: Vec<(Level, &str)> = d.children.iter().map(|c| (c.level, c.message.as_str())).collect();
    assert_eq!(
        got,
        vec![
            (Level::Note, "a"),
            (Level::Help, "b"),
            (Level::OnceNote, "c"),
            (Level::OnceHelp, "d")
        ]
    );
    assert_eq!(dcx.emitter().len(), 0);
}

#[test]
fn once_help_scenario_through_builders() {
    let mut dcx = new_ctxt();
    dcx.err(String::from("type mismatch"))
        .note(String::from("expected u32"))
        .help_once(String::from("see the chapter on types"))
        .emit(&mut dcx);
    dcx.err(String::from("unknown type"))
        .help_once(String::from("see the chapter on types"))
        .emit(&mut dcx);
    assert_eq!(dcx.err_count(), 2);
    assert_eq!(dcx.deduplicated_err_count(), 2);
    assert_eq!(dcx.emitter().get(0).unwrap().children.len(), 2);
    assert_eq!(dcx.emitter().get(1).unwrap().children.len(), 0);
}

#[test]
fn generic_constructor_takes_the_level() {
    let mut dcx = new_ctxt();
    let db: DiagnosticBuilder<()> = dcx.diag(Level::Allow, String::from("quiet"));
    db.emit(&mut dcx);
    let db: DiagnosticBuilder<()> = dcx.diag(Level::Error, String::from("loud"));
    db.emit(&mut dcx);
    assert_eq!(dcx.err_count(), 1);
    assert_eq!(dcx.emitter().len(), 1);
}
