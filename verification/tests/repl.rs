use numbat_ui::repl::{
    after_command, after_readline, is_blank, CommandDecision, CommandOutcome, LineDecision,
    LineEvent, PROMPT,
};

#[test]
fn prompt_is_three_chevrons_and_a_space() {
    assert_eq!(PROMPT, ">>> ");
}

#[test]
fn blank_lines_are_recognised() {
    assert!(is_blank(""));
    assert!(is_blank(" "));
    assert!(is_blank(" \t\r\n"));
    assert!(is_blank("\u{a0}\u{2003}"));
    assert!(!is_blank("1"));
    assert!(!is_blank("  quit  "));
    assert!(!is_blank("\u{200b}"));
}

#[test]
fn blank_line_leads_back_to_the_prompt() {
    assert_eq!(
        after_readline(&LineEvent::Line(String::new())),
        LineDecision::ReadAgain
    );
    assert_eq!(
        after_readline(&LineEvent::Line("   \t".to_string())),
        LineDecision::ReadAgain
    );
}

#[test]
fn line_with_text_is_evaluated() {
    assert_eq!(
        after_readline(&LineEvent::Line("2 m + 3 cm".to_string())),
        LineDecision::Evaluate
    );
    assert_eq!(
        after_readline(&LineEvent::Line("  x ".to_string())),
        LineDecision::Evaluate
    );
}

#[test]
fn interrupt_leads_back_to_the_prompt() {
    assert_eq!(after_readline(&LineEvent::Interrupted), LineDecision::ReadAgain);
}

#[test]
fn end_of_input_finishes_the_loop() {
    assert_eq!(after_readline(&LineEvent::EndOfInput), LineDecision::Finish);
}

#[test]
fn other_read_failures_abort_the_loop() {
    assert_eq!(after_readline(&LineEvent::Failed), LineDecision::Abort);
}

#[test]
fn each_command_outcome_has_its_decision() {
    assert_eq!(after_command(CommandOutcome::Continue), CommandDecision::ReadAgain);
    assert_eq!(after_command(CommandOutcome::Return), CommandDecision::Finish);
    assert_eq!(after_command(CommandOutcome::Reset), CommandDecision::ResetContext);
    assert_eq!(after_command(CommandOutcome::NotACommand), CommandDecision::Interpret);
    assert_eq!(after_command(CommandOutcome::Failed), CommandDecision::ReportError);
}
