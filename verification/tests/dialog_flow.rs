use farmstore::dialog::{
    dialog_input_handling, dialogue_display, display_text, run_dialogue, spawn_dialog,
    DialogueLine, ShowDialog, Statement,
};

fn line(who: &str, what: &str) -> Statement {
    Statement::Line(DialogueLine {
        who: who.to_owned(),
        what: what.to_owned(),
    })
}

fn choice(options: &[(&str, &str)]) -> Statement {
    Statement::Choice(
        options
            .iter()
            .map(|(who, what)| DialogueLine {
                who: (*who).to_owned(),
                what: (*what).to_owned(),
            })
            .collect(),
    )
}

#[test]
fn fresh_panel_is_hidden_and_empty() {
    let d = spawn_dialog();
    assert!(!d.visible);
    assert!(d.runner.is_none());
}

#[test]
fn show_binds_the_script_and_opens_the_panel() {
    let mut d = spawn_dialog();
    let show = ShowDialog {
        statements: vec![line("Owner", "Hello!"), Statement::Exit],
        start_node: "Welcome".to_owned(),
    };
    show.write(&mut d);
    assert!(d.visible);
    let r = d.runner.as_ref().unwrap();
    assert_eq!(r.current_node_name, "Welcome");
    assert_eq!(r.index, 0);
    assert_eq!(r.choice, 0);
}

#[test]
fn exit_fires_exactly_one_notification_with_the_start_node() {
    let mut d = spawn_dialog();
    let show = ShowDialog {
        statements: vec![line("Owner", "Hello!"), Statement::Exit],
        start_node: "Welcome".to_owned(),
    };
    show.write(&mut d);
    // on the spoken line: no notification
    assert!(dialogue_display(&mut d).is_none());
    // confirm moves past the line
    dialog_input_handling(&mut d, true, false, false);
    // on the exit statement: the one notification, then the panel is
    // hidden and detached
    let ev = dialogue_display(&mut d).expect("exit fires a notification");
    assert_eq!(ev.node, "Welcome");
    assert!(!d.visible);
    assert!(d.runner.is_none());
    // a second tick finds nothing attached and fires nothing
    assert!(dialogue_display(&mut d).is_none());
}

#[test]
fn confirm_does_not_move_past_the_exit() {
    let mut d = spawn_dialog();
    let show = ShowDialog {
        statements: vec![Statement::Exit],
        start_node: "FarmerBuy".to_owned(),
    };
    show.write(&mut d);
    dialog_input_handling(&mut d, true, false, false);
    assert_eq!(d.runner.as_ref().unwrap().index, 0);
    let ev = dialogue_display(&mut d).unwrap();
    assert_eq!(ev.node, "FarmerBuy");
}

#[test]
fn choice_highlight_clamps_at_both_ends() {
    let mut d = spawn_dialog();
    let show = ShowDialog {
        statements: vec![
            choice(&[("Owner", "Buy"), ("Owner", "Sell"), ("Owner", "Leave")]),
            Statement::Exit,
        ],
        start_node: "Welcome".to_owned(),
    };
    show.write(&mut d);
    // up on the first option stays on the first
    dialog_input_handling(&mut d, false, false, true);
    assert_eq!(d.runner.as_ref().unwrap().choice, 0);
    // two presses down reach the last option, a third stays there
    dialog_input_handling(&mut d, false, true, false);
    dialog_input_handling(&mut d, false, true, false);
    assert_eq!(d.runner.as_ref().unwrap().choice, 2);
    dialog_input_handling(&mut d, false, true, false);
    assert_eq!(d.runner.as_ref().unwrap().choice, 2);
    dialog_input_handling(&mut d, false, false, true);
    assert_eq!(d.runner.as_ref().unwrap().choice, 1);
}

#[test]
fn input_on_an_empty_panel_is_a_no_op() {
    let mut d = spawn_dialog();
    dialog_input_handling(&mut d, true, true, true);
    assert!(!d.visible);
    assert!(d.runner.is_none());
}

#[test]
fn panel_text_shows_lines_and_marks_the_highlighted_choice() {
    let mut d = spawn_dialog();
    assert_eq!(display_text(&d), "");
    let show = ShowDialog {
        statements: vec![
            line("Owner", "Welcome!"),
            choice(&[("Owner", "Buy"), ("Owner", "Leave")]),
            Statement::Exit,
        ],
        start_node: "Welcome".to_owned(),
    };
    show.write(&mut d);
    assert_eq!(display_text(&d), "Welcome!\n");
    dialog_input_handling(&mut d, true, false, false);
    assert_eq!(display_text(&d), "--> Owner: Buy\nOwner: Leave\n");
    dialog_input_handling(&mut d, false, true, false);
    assert_eq!(display_text(&d), "Owner: Buy\n--> Owner: Leave\n");
    dialog_input_handling(&mut d, true, false, false);
    // the exit statement shows nothing: the panel is about to close
    assert_eq!(display_text(&d), "");
}

#[test]
fn run_dialogue_walks_any_script_to_its_exit() {
    let mut d = spawn_dialog();
    let show = ShowDialog {
        statements: vec![
            line("Owner", "Welcome to the store!"),
            choice(&[("Owner", "Look around"), ("Owner", "Leave")]),
            line("Owner", "Take your time."),
            Statement::Exit,
        ],
        start_node: "Welcome".to_owned(),
    };
    let ev = run_dialogue(&mut d, show);
    assert_eq!(ev.node, "Welcome");
    assert!(!d.visible);
    assert!(d.runner.is_none());
}
