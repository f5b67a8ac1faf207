//! The dialogue-box controller.
//!
//! A dialogue script is, for one named node, a sequence of statements:
//! spoken lines, choice prompts, and a terminal exit.  Parsing the
//! script file and loading it as an asset belong to the engine around
//! this crate; the controller here receives the parsed statements as
//! plain values, owns the panel's visibility, advances through the
//! statements on input, and fires a `DialogExited` notification exactly
//! once when the script reaches an exit statement.

use vstd::prelude::*;
use vstd::string::StringExecFns;

verus! {

/// One spoken line: who says it and what is said.
#[derive(Debug)]
pub struct DialogueLine {
    pub who: String,
    pub what: String,
}

/// One statement of a dialogue script.
#[derive(Debug)]
pub enum Statement {
    /// A spoken line.
    Line(DialogueLine),
    /// A choice prompt: the options the player can highlight.
    Choice(Vec<DialogueLine>),
    /// The sentinel that ends the script.
    Exit,
}

/// A running dialogue: the node's name, its statements, the cursor into
/// them, and the highlighted option of the current choice prompt.
#[derive(Debug)]
pub struct DialogueRunner {
    pub current_node_name: String,
    pub statements: Vec<Statement>,
    pub index: usize,
    pub choice: usize,
}

/// Fired when a dialogue reaches its exit statement; carries the name
/// of the node that just finished, so that listeners can branch on it.
#[derive(Debug)]
pub struct DialogExited {
    pub node: String,
}

/// Somewhere at or after position `i` the script has an exit statement.
pub open spec fn has_exit_from(s: Seq<Statement>, i: int) -> bool {
    exists|j: int| i <= j < s.len() && s[j] is Exit
}

impl DialogueRunner {
    /// The cursor never leaves the script.
    pub open spec fn wf(&self) -> bool {
        self.index <= self.statements@.len()
    }

    /// The runner sits on its exit statement.
    pub open spec fn at_exit(&self) -> bool {
        self.index < self.statements@.len() && self.statements@[self.index as int] is Exit
    }

    /// What one confirm input does: past a line or a choice the cursor
    /// moves on and the highlight resets; at the exit statement, or past
    /// the end, nothing moves.
    pub open spec fn next_entry_spec(self) -> DialogueRunner {
        if self.index < self.statements@.len() && !(self.statements@[self.index as int] is Exit) {
            DialogueRunner { index: (self.index + 1) as usize, choice: 0, ..self }
        } else {
            self
        }
    }

    /// What one downward choice input does: on a choice prompt the
    /// highlight moves down one option, stopping at the last; anywhere
    /// else nothing moves.  The ends clamp rather than wrap.
    pub open spec fn next_choice_spec(self) -> DialogueRunner {
        if self.index < self.statements@.len()
            && (self.statements@[self.index as int] matches Statement::Choice(opts)
                && self.choice + 1 < opts@.len()) {
            DialogueRunner { choice: (self.choice + 1) as usize, ..self }
        } else {
            self
        }
    }

    /// What one upward choice input does: on a choice prompt the
    /// highlight moves up one option, stopping at the first; anywhere
    /// else nothing moves.  The ends clamp rather than wrap.
    pub open spec fn prev_choice_spec(self) -> DialogueRunner {
        if self.index < self.statements@.len()
            && (self.statements@[self.index as int] matches Statement::Choice(_))
            && self.choice > 0 {
            DialogueRunner { choice: (self.choice - 1) as usize, ..self }
        } else {
            self
        }
    }

    /// Confirm input: advance to the next statement.
    pub fn next_entry(&mut self)
        requires
            old(self).wf(),
        ensures
            *final(self) == old(self).next_entry_spec(),
            final(self).wf(),
    {
        if self.index < self.statements.len() {
            let advance = match &self.statements[self.index] {
                Statement::Exit => false,
                _ => true,
            };
            if advance {
                self.index = self.index + 1;
                self.choice = 0;
            }
        }
    }

    /// Downward choice input: move the highlight down one option.
    pub fn next_choice(&mut self)
        requires
            old(self).wf(),
        ensures
            *final(self) == old(self).next_choice_spec(),
            final(self).wf(),
    {
        if self.index < self.statements.len() {
            let n_options = match &self.statements[self.index] {
                Statement::Choice(opts) => opts.len(),
                _ => 0,
            };
            if n_options > 0 && self.choice < n_options - 1 {
                self.choice = self.choice + 1;
            }
        }
    }

    /// Upward choice input: move the highlight up one option.
    pub fn prev_choice(&mut self)
        requires
            old(self).wf(),
        ensures
            *final(self) == old(self).prev_choice_spec(),
            final(self).wf(),
    {
        if self.index < self.statements.len() {
            let on_choice = match &self.statements[self.index] {
                Statement::Choice(_) => true,
                _ => false,
            };
            if on_choice && self.choice > 0 {
                self.choice = self.choice - 1;
            }
        }
    }
}

/// The on-screen dialogue panel: its visibility, and the running
/// dialogue attached to it, if any.  With no dialogue attached every
/// operation is a silent no-op, mirroring a single panel that simply
/// is not in use.
#[derive(Debug)]
pub struct DialogBox {
    pub visible: bool,
    pub runner: Option<DialogueRunner>,
}

impl DialogBox {
    /// Every runner ever attached keeps its cursor inside its script.
    pub open spec fn wf(&self) -> bool {
        self.runner matches Some(r) ==> r.wf()
    }
}

/// A fresh, hidden panel with nothing attached.
pub fn spawn_dialog() -> (d: DialogBox)
    ensures
        !d.visible,
        d.runner is None,
        d.wf(),
{
    DialogBox { visible: false, runner: None }
}

/// A request to show a dialogue: the parsed statements of one node and
/// that node's name.
pub struct ShowDialog {
    pub statements: Vec<Statement>,
    pub start_node: String,
}

impl ShowDialog {
    /// Binds the script to the panel and opens it: a fresh runner
    /// starts at the first statement of the named node.
    pub fn write(self, dialog: &mut DialogBox)
        ensures
            final(dialog).visible,
            final(dialog).runner == Some(
                (DialogueRunner {
                    current_node_name: self.start_node,
                    statements: self.statements,
                    index: 0,
                    choice: 0,
                }),
            ),
            final(dialog).wf(),
    {
        dialog.runner = Some(DialogueRunner {
            current_node_name: self.start_node,
            statements: self.statements,
            index: 0,
            choice: 0,
        });
        dialog.visible = true;
    }
}

/// Routes one tick of raw input to the attached runner: confirm
/// advances, the two direction inputs move the choice highlight.  With
/// nothing attached this is a no-op.
pub fn dialog_input_handling(dialog: &mut DialogBox, confirm: bool, down: bool, up: bool)
    requires
        old(dialog).wf(),
    ensures
        final(dialog).wf(),
        final(dialog).visible == old(dialog).visible,
        old(dialog).runner is None ==> *final(dialog) == *old(dialog),
        old(dialog).runner matches Some(r) ==> final(dialog).runner == Some(
            input_spec(r, confirm, down, up),
        ),
{
    match &mut dialog.runner {
        Some(r) => {
            if confirm {
                r.next_entry();
            }
            if down {
                r.next_choice();
            }
            if up {
                r.prev_choice();
            }
        }
        None => {}
    }
}

/// The three inputs of one tick, applied in the order the panel applies
/// them: confirm, then down, then up.
pub open spec fn input_spec(r: DialogueRunner, confirm: bool, down: bool, up: bool) -> DialogueRunner {
    let r1 = if confirm { r.next_entry_spec() } else { r };
    let r2 = if down { r1.next_choice_spec() } else { r1 };
    if up { r2.prev_choice_spec() } else { r2 }
}

/// One display tick of the panel.  On a line or a choice prompt the
/// panel would render text and nothing changes here.  On the exit
/// statement the panel hides, the dialogue is detached so that a later
/// `ShowDialog` starts fresh, and the one `DialogExited` notification
/// for this run is returned; every later tick finds nothing attached
/// and returns nothing.
pub fn dialogue_display(dialog: &mut DialogBox) -> (ev: Option<DialogExited>)
    requires
        old(dialog).wf(),
    ensures
        final(dialog).wf(),
        match old(dialog).runner {
            Some(r) => {
                if r.at_exit() {
                    &&& ev == Some((DialogExited { node: r.current_node_name }))
                    &&& final(dialog).runner is None
                    &&& !final(dialog).visible
                } else {
                    ev is None && *final(dialog) == *old(dialog)
                }
            },
            None => ev is None && *final(dialog) == *old(dialog),
        },
{
    let at_exit = match &dialog.runner {
        Some(r) => {
            if r.index < r.statements.len() {
                match &r.statements[r.index] {
                    Statement::Exit => true,
                    _ => false,
                }
            } else {
                false
            }
        }
        None => false,
    };
    if at_exit {
        dialog.visible = false;
        match dialog.runner.take() {
            Some(r) => Some(DialogExited { node: r.current_node_name }),
            None => {
                proof {
                    assert(false);
                }
                None
            }
        }
    } else {
        None
    }
}

/// No input ever changes which dialogue is bound: the node name and
/// the script survive every confirm and every choice movement, so the
/// exit notification can only carry the node the dialogue was shown
/// with.
pub proof fn law_input_keeps_the_binding(r: DialogueRunner, confirm: bool, down: bool, up: bool)
    ensures
        input_spec(r, confirm, down, up).current_node_name == r.current_node_name,
        input_spec(r, confirm, down, up).statements == r.statements,
{
}

/// One rendered choice option: the highlighted one carries the marker.
pub open spec fn spec_line_text(l: DialogueLine, marked: bool) -> Seq<char> {
    (if marked {
        "--> "@
    } else {
        Seq::empty()
    }) + l.who@ + ": "@ + l.what@ + "\n"@
}

/// The rendered options from position `i` on, one per line, with the
/// option at position `current` marked.
pub open spec fn spec_choices_text_from(opts: Seq<DialogueLine>, current: int, i: int) -> Seq<char>
    decreases opts.len() - i,
{
    if i < 0 || i >= opts.len() {
        Seq::empty()
    } else {
        spec_line_text(opts[i], current == i) + spec_choices_text_from(opts, current, i + 1)
    }
}

/// What the panel's text area shows for a runner: the spoken line, or
/// the choice options with the highlighted one marked; nothing on the
/// exit statement, which hides the panel instead.
pub open spec fn spec_display_text(r: DialogueRunner) -> Seq<char> {
    if r.index < r.statements@.len() {
        match r.statements@[r.index as int] {
            Statement::Line(l) => l.what@ + "\n"@,
            Statement::Choice(opts) => spec_choices_text_from(opts@, r.choice as int, 0),
            Statement::Exit => Seq::empty(),
        }
    } else {
        Seq::empty()
    }
}

/// Renders the text the panel shows this tick; an empty panel shows
/// nothing.
pub fn display_text(dialog: &DialogBox) -> (text: String)
    ensures
        text@ == match dialog.runner {
            Some(r) => spec_display_text(r),
            None => Seq::<char>::empty(),
        },
{
    let mut text = String::new();
    match &dialog.runner {
        None => {}
        Some(r) => {
            if r.index < r.statements.len() {
                match &r.statements[r.index] {
                    Statement::Line(l) => {
                        text.append(l.what.as_str());
                        text.append("\n");
                    }
                    Statement::Choice(opts) => {
                        let ghost all = spec_choices_text_from(opts@, r.choice as int, 0);
                        let mut i: usize = 0;
                        while i < opts.len()
                            invariant
                                i <= opts@.len(),
                                text@ + spec_choices_text_from(opts@, r.choice as int, i as int)
                                    == all,
                                all == spec_choices_text_from(opts@, r.choice as int, 0),
                            decreases opts@.len() - i,
                        {
                            let ghost text0 = text@;
                            let ghost line = spec_line_text(opts@[i as int], r.choice == i);
                            if i == r.choice {
                                text.append("--> ");
                            }
                            text.append(opts[i].who.as_str());
                            text.append(": ");
                            text.append(opts[i].what.as_str());
                            text.append("\n");
                            proof {
                                assert(text@ =~= text0 + line);
                                assert(text0 + spec_choices_text_from(
                                    opts@,
                                    r.choice as int,
                                    i as int,
                                ) =~= (text0 + line) + spec_choices_text_from(
                                    opts@,
                                    r.choice as int,
                                    i + 1,
                                ));
                            }
                            i = i + 1;
                        }
                    }
                    Statement::Exit => {}
                }
            }
        }
    }
    text
}

/// Drives one dialogue from `ShowDialog` to its exit: binds the script,
/// then alternates display ticks with confirm inputs, as the engine's
/// update loop does, until the exit statement fires the notification.
/// The script must contain an exit statement for the run to finish.
/// The notification's node is exactly the `start_node` that was shown,
/// it fires exactly once, and afterwards the panel is hidden and empty.
pub fn run_dialogue(dialog: &mut DialogBox, show: ShowDialog) -> (ev: DialogExited)
    requires
        old(dialog).wf(),
        has_exit_from(show.statements@, 0),
    ensures
        ev.node == show.start_node,
        final(dialog).runner is None,
        !final(dialog).visible,
        final(dialog).wf(),
{
    let ghost start0 = show.start_node;
    let ghost stmts0 = show.statements@;
    show.write(dialog);
    loop
        invariant
            dialog.wf(),
            start0 == show.start_node,
            stmts0 == show.statements@,
            dialog.runner matches Some(r) && r.current_node_name == start0 && r.statements@
                == stmts0 && has_exit_from(stmts0, r.index as int),
        decreases remaining(*dialog),
    {
        let ghost before = *dialog;
        match dialogue_display(dialog) {
            Some(e) => {
                return e;
            }
            None => {}
        }
        dialog_input_handling(dialog, true, false, false);
        proof {
            // the exit statement known to lie ahead is strictly ahead,
            // since the display tick did not fire on this statement
            let r0 = before.runner->Some_0;
            let j = choose|j: int| r0.index <= j < stmts0.len() && stmts0[j] is Exit;
            assert(j >= r0.index + 1);
            assert(has_exit_from(stmts0, r0.index + 1));
            // the script fits in a vector, so the cursor's step stays
            // in range
            assert(r0.statements.len() == r0.statements@.len());
        }
    }
}

/// How much script is left to walk before the cursor reaches the end.
pub open spec fn remaining(d: DialogBox) -> int {
    match d.runner {
        Some(r) => r.statements@.len() - r.index,
        None => 0,
    }
}

} // verus!
