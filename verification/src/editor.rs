//! The modal input state machine: which of the Edit, Visual and Command modes
//! is active, and the command text composed while in Command mode.

use vstd::prelude::*;

verus! {

/// The editor's interaction mode. Exactly one is active at a time.
#[derive(Clone, Copy, PartialEq, Eq, Structural, Debug)]
pub enum Mode {
    Command,
    Visual,
    Edit,
}

impl Mode {
    /// The short status label shown for this mode.
    pub open spec fn label(&self) -> Seq<char> {
        match self {
            Mode::Command => "CMD"@,
            Mode::Edit => "EDIT"@,
            Mode::Visual => "VIS"@,
        }
    }

    pub fn get_str(&self) -> (s: String)
        ensures
            s@ == self.label(),
    {
        match self {
            Mode::Command => "CMD".to_owned(),
            Mode::Edit => "EDIT".to_owned(),
            Mode::Visual => "VIS".to_owned(),
        }
    }
}

/// A discrete input the host delivers to the controller, one per physical
/// action: the dedicated mode keys, the command field losing focus, or one
/// character of text input.
#[derive(Clone, Copy, PartialEq, Eq, Debug)]
pub enum EditorEvent {
    /// The "enter command" key (a colon) was pressed.
    EnterCommandKey,
    /// The "toggle visual" key was pressed.
    ToggleVisualKey,
    /// The command text field lost focus: command submission.
    FocusLost,
    /// One character of text input.
    CharacterInput(char),
}

/// The mode an event leads to. Total: undefined combinations are no-ops.
pub open spec fn step_mode(m: Mode, e: EditorEvent) -> Mode {
    match e {
        EditorEvent::EnterCommandKey => Mode::Command,
        EditorEvent::ToggleVisualKey => match m {
            Mode::Edit => Mode::Visual,
            Mode::Visual => Mode::Edit,
            Mode::Command => Mode::Command,
        },
        EditorEvent::FocusLost => if m == Mode::Command {
            Mode::Edit
        } else {
            m
        },
        EditorEvent::CharacterInput(_) => m,
    }
}

/// The command buffer an event leaves behind: characters are appended only in
/// Command mode, and submission (focus loss in Command mode) clears the
/// buffer.
pub open spec fn step_command(m: Mode, buf: Seq<char>, e: EditorEvent) -> Seq<char> {
    match e {
        EditorEvent::EnterCommandKey => buf,
        EditorEvent::ToggleVisualKey => buf,
        EditorEvent::FocusLost => if m == Mode::Command {
            Seq::empty()
        } else {
            buf
        },
        EditorEvent::CharacterInput(c) => if m == Mode::Command {
            buf.push(c)
        } else {
            buf
        },
    }
}

/// Owns the current mode and the in-progress command text, and decides how
/// each input event changes them. Created once, in Edit mode; its transition
/// table is total, so no operation can fail.
pub struct EditorModeController {
    mode: Mode,
    command: String,
}

/// Relies on String::push: appends the given character to the end of the
/// string.
#[verifier::external_body]
fn string_push(s: &mut String, c: char)
    ensures
        final(s)@ == old(s)@.push(c),
{
    s.push(c);
}

impl EditorModeController {
    pub closed spec fn spec_mode(&self) -> Mode {
        self.mode
    }

    pub closed spec fn spec_command(&self) -> Seq<char> {
        self.command@
    }

    /// Mode exclusivity over the buffer: the command text is non-empty only
    /// while Command mode is active.
    pub open spec fn wf(&self) -> bool {
        self.spec_command().len() > 0 ==> self.spec_mode() == Mode::Command
    }

    /// Starts in Edit mode with an empty command buffer.
    pub fn new() -> (c: EditorModeController)
        ensures
            c.wf(),
            c.spec_mode() == Mode::Edit,
            c.spec_command() == Seq::<char>::empty(),
    {
        EditorModeController { mode: Mode::Edit, command: String::new() }
    }

    pub fn mode(&self) -> (m: Mode)
        ensures
            m == self.spec_mode(),
    {
        self.mode
    }

    pub fn command(&self) -> (s: &String)
        ensures
            s@ == self.spec_command(),
    {
        &self.command
    }

    /// The status label for the active mode: a pure query.
    pub fn status(&self) -> (s: String)
        ensures
            s@ == self.spec_mode().label(),
    {
        self.mode.get_str()
    }

    /// The "enter command" key: switches to Command mode from any mode,
    /// leaving the buffer as it was.
    pub fn enter_command(&mut self)
        requires
            old(self).wf(),
        ensures
            final(self).wf(),
            final(self).spec_mode() == Mode::Command,
            final(self).spec_command() == old(self).spec_command(),
    {
        self.mode = Mode::Command;
    }

    /// The "toggle visual" key: switches between Edit and Visual, and has no
    /// effect in Command mode. The buffer is never touched.
    pub fn toggle_visual(&mut self)
        requires
            old(self).wf(),
        ensures
            final(self).wf(),
            final(self).spec_command() == old(self).spec_command(),
            final(self).spec_mode() == step_mode(old(self).spec_mode(), EditorEvent::ToggleVisualKey),
    {
        if self.mode == Mode::Edit {
            self.mode = Mode::Visual;
        } else if self.mode == Mode::Visual {
            self.mode = Mode::Edit;
        }
    }

    /// Command submission: resets to Edit mode and clears the buffer,
    /// irrespective of the buffer's content. The typed text is not
    /// interpreted.
    pub fn process_command(&mut self)
        ensures
            final(self).wf(),
            final(self).spec_mode() == Mode::Edit,
            final(self).spec_command() == Seq::<char>::empty(),
    {
        self.mode = Mode::Edit;
        self.command = String::new();
    }

    /// One character of text input: appended to the command buffer iff
    /// Command mode is active; otherwise a no-op. The mode never changes.
    pub fn text_input(&mut self, c: char)
        requires
            old(self).wf(),
        ensures
            final(self).wf(),
            final(self).spec_mode() == old(self).spec_mode(),
            final(self).spec_command() == step_command(
                old(self).spec_mode(),
                old(self).spec_command(),
                EditorEvent::CharacterInput(c),
            ),
    {
        if self.mode == Mode::Command {
            string_push(&mut self.command, c);
        }
    }

    /// Feeds one event through the transition table: the new mode is
    /// `step_mode` and the new buffer is `step_command` of the old state.
    /// Total over all (mode, event) pairs.
    pub fn handle_event(&mut self, e: EditorEvent)
        requires
            old(self).wf(),
        ensures
            final(self).wf(),
            final(self).spec_mode() == step_mode(old(self).spec_mode(), e),
            final(self).spec_command() == step_command(
                old(self).spec_mode(),
                old(self).spec_command(),
                e,
            ),
    {
        match e {
            EditorEvent::EnterCommandKey => self.enter_command(),
            EditorEvent::ToggleVisualKey => self.toggle_visual(),
            EditorEvent::FocusLost => {
                if self.mode == Mode::Command {
                    self.process_command();
                }
            },
            EditorEvent::CharacterInput(c) => self.text_input(c),
        }
    }
}

/// The mode transition table, exhaustively: toggling from Edit reaches Visual
/// and toggling again returns to Edit; the toggle is a no-op in Command mode;
/// the enter-command key reaches Command from every mode; focus loss leaves
/// Command for Edit and is otherwise a no-op; character input never changes
/// the mode.
pub proof fn lemma_mode_transitions()
    ensures
        step_mode(Mode::Edit, EditorEvent::ToggleVisualKey) == Mode::Visual,
        step_mode(Mode::Visual, EditorEvent::ToggleVisualKey) == Mode::Edit,
        step_mode(Mode::Command, EditorEvent::ToggleVisualKey) == Mode::Command,
        forall|m: Mode| step_mode(m, EditorEvent::EnterCommandKey) == Mode::Command,
        step_mode(Mode::Command, EditorEvent::FocusLost) == Mode::Edit,
        step_mode(Mode::Edit, EditorEvent::FocusLost) == Mode::Edit,
        step_mode(Mode::Visual, EditorEvent::FocusLost) == Mode::Visual,
        forall|m: Mode, c: char| step_mode(m, EditorEvent::CharacterInput(c)) == m,
{
}

/// Characters reach the command buffer only in Command mode: a character
/// event appends exactly when the mode is Command and is a no-op otherwise,
/// and no event other than a submission ever shortens the buffer.
pub proof fn lemma_character_append(m: Mode, buf: Seq<char>, c: char)
    ensures
        m == Mode::Command ==> step_command(m, buf, EditorEvent::CharacterInput(c)) == buf.push(c),
        m != Mode::Command ==> step_command(m, buf, EditorEvent::CharacterInput(c)) == buf,
        step_command(m, buf, EditorEvent::EnterCommandKey) == buf,
        step_command(m, buf, EditorEvent::ToggleVisualKey) == buf,
        m == Mode::Command ==> step_command(m, buf, EditorEvent::FocusLost) == Seq::<char>::empty(),
        m != Mode::Command ==> step_command(m, buf, EditorEvent::FocusLost) == buf,
{
}

} // verus!
