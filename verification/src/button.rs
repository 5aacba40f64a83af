//! The launcher button: one label, and one command to spawn when it is pressed.

use vstd::prelude::*;

use crate::desktop::{Desktop, DesktopModel};

verus! {

/// What the user did to the button.
#[derive(Clone, Copy, Debug, PartialEq, Eq, Structural)]
pub enum Msg {
    Press,
}

/// A process to start without waiting for it: the program and its arguments.
#[derive(Clone, Debug, PartialEq, Eq)]
pub struct Spawn {
    pub program: String,
    pub arguments: Vec<String>,
}

impl Spawn {
    /// The command line: the program, then each argument.
    pub open spec fn line(&self) -> Seq<Seq<char>> {
        seq![self.program@] + self.arguments@.map_values(|argument: String| argument@)
    }
}

/// How a command is handed to the shell.
pub open spec fn shell_line(command: Seq<char>) -> Seq<Seq<char>> {
    seq!["sh"@, "-c"@, command]
}

/// A button that launches one application.
#[derive(Clone, Debug)]
pub struct Button {
    desktop: Desktop,
}

impl View for Button {
    type V = DesktopModel;

    closed spec fn view(&self) -> DesktopModel {
        self.desktop@
    }
}

impl Button {
    /// A button for the given application.
    pub fn new(desktop: Desktop) -> (button: Button)
        ensures
            button@ == desktop@,
    {
        Button { desktop }
    }

    /// The title of the button's window.
    pub fn title(&self) -> (title: String)
        ensures
            title@ == "Button"@,
    {
        String::from_str("Button")
    }

    /// The text on the button: the application's name.
    pub fn label(&self) -> (label: &str)
        ensures
            label@ == self@.name,
    {
        self.desktop.name.as_str()
    }

    /// The application's icon, if its entry names one.
    pub fn icon(&self) -> (icon: &Option<String>)
        ensures
            crate::desktop::chars_of(*icon) == self@.icon,
    {
        &self.desktop.icon
    }

    /// Reacts to a message. A press asks for the application's command to be
    /// run by the shell; the button itself stays as it is.
    pub fn update(&mut self, message: Msg) -> (spawn: Spawn)
        ensures
            final(self)@ == old(self)@,
            spawn.line() == shell_line(old(self)@.command),
    {
        match message {
            Msg::Press => {
                let mut arguments: Vec<String> = Vec::new();
                arguments.push(String::from_str("-c"));
                arguments.push(self.desktop.command.clone());
                let spawn = Spawn { program: String::from_str("sh"), arguments };
                assert(spawn.line() =~= shell_line(self@.command));
                spawn
            },
        }
    }
}

} // verus!
