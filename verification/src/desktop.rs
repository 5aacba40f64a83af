//! What a launcher button needs of a desktop entry, and the diagnostics of a
//! load that failed.

use vstd::prelude::*;

verus! {

/// A launchable application: the name to display, an icon if the entry names
/// one, and the command to run (the value of the entry's `Exec`).
#[derive(Clone, Debug, Default, PartialEq, Eq)]
pub struct Desktop {
    pub name: String,
    pub icon: Option<String>,
    pub command: String,
}

/// A `Desktop` as a mathematical value.
pub struct DesktopModel {
    pub name: Seq<char>,
    pub icon: Option<Seq<char>>,
    pub command: Seq<char>,
}

impl View for Desktop {
    type V = DesktopModel;

    open spec fn view(&self) -> DesktopModel {
        DesktopModel { name: self.name@, icon: chars_of(self.icon), command: self.command@ }
    }
}

/// The values of the keys `Name`, `Icon` and `Exec` of a decoded entry, each
/// absent where the entry does not hold the key.
#[derive(Clone, Debug, Default, PartialEq, Eq)]
pub struct EntryFields {
    pub name: Option<String>,
    pub icon: Option<String>,
    pub command: Option<String>,
}

/// `EntryFields` as a mathematical value.
pub struct FieldsModel {
    pub name: Option<Seq<char>>,
    pub icon: Option<Seq<char>>,
    pub command: Option<Seq<char>>,
}

impl View for EntryFields {
    type V = FieldsModel;

    open spec fn view(&self) -> FieldsModel {
        FieldsModel {
            name: chars_of(self.name),
            icon: chars_of(self.icon),
            command: chars_of(self.command),
        }
    }
}

/// Why no desktop entry was loaded.
#[derive(Clone, Copy, Debug, PartialEq, Eq, Structural)]
pub enum LoadError {
    /// The entry that was found has no `Name`.
    MissingName,
    /// The entry that was found has no `Exec`.
    MissingExec,
    /// No search path holds a file that can be read and decoded.
    NotFound,
}

/// The characters of an optional string.
pub open spec fn chars_of(text: Option<String>) -> Option<Seq<char>> {
    match text {
        Some(s) => Some(s@),
        None => None,
    }
}

/// The outcome of a load as a mathematical value.
pub open spec fn outcome_of(outcome: Result<Desktop, LoadError>) -> Result<DesktopModel, LoadError> {
    match outcome {
        Ok(desktop) => Ok(desktop@),
        Err(error) => Err(error),
    }
}

/// An entry is launchable when it has both `Name` and `Exec`; its values are
/// then taken over as they are. A missing `Name` is reported before a missing
/// `Exec`.
pub open spec fn launchable(fields: FieldsModel) -> Result<DesktopModel, LoadError> {
    match (fields.name, fields.command) {
        (None, _) => Err(LoadError::MissingName),
        (Some(_), None) => Err(LoadError::MissingExec),
        (Some(name), Some(command)) => Ok(DesktopModel { name, icon: fields.icon, command }),
    }
}

/// The name of the file that holds the entry with the given identifier.
pub open spec fn filename_of(id: Seq<char>) -> Seq<char> {
    id + ".desktop"@
}

impl EntryFields {
    /// Turns the fields of a decoded entry into what the button needs, or says
    /// which required field is missing.
    pub fn into_desktop(self) -> (outcome: Result<Desktop, LoadError>)
        ensures
            outcome_of(outcome) == launchable(self@),
    {
        match self.name {
            None => Err(LoadError::MissingName),
            Some(name) => match self.command {
                None => Err(LoadError::MissingExec),
                Some(command) => Ok(Desktop { name, icon: self.icon, command }),
            },
        }
    }
}

impl LoadError {
    /// The diagnostic of the error, for the file that was looked for.
    pub open spec fn message_of(self, filename: Seq<char>) -> Seq<char> {
        match self {
            LoadError::MissingName => "Desktop file '"@ + filename + "' doesn't have `Name`"@,
            LoadError::MissingExec => "Desktop file '"@ + filename + "' doesn't have `Exec`"@,
            LoadError::NotFound => "Failed to find valid desktop file '"@ + filename
                + "' in search paths"@,
        }
    }

    /// Writes out the diagnostic: it names the file and, where a field is
    /// missing, the field.
    pub fn message(&self, filename: &str) -> (text: String)
        ensures
            text@ == self.message_of(filename@),
    {
        match self {
            LoadError::MissingName => {
                let mut text = String::from_str("Desktop file '");
                text.append(filename);
                text.append("' doesn't have `Name`");
                text
            },
            LoadError::MissingExec => {
                let mut text = String::from_str("Desktop file '");
                text.append(filename);
                text.append("' doesn't have `Exec`");
                text
            },
            LoadError::NotFound => {
                let mut text = String::from_str("Failed to find valid desktop file '");
                text.append(filename);
                text.append("' in search paths");
                text
            },
        }
    }
}

/// Names the file that holds the entry with the given identifier.
pub fn desktop_filename(id: &str) -> (filename: String)
    ensures
        filename@ == filename_of(id@),
{
    let mut filename = String::from_str(id);
    filename.append(".desktop");
    filename
}

/// Whatever the fields of an entry that has `Name` and `Exec`, loading it
/// succeeds and hands back exactly those values, and the icon as it was given.
pub proof fn launchable_entry_is_taken_over(fields: FieldsModel)
    requires
        fields.name is Some,
        fields.command is Some,
    ensures
        launchable(fields) == Ok::<DesktopModel, LoadError>(
            DesktopModel {
                name: fields.name->Some_0,
                icon: fields.icon,
                command: fields.command->Some_0,
            },
        ),
{
}

} // verus!
