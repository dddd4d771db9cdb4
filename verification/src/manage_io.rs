//! What to do with an input file, and where its output goes. The decisions
//! are taken on plain texts: looking at the file system is the caller's
//! part.

use vstd::prelude::*;
use vstd::string::StringExecFns;
use crate::convert::RdfFormat;
use crate::text::contains;
use crate::text::ends_in;
use crate::text::lowercase_text;
use crate::text::text_contains;
use crate::text::text_ends_with;
use crate::text::to_lowercase;

verus! {

/// The instruments whose records can be converted.
#[derive(Clone, Copy, Debug, PartialEq, Eq, Structural)]
pub enum InputType {
    Synth,
    HCI,
    Agilent,
    Bravo,
}

/// The file name extension of a format.
pub trait RdfFormatExt {
    /// The extension, without a dot.
    spec fn extension_text(&self) -> Seq<char>;

    /// The extension, without a dot.
    fn extension(&self) -> (ext: &'static str)
        ensures
            ext@ == self.extension_text(),
    ;
}

impl RdfFormatExt for RdfFormat {
    open spec fn extension_text(&self) -> Seq<char> {
        match self {
            RdfFormat::Turtle => "ttl"@,
            RdfFormat::Jsonld => "jsonld"@,
        }
    }

    fn extension(&self) -> (ext: &'static str) {
        match self {
            RdfFormat::Turtle => "ttl",
            RdfFormat::Jsonld => "jsonld",
        }
    }
}

/// The instrument that a file name tells of: the first of `synth`, `hci`
/// and `agilent` that its lower-case form holds.
pub open spec fn detected_type(filename: Seq<char>) -> Option<InputType> {
    if text_contains(lowercase_text(filename), "synth"@) {
        Some(InputType::Synth)
    } else if text_contains(lowercase_text(filename), "hci"@) {
        Some(InputType::HCI)
    } else if text_contains(lowercase_text(filename), "agilent"@) {
        Some(InputType::Agilent)
    } else {
        None
    }
}

/// Tells the instrument from the file name.
pub fn detect_input_type(filename: &str) -> (res: Option<InputType>)
    ensures
        res == detected_type(filename@),
{
    let lowercase = to_lowercase(filename);
    if contains(lowercase.as_str(), "synth") {
        Some(InputType::Synth)
    } else if contains(lowercase.as_str(), "hci") {
        Some(InputType::HCI)
    } else if contains(lowercase.as_str(), "agilent") {
        Some(InputType::Agilent)
    } else {
        None
    }
}

/// What to do with an input file.
#[derive(Clone, Debug, PartialEq, Eq)]
pub enum InputAction {
    /// Leave it, for the reason given.
    Skip(String),
    /// Convert it as a record of the instrument.
    Process(InputType),
}

/// The mathematical value of an [`InputAction`].
pub enum InputActionView {
    Skip(Seq<char>),
    Process(InputType),
}

impl View for InputAction {
    type V = InputActionView;

    open spec fn view(&self) -> InputActionView {
        match self {
            InputAction::Skip(reason) => InputActionView::Skip(reason@),
            InputAction::Process(input_type) => InputActionView::Process(*input_type),
        }
    }
}

/// Why no decision could be taken.
#[derive(Clone, Copy, Debug, PartialEq, Eq, Structural)]
pub enum PathError {
    /// The input path has no file name.
    NoFileName,
    /// The input file has no parent folder.
    NoParentFolder,
}

impl PathError {
    /// A sentence for the person reading the failure.
    pub fn message(&self) -> (text: &'static str)
        ensures
            text@ == self.message_text(),
    {
        match self {
            PathError::NoFileName => "Input path has no filename",
            PathError::NoParentFolder => "Failed to get parent folder of input file",
        }
    }

    /// The text of [`PathError::message`].
    pub open spec fn message_text(&self) -> Seq<char> {
        match self {
            PathError::NoFileName => "Input path has no filename"@,
            PathError::NoParentFolder => "Failed to get parent folder of input file"@,
        }
    }
}

/// A file that is RDF already.
pub open spec fn is_rdf_file(filename: Seq<char>) -> bool {
    text_ends_with(filename, ".ttl"@) || text_ends_with(filename, ".jsonld"@)
}

/// What to do with the file of the given name: RDF files are left alone,
/// and so are files that tell of no instrument.
pub open spec fn input_action(filename: Seq<char>) -> InputActionView {
    if is_rdf_file(filename) {
        InputActionView::Skip("Unknown extension."@)
    } else {
        match detected_type(filename) {
            Some(input_type) => InputActionView::Process(input_type),
            None => InputActionView::Skip("No matching type."@),
        }
    }
}

/// Decides what action to take on an input file, from the file name of its
/// path, if it has one.
pub fn determine_input_action(file_name: Option<&str>) -> (res: Result<InputAction, PathError>)
    ensures
        match file_name {
            None => res matches Err(e) && e == PathError::NoFileName,
            Some(name) => res matches Ok(action) && action@ == input_action(name@),
        },
{
    let filename = match file_name {
        Some(name) => name,
        None => {
            return Err(PathError::NoFileName);
        },
    };
    if ends_in(filename, ".ttl") || ends_in(filename, ".jsonld") {
        return Ok(InputAction::Skip(String::from_str("Unknown extension.")));
    }
    let action = match detect_input_type(filename) {
        Some(input_type) => InputAction::Process(input_type),
        None => InputAction::Skip(String::from_str("No matching type.")),
    };
    Ok(action)
}

/// The instrument whose record the file is, or `None` where the file is
/// left alone.
pub fn manage_input(file_name: Option<&str>) -> (res: Result<Option<InputType>, PathError>)
    ensures
        match file_name {
            None => res matches Err(e) && e == PathError::NoFileName,
            Some(name) => res matches Ok(found) && found == match input_action(name@) {
                InputActionView::Process(input_type) => Some(input_type),
                InputActionView::Skip(_) => None::<InputType>,
            },
        },
{
    match determine_input_action(file_name) {
        Err(e) => Err(e),
        Ok(InputAction::Process(input_type)) => Ok(Some(input_type)),
        Ok(InputAction::Skip(_)) => Ok(None),
    }
}

/// The folder that output goes to by default: beside an input file, or the
/// input folder itself.
pub open spec fn default_output_folder(
    input_path: Seq<char>,
    input_is_file: bool,
    parent: Option<&str>,
) -> Result<Seq<char>, PathError> {
    if input_is_file {
        match parent {
            Some(folder) => Ok(folder@),
            None => Err(PathError::NoParentFolder),
        }
    } else {
        Ok(input_path)
    }
}

/// The folder that output goes to: the one that the user gave, else the
/// default. An input file without a parent folder is refused in any case.
pub open spec fn output_folder(
    input_path: Seq<char>,
    input_is_file: bool,
    parent: Option<&str>,
    provided: Option<String>,
) -> Result<Seq<char>, PathError> {
    match default_output_folder(input_path, input_is_file, parent) {
        Err(e) => Err(e),
        Ok(fallback) => match provided {
            Some(folder) => Ok(folder@),
            None => Ok(fallback),
        },
    }
}

/// Which folder the output goes to.
#[derive(Clone, Copy, Debug, PartialEq, Eq, Structural)]
pub enum FolderChoice {
    /// The folder that the user gave.
    Provided,
    /// The parent folder of the input file.
    Parent,
    /// The input folder itself.
    Input,
}

/// The folder that output goes to, told from what is known of the paths:
/// an input file without a parent folder is refused in any case; else the
/// folder that the user gave wins, and without one the output goes beside
/// an input file, or into the input folder.
pub open spec fn folder_choice(input_is_file: bool, has_parent: bool, provided: bool) -> Result<
    FolderChoice,
    PathError,
> {
    if input_is_file && !has_parent {
        Err(PathError::NoParentFolder)
    } else if provided {
        Ok(FolderChoice::Provided)
    } else if input_is_file {
        Ok(FolderChoice::Parent)
    } else {
        Ok(FolderChoice::Input)
    }
}

/// Chooses the folder that output goes to.
pub fn choose_output_folder(input_is_file: bool, has_parent: bool, provided: bool) -> (res: Result<
    FolderChoice,
    PathError,
>)
    ensures
        res == folder_choice(input_is_file, has_parent, provided),
{
    if input_is_file && !has_parent {
        Err(PathError::NoParentFolder)
    } else if provided {
        Ok(FolderChoice::Provided)
    } else if input_is_file {
        Ok(FolderChoice::Parent)
    } else {
        Ok(FolderChoice::Input)
    }
}

/// Defines the output folder, with a fallback based on the input path in
/// case none was given. `input_is_file` tells whether the input path is a
/// file, and `parent` is then its parent folder, if it has one.
pub fn define_output_folder(
    input_path: &str,
    input_is_file: bool,
    parent: Option<&str>,
    provided_output_folder: &Option<String>,
) -> (res: Result<String, PathError>)
    ensures
        match res {
            Ok(folder) => output_folder(input_path@, input_is_file, parent, *provided_output_folder)
                == Ok::<Seq<char>, PathError>(folder@),
            Err(e) => output_folder(input_path@, input_is_file, parent, *provided_output_folder)
                == Err::<Seq<char>, PathError>(e),
        },
{
    match choose_output_folder(input_is_file, parent.is_some(), provided_output_folder.is_some()) {
        Err(e) => Err(e),
        Ok(FolderChoice::Provided) => match provided_output_folder {
            Some(folder) => Ok(folder.clone()),
            None => Ok(String::from_str(input_path)),
        },
        Ok(FolderChoice::Parent) => match parent {
            Some(folder) => Ok(String::from_str(folder)),
            None => Ok(String::from_str(input_path)),
        },
        Ok(FolderChoice::Input) => Ok(String::from_str(input_path)),
    }
}

/// The name of the output file: the stem of the input file, a dot, and the
/// extension of the format.
pub open spec fn output_name(stem: Seq<char>, format: RdfFormat) -> Seq<char> {
    stem + "."@ + format.extension_text()
}

/// Builds the name of the output file.
pub fn output_file_name(stem: &str, format: &RdfFormat) -> (name: String)
    ensures
        name@ == output_name(stem@, *format),
{
    let mut name = String::from_str(stem);
    name.append(".");
    name.append(format.extension());
    name
}

} // verus!
