//! Plugin manifests: the record, how it is read from a JSON document, and
//! how a directory's files become a listing.

use crate::plugin::json::{find_member, json_reading, member, parse_json, Json};
use crate::text::join;
use vstd::prelude::*;

verus! {

/// One plugin as its manifest describes it.
#[derive(Clone, Debug)]
pub struct PluginInfo {
    /// Display name.
    pub name: String,
    /// Free text; may be empty.
    pub description: String,
    /// The command that invokes the plugin and names its script file.
    pub command: String,
    /// A hint at the backing file. The script is found by `command`.
    pub file_path: String,
}

/// The mathematical content of a [`PluginInfo`].
pub struct PluginInfoView {
    pub name: Seq<char>,
    pub description: Seq<char>,
    pub command: Seq<char>,
    pub file_path: Seq<char>,
}

impl View for PluginInfo {
    type V = PluginInfoView;

    open spec fn view(&self) -> PluginInfoView {
        PluginInfoView {
            name: self.name@,
            description: self.description@,
            command: self.command@,
            file_path: self.file_path@,
        }
    }
}

/// The members a manifest must have, in the order they are looked for.
#[derive(Clone, Copy, PartialEq, Eq, Structural, Debug)]
pub enum Field {
    Name,
    Description,
    Command,
    FilePath,
}

/// The key under which `field` is stored in a manifest.
pub open spec fn field_key(field: Field) -> Seq<char> {
    match field {
        Field::Name => "name"@,
        Field::Description => "description"@,
        Field::Command => "command"@,
        Field::FilePath => "file_path"@,
    }
}

impl Field {
    /// The key under which this field is stored in a manifest.
    pub fn key(self) -> (key: &'static str)
        ensures
            key@ == field_key(self),
    {
        match self {
            Field::Name => "name",
            Field::Description => "description",
            Field::Command => "command",
            Field::FilePath => "file_path",
        }
    }
}

/// Why a file's text is not a manifest.
#[derive(Debug)]
pub enum ManifestError {
    /// The text is not a JSON document; carries the parser's complaint.
    Syntax(String),
    /// The document is not an object.
    NotAnObject,
    /// The object lacks a member the manifest must have.
    MissingField(Field),
    /// The member is there but is not a string.
    FieldNotText(Field),
}

/// The mathematical content of a [`ManifestError`].
pub enum ManifestErrorView {
    Syntax(Seq<char>),
    NotAnObject,
    MissingField(Field),
    FieldNotText(Field),
}

impl View for ManifestError {
    type V = ManifestErrorView;

    open spec fn view(&self) -> ManifestErrorView {
        match self {
            ManifestError::Syntax(complaint) => ManifestErrorView::Syntax(complaint@),
            ManifestError::NotAnObject => ManifestErrorView::NotAnObject,
            ManifestError::MissingField(field) => ManifestErrorView::MissingField(*field),
            ManifestError::FieldNotText(field) => ManifestErrorView::FieldNotText(*field),
        }
    }
}

/// The words that describe `error` to the caller.
pub open spec fn describe_text(error: ManifestErrorView) -> Seq<char> {
    match error {
        ManifestErrorView::Syntax(complaint) => complaint,
        ManifestErrorView::NotAnObject => "expected a JSON object"@,
        ManifestErrorView::MissingField(field) => "missing field: "@ + field_key(field),
        ManifestErrorView::FieldNotText(field) => "expected a string in field: "@ + field_key(
            field,
        ),
    }
}

impl ManifestError {
    /// The words that describe this error to the caller.
    pub fn describe(&self) -> (words: String)
        ensures
            words@ == describe_text(self@),
    {
        match self {
            ManifestError::Syntax(complaint) => complaint.clone(),
            ManifestError::NotAnObject => String::from_str("expected a JSON object"),
            ManifestError::MissingField(field) => join("missing field: ", field.key()),
            ManifestError::FieldNotText(field) => join("expected a string in field: ", field.key()),
        }
    }
}

/// The text stored under `field`, or why there is none.
pub open spec fn field_text(members: Seq<(String, Json)>, field: Field) -> Result<
    Seq<char>,
    ManifestErrorView,
> {
    match member(members, field_key(field)) {
        None => Err(ManifestErrorView::MissingField(field)),
        Some(Json::Text(text)) => Ok(text@),
        Some(_) => Err(ManifestErrorView::FieldNotText(field)),
    }
}

/// The manifest that `document` holds: an object with the four members as
/// strings. Other members are ignored. Of several faults the one in the
/// earliest field is reported.
pub open spec fn manifest_of(document: Json) -> Result<PluginInfoView, ManifestErrorView> {
    match document {
        Json::Object(members) => match field_text(members@, Field::Name) {
            Err(error) => Err(error),
            Ok(name) => match field_text(members@, Field::Description) {
                Err(error) => Err(error),
                Ok(description) => match field_text(members@, Field::Command) {
                    Err(error) => Err(error),
                    Ok(command) => match field_text(members@, Field::FilePath) {
                        Err(error) => Err(error),
                        Ok(file_path) => Ok(
                            PluginInfoView { name, description, command, file_path },
                        ),
                    },
                },
            },
        },
        _ => Err(ManifestErrorView::NotAnObject),
    }
}

/// The manifest that a file's `text` holds.
pub open spec fn manifest_reading(text: Seq<char>) -> Result<PluginInfoView, ManifestErrorView> {
    match json_reading(text) {
        Err(complaint) => Err(ManifestErrorView::Syntax(complaint)),
        Ok(document) => manifest_of(document),
    }
}

/// The mathematical content of the result of reading a manifest.
pub open spec fn manifest_view(read: Result<PluginInfo, ManifestError>) -> Result<
    PluginInfoView,
    ManifestErrorView,
> {
    match read {
        Ok(plugin) => Ok(plugin@),
        Err(error) => Err(error@),
    }
}

/// The mathematical content of the result of reading one field.
pub open spec fn field_view(read: Result<String, ManifestError>) -> Result<
    Seq<char>,
    ManifestErrorView,
> {
    match read {
        Ok(text) => Ok(text@),
        Err(error) => Err(error@),
    }
}

/// Reads the text stored under `field` among an object's members.
pub fn text_field(members: &Vec<(String, Json)>, field: Field) -> (read: Result<
    String,
    ManifestError,
>)
    ensures
        field_view(read) == field_text(members@, field),
{
    match find_member(members, field.key()) {
        None => Err(ManifestError::MissingField(field)),
        Some(Json::Text(text)) => Ok(text.clone()),
        Some(_) => Err(ManifestError::FieldNotText(field)),
    }
}

/// Reads a manifest out of a JSON document.
pub fn manifest_from_json(document: &Json) -> (read: Result<PluginInfo, ManifestError>)
    ensures
        manifest_view(read) == manifest_of(*document),
{
    match document {
        Json::Object(members) => {
            let name = match text_field(members, Field::Name) {
                Ok(text) => text,
                Err(error) => {
                    return Err(error);
                },
            };
            let description = match text_field(members, Field::Description) {
                Ok(text) => text,
                Err(error) => {
                    return Err(error);
                },
            };
            let command = match text_field(members, Field::Command) {
                Ok(text) => text,
                Err(error) => {
                    return Err(error);
                },
            };
            let file_path = match text_field(members, Field::FilePath) {
                Ok(text) => text,
                Err(error) => {
                    return Err(error);
                },
            };
            Ok(PluginInfo { name, description, command, file_path })
        },
        _ => Err(ManifestError::NotAnObject),
    }
}

/// Reads a manifest out of a file's text.
pub fn read_manifest(text: &str) -> (read: Result<PluginInfo, ManifestError>)
    ensures
        manifest_view(read) == manifest_reading(text@),
{
    match parse_json(text) {
        Ok(document) => manifest_from_json(&document),
        Err(complaint) => Err(ManifestError::Syntax(complaint)),
    }
}

} // verus!
