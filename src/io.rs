//! Removable devices and folders, with their sizes in bytes.

use vstd::prelude::*;
use vstd::string::StringExecFns;

verus! {

/// The quoted, escaped form in which `Debug` writes the text `s`.
pub uninterp spec fn debug_text(s: Seq<char>) -> Seq<char>;

/// A size in bytes as byte_unit writes it in the largest decimal unit that
/// fits ("10 KB").
pub uninterp spec fn decimal_size_text(bytes: u64) -> Seq<char>;

/// Relies on std's `Debug` for `str`, whose output depends on the text alone.
#[verifier::external_body]
fn debug_quoted(s: &str) -> (r: String)
    ensures
        r@ == debug_text(s@),
{
    format!("{:?}", s)
}

/// Relies on byte_unit's `Byte::get_appropriate_unit` with
/// `UnitType::Decimal` and on the `Display` of the `AdjustedByte` it returns.
#[verifier::external_body]
fn decimal_size(bytes: u64) -> (r: String)
    ensures
        r@ == decimal_size_text(bytes),
{
    byte_unit::Byte::from(bytes).get_appropriate_unit(byte_unit::UnitType::Decimal).to_string()
}

/// `label` followed by the quoted text, a new line, `size_label` and the size.
pub open spec fn labelled_text(
    label: Seq<char>,
    text: Seq<char>,
    size_label: Seq<char>,
    bytes: u64,
) -> Seq<char> {
    label + debug_text(text) + size_label + decimal_size_text(bytes)
}

fn labelled(label: &str, text: &String, size_label: &str, bytes: u64) -> (r: String)
    ensures
        r@ == labelled_text(label@, text@, size_label@, bytes),
{
    let mut r = String::from_str(label);
    let quoted = debug_quoted(text.as_str());
    r.append(quoted.as_str());
    r.append(size_label);
    let size = decimal_size(bytes);
    r.append(size.as_str());
    r
}

/// What a `Device` holds.
pub struct DeviceView {
    pub name: Seq<char>,
    pub size: u64,
}

/// A removable device: its name and the space available on it, in bytes.
#[derive(Debug, PartialEq, Eq, PartialOrd, Ord, Clone)]
pub struct Device {
    name: String,
    size: u64,
}

impl View for Device {
    type V = DeviceView;

    closed spec fn view(&self) -> DeviceView {
        DeviceView { name: self.name@, size: self.size }
    }
}

impl Device {
    pub fn new(name: String, size: u64) -> (r: Device)
        ensures
            r@ == (DeviceView { name: name@, size }),
    {
        Device { name, size }
    }

    pub fn get_name(&self) -> (r: String)
        ensures
            r@ == self@.name,
    {
        self.name.clone()
    }

    pub fn get_size(&self) -> (r: u64)
        ensures
            r == self@.size,
    {
        self.size
    }

    /// The device as shown to the user: its quoted name, then the space
    /// available in decimal units.
    pub fn to_string(&self) -> (r: String)
        ensures
            r@ == labelled_text("Name: "@, self@.name, "\nSpace available: "@, self@.size),
    {
        labelled("Name: ", &self.name, "\nSpace available: ", self.size)
    }
}

/// What a `Folder` holds.
pub struct FolderView {
    pub path: Seq<char>,
    pub size: u64,
}

/// A folder to back up: its path and its size, in bytes.
#[derive(Debug, PartialEq, Eq, PartialOrd, Ord, Clone)]
pub struct Folder {
    path: String,
    size: u64,
}

impl View for Folder {
    type V = FolderView;

    closed spec fn view(&self) -> FolderView {
        FolderView { path: self.path@, size: self.size }
    }
}

impl Folder {
    pub fn new(path: String, size: u64) -> (r: Folder)
        ensures
            r@ == (FolderView { path: path@, size }),
    {
        Folder { path, size }
    }

    pub fn get_path(&self) -> (r: String)
        ensures
            r@ == self@.path,
    {
        self.path.clone()
    }

    pub fn get_size(&self) -> (r: u64)
        ensures
            r == self@.size,
    {
        self.size
    }

    /// The folder as shown to the user: its quoted path, then its size in
    /// decimal units.
    pub fn to_string(&self) -> (r: String)
        ensures
            r@ == labelled_text("Path: "@, self@.path, "\nSize: "@, self@.size),
    {
        labelled("Path: ", &self.path, "\nSize: ", self.size)
    }
}

} // verus!
