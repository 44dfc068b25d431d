//! What a compiled file is linked against, as the file itself records it.

use vstd::prelude::*;

verus! {

/// The kinds of file that can be told apart, with the libraries that a file
/// of a supported kind records.
#[derive(Debug)]
pub enum Container {
    /// An ELF file, with the libraries of its dynamic section.
    Elf(Vec<String>),
    /// A Mach-O file for one architecture, with the libraries of its load
    /// commands.
    MachOThin(Vec<String>),
    /// A Mach-O container for several architectures.
    MachOFat,
    /// A Windows PE file.
    PE,
    /// A static archive.
    Archive,
    /// Anything else.
    Unrecognized,
}

/// A [`Container`] as a plain value.
pub enum ContainerView {
    Elf(Seq<Seq<char>>),
    MachOThin(Seq<Seq<char>>),
    MachOFat,
    PE,
    Archive,
    Unrecognized,
}

impl View for Container {
    type V = ContainerView;

    open spec fn view(&self) -> ContainerView {
        match self {
            Container::Elf(libraries) => ContainerView::Elf(libraries.deep_view()),
            Container::MachOThin(libraries) => ContainerView::MachOThin(libraries.deep_view()),
            Container::MachOFat => ContainerView::MachOFat,
            Container::PE => ContainerView::PE,
            Container::Archive => ContainerView::Archive,
            Container::Unrecognized => ContainerView::Unrecognized,
        }
    }
}

/// Why the libraries of a file could not be told.
#[derive(Debug)]
pub enum ExtractError {
    /// The file could not be read.
    ReadFailed,
    /// The file's contents are not a well-formed object file.
    ParseFailed,
    /// The file is of a kind whose libraries are not extracted. The label
    /// names the kind.
    UnsupportedFormat(&'static str),
}

/// An [`ExtractError`] as a plain value.
pub enum ExtractErrorView {
    ReadFailed,
    ParseFailed,
    UnsupportedFormat(Seq<char>),
}

impl View for ExtractError {
    type V = ExtractErrorView;

    open spec fn view(&self) -> ExtractErrorView {
        match self {
            ExtractError::ReadFailed => ExtractErrorView::ReadFailed,
            ExtractError::ParseFailed => ExtractErrorView::ParseFailed,
            ExtractError::UnsupportedFormat(label) => ExtractErrorView::UnsupportedFormat(label@),
        }
    }
}

/// The outcome of an extraction as a plain value.
pub open spec fn outcome(listed: Result<Vec<String>, ExtractError>) -> Result<
    Seq<Seq<char>>,
    ExtractErrorView,
> {
    match listed {
        Ok(libraries) => Ok(libraries.deep_view()),
        Err(error) => Err(error@),
    }
}

/// The libraries that a container gives: those that it records, as they
/// are and in their order, if it is an ELF file or a Mach-O file for one
/// architecture; for any other kind the refusal that names the kind.
pub open spec fn libraries_in(container: ContainerView) -> Result<Seq<Seq<char>>, ExtractErrorView> {
    match container {
        ContainerView::Elf(libraries) => Ok(libraries),
        ContainerView::MachOThin(libraries) => Ok(libraries),
        ContainerView::MachOFat => Err(ExtractErrorView::UnsupportedFormat("fat mach"@)),
        ContainerView::PE => Err(ExtractErrorView::UnsupportedFormat("PE"@)),
        ContainerView::Archive => Err(ExtractErrorView::UnsupportedFormat("archive"@)),
        ContainerView::Unrecognized => Err(ExtractErrorView::UnsupportedFormat("unknown"@)),
    }
}

/// What an extraction gives for the outcome of parsing a file's contents.
pub open spec fn extraction(parsed: Option<ContainerView>) -> Result<
    Seq<Seq<char>>,
    ExtractErrorView,
> {
    match parsed {
        Some(container) => libraries_in(container),
        None => Err(ExtractErrorView::ParseFailed),
    }
}

/// The libraries that a container records, or the refusal that names the
/// container's kind where libraries are not extracted from it.
pub fn libraries_of(container: Container) -> (listed: Result<Vec<String>, ExtractError>)
    ensures
        outcome(listed) == libraries_in(container@),
{
    match container {
        Container::Elf(libraries) => Ok(libraries),
        Container::MachOThin(libraries) => Ok(libraries),
        Container::MachOFat => Err(ExtractError::UnsupportedFormat("fat mach")),
        Container::PE => Err(ExtractError::UnsupportedFormat("PE")),
        Container::Archive => Err(ExtractError::UnsupportedFormat("archive")),
        Container::Unrecognized => Err(ExtractError::UnsupportedFormat("unknown")),
    }
}

/// The error of `goblin`. Nothing is read from it.
#[verifier::external_type_specification]
#[verifier::external_body]
pub struct ExObjectError(goblin::error::Error);

/// The container that `goblin` reads from the contents of a file, or
/// nothing where it finds them malformed.
pub uninterp spec fn parsed_container(bytes: Seq<u8>) -> Option<ContainerView>;

/// Calls `goblin::Object::parse` on the contents of a file. Nothing is said
/// of what it finds in them but that the same contents give the same
/// container, or the same failure. The libraries of an ELF file are those
/// of its field `libraries`, those of a Mach-O file those of its field
/// `libs`; kinds of object other than the six of [`Container`] count as
/// unrecognized.
#[verifier::external_body]
fn parse_container(bytes: &[u8]) -> (parsed: Result<Container, goblin::error::Error>)
    ensures
        parsed matches Ok(container) ==> parsed_container(bytes@) == Some(container@),
        parsed is Err ==> parsed_container(bytes@) is None,
{
    Ok(match goblin::Object::parse(bytes)? {
        goblin::Object::Elf(elf) => Container::Elf(elf.libraries.into_iter().map(String::from).collect()),
        goblin::Object::Mach(goblin::mach::Mach::Binary(mach)) => Container::MachOThin(mach.libs.into_iter().map(String::from).collect()),
        goblin::Object::Mach(goblin::mach::Mach::Fat(_)) => Container::MachOFat,
        goblin::Object::PE(_) => Container::PE,
        goblin::Object::Archive(_) => Container::Archive,
        _ => Container::Unrecognized,
    })
}

/// Tells the libraries that a compiled file is linked against. `contents`
/// is what reading the file gave: `None` if it could not be read.
pub fn analyze(contents: Option<&[u8]>) -> (listed: Result<Vec<String>, ExtractError>)
    ensures
        outcome(listed) == match contents {
            Some(bytes) => extraction(parsed_container(bytes@)),
            None => Err(ExtractErrorView::ReadFailed),
        },
{
    match contents {
        Some(bytes) => match parse_container(bytes) {
            Ok(container) => libraries_of(container),
            Err(_) => Err(ExtractError::ParseFailed),
        },
        None => Err(ExtractError::ReadFailed),
    }
}

} // verus!
