//! The failures of the filesystem, of the zip reader and of the directory
//! walker, and what the rules of this library read in them.

use vstd::prelude::*;
use walkdir::Error as WalkFailure;
use zip::result::ZipError;

verus! {

/// `std::io::Error`, a failure of the filesystem. It is carried as it
/// stands: nothing is claimed of what it holds.
#[verifier::external_type_specification]
#[verifier::external_body]
pub struct ExIoError(std::io::Error);

/// `zip::result::ZipError`, a failure of the zip reader. It is carried as
/// it stands: nothing is claimed of what it holds.
#[verifier::external_type_specification]
#[verifier::external_body]
pub struct ExZipError(zip::result::ZipError);

/// `walkdir::Error`, a failure of the directory walker. It is carried as
/// it stands: nothing is claimed of what it holds.
#[verifier::external_type_specification]
#[verifier::external_body]
pub struct ExWalkdirError(WalkFailure);

/// The text that `Debug` gives for a string: the string between double
/// quotes, with the characters that would be ambiguous escaped. It stands
/// for what `<str as Debug>::fmt` writes and is not spelled out here.
pub uninterp spec fn quoted(text: Seq<char>) -> Seq<char>;

/// Formats `text` with `{:?}`, which is `<str as Debug>::fmt`. What it
/// writes depends on the characters of `text` alone; the contract gives it
/// the name [`quoted`] and claims no more.
#[verifier::external_body]
pub(crate) fn debug_quoted(text: &str) -> (out: String)
    ensures
        out@ == quoted(text@),
{
    format!("{:?}", text)
}

/// The kinds of filesystem failure that the rules tell apart.
#[derive(Clone, Copy, Debug, PartialEq, Eq, Structural)]
pub enum IoErrorKind {
    /// The resource does not exist.
    NotFound,
    /// The operating system refused the operation.
    PermissionDenied,
    /// The resource exists already.
    AlreadyExists,
    /// Any other kind.
    Other,
}

/// What the rules read in a failure of the filesystem.
#[derive(Debug, PartialEq, Eq)]
pub struct IoFailure {
    pub kind: IoErrorKind,
    /// The failure's own wording.
    pub message: String,
}

/// An [`IoFailure`] with its wording as a sequence of characters.
pub ghost struct IoFailureView {
    pub kind: IoErrorKind,
    pub message: Seq<char>,
}

impl View for IoFailure {
    type V = IoFailureView;

    open spec fn view(&self) -> IoFailureView {
        IoFailureView { kind: self.kind, message: self.message@ }
    }
}

/// What the rules read in a failure of the zip reader.
#[derive(Debug, PartialEq, Eq)]
pub enum ZipFailure {
    /// The filesystem failed underneath the reader.
    Io(IoFailure),
    /// The archive is corrupt; the reader's diagnostic.
    InvalidArchive(&'static str),
    /// The archive holds no such member.
    FileNotFound,
    /// The archive needs a feature that the reader lacks; its diagnostic.
    UnsupportedArchive(&'static str),
}

/// A [`ZipFailure`] with each text as a sequence of characters.
pub ghost enum ZipFailureView {
    Io(IoFailureView),
    InvalidArchive(Seq<char>),
    FileNotFound,
    UnsupportedArchive(Seq<char>),
}

impl View for ZipFailure {
    type V = ZipFailureView;

    open spec fn view(&self) -> ZipFailureView {
        match *self {
            ZipFailure::Io(failure) => ZipFailureView::Io(failure@),
            ZipFailure::InvalidArchive(diagnostic) => ZipFailureView::InvalidArchive(diagnostic@),
            ZipFailure::FileNotFound => ZipFailureView::FileNotFound,
            ZipFailure::UnsupportedArchive(diagnostic) => ZipFailureView::UnsupportedArchive(
                diagnostic@,
            ),
        }
    }
}

/// The kind that `std::io::Error::kind` reports for `err`, with every kind
/// but the first three of [`IoErrorKind`] taken as `Other`. It is held in
/// the failure itself, so it depends on `err` alone.
pub uninterp spec fn kind_of(err: std::io::Error) -> IoErrorKind;

/// What a `zip::result::ZipError` holds: which of its four variants it is,
/// and the failure of the filesystem or the text of the diagnostic in it.
pub ghost enum ZipShape {
    Io(std::io::Error),
    InvalidArchive(Seq<char>),
    FileNotFound,
    UnsupportedArchive(Seq<char>),
}

/// The variant of `err` and what that variant holds.
pub uninterp spec fn shape_of(err: zip::result::ZipError) -> ZipShape;

/// The variants of a `ZipError`, with the filesystem failure still unread.
pub(crate) enum ZipParts {
    Io(std::io::Error),
    InvalidArchive(&'static str),
    FileNotFound,
    UnsupportedArchive(&'static str),
}

impl ZipParts {
    /// The same variant, with each diagnostic as a sequence of characters.
    pub(crate) open spec fn shape(self) -> ZipShape {
        match self {
            ZipParts::Io(io_err) => ZipShape::Io(io_err),
            ZipParts::InvalidArchive(diagnostic) => ZipShape::InvalidArchive(diagnostic@),
            ZipParts::FileNotFound => ZipShape::FileNotFound,
            ZipParts::UnsupportedArchive(diagnostic) => ZipShape::UnsupportedArchive(diagnostic@),
        }
    }
}

/// Calls `std::io::Error::kind` and tells the kinds `NotFound`,
/// `PermissionDenied` and `AlreadyExists` of `std::io::ErrorKind` from the
/// rest. The kind is a field of the failure or follows from its code, so
/// the contract names it [`kind_of`] and claims no more.
#[verifier::external_body]
pub(crate) fn io_error_kind(err: &std::io::Error) -> (kind: IoErrorKind)
    ensures
        kind == kind_of(*err),
{
    match err.kind() {
        std::io::ErrorKind::NotFound => IoErrorKind::NotFound,
        std::io::ErrorKind::PermissionDenied => IoErrorKind::PermissionDenied,
        std::io::ErrorKind::AlreadyExists => IoErrorKind::AlreadyExists,
        _ => IoErrorKind::Other,
    }
}

/// Takes a `zip::result::ZipError` apart, variant by variant, and moves
/// what each variant holds: the parts are the variant of `err`, which the
/// contract names [`shape_of`].
#[verifier::external_body]
pub(crate) fn zip_error_parts(err: ZipError) -> (parts: ZipParts)
    ensures
        parts.shape() == shape_of(err),
{
    match err {
        ZipError::Io(io_err) => ZipParts::Io(io_err),
        ZipError::InvalidArchive(diagnostic) => ZipParts::InvalidArchive(diagnostic),
        ZipError::FileNotFound => ZipParts::FileNotFound,
        ZipError::UnsupportedArchive(diagnostic) => ZipParts::UnsupportedArchive(diagnostic),
    }
}

/// `text` is what `to_string` gives for the failure `err` of the
/// filesystem.
pub open spec fn is_io_wording(err: &std::io::Error, text: Seq<char>) -> bool {
    exists|message: String| #[trigger]
        vstd::string::to_string_from_display_ensures::<std::io::Error>(err, message) && message@
            == text
}

/// `text` is what `to_string` gives for the failure `err` of the directory
/// walker.
pub open spec fn is_walk_wording(err: &WalkFailure, text: Seq<char>) -> bool {
    exists|message: String| #[trigger]
        vstd::string::to_string_from_display_ensures::<WalkFailure>(err, message) && message@
            == text
}

impl IoFailure {
    /// Reads the kind and the wording of a failure of the filesystem.
    pub fn read(err: &std::io::Error) -> (failure: IoFailure)
        ensures
            failure@.kind == kind_of(*err),
            is_io_wording(err, failure@.message),
    {
        IoFailure { kind: io_error_kind(err), message: err.to_string() }
    }
}

} // verus!
