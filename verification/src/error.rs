//! The failures of the tool and the message that each one shows.

use vstd::prelude::*;

use crate::colors::Colors;
use crate::colors::ColorsView;
use crate::foreign::debug_quoted;
use crate::foreign::is_io_wording;
use crate::foreign::is_walk_wording;
use crate::foreign::kind_of;
use crate::foreign::quoted;
use crate::foreign::shape_of;
use crate::foreign::zip_error_parts;
use crate::foreign::IoErrorKind;
use crate::foreign::IoFailure;
use crate::foreign::IoFailureView;
use crate::foreign::ZipFailure;
use crate::foreign::ZipFailureView;
use crate::foreign::ZipParts;
use crate::foreign::ZipShape;
use crate::laws::lemma_message_begins_with_tag;
use crate::laws::lemma_suggestion_has_no_tag;
use crate::oof::OofError;

verus! {

/// Every way in which a command can fail.
#[derive(Debug, PartialEq)]
pub enum Error {
    /// The extension of the output path names no supported format.
    UnknownExtensionError(String),
    /// The output path has no extension to tell the format by.
    MissingExtensionError(String),
    /// A path or an argument is not valid text.
    InvalidUnicode,
    /// The input is malformed.
    InvalidInput,
    /// A failure of the filesystem that has no variant of its own.
    IoError { reason: String },
    /// A file that does not exist. The path is empty where it is not known.
    FileNotFound(String),
    /// The output exists already and may not be overwritten.
    AlreadyExists,
    /// The archive is corrupt.
    InvalidZipArchive(&'static str),
    /// The operating system refused the operation.
    PermissionDenied,
    /// The archive uses a feature that is not supported.
    UnsupportedZipArchive(&'static str),
    /// The program reached a state that it should never reach.
    InternalError,
    /// The argument parser failed.
    OofError(OofError),
    /// The user asked to compress the root folder.
    CompressingRootFolder,
    /// The compress command got fewer than an input and an output.
    MissingArgumentsForCompression,
    /// The user probably meant the compress command.
    CompressionTypo,
    /// The directory walker failed.
    WalkdirError { reason: String },
}

/// An [`Error`] with each text it holds as a sequence of characters.
pub ghost enum ErrorView {
    UnknownExtensionError(Seq<char>),
    MissingExtensionError(Seq<char>),
    InvalidUnicode,
    InvalidInput,
    IoError { reason: Seq<char> },
    FileNotFound(Seq<char>),
    AlreadyExists,
    InvalidZipArchive(Seq<char>),
    PermissionDenied,
    UnsupportedZipArchive(Seq<char>),
    InternalError,
    OofError(Seq<char>),
    CompressingRootFolder,
    MissingArgumentsForCompression,
    CompressionTypo,
    WalkdirError { reason: Seq<char> },
}

impl View for Error {
    type V = ErrorView;

    open spec fn view(&self) -> ErrorView {
        match *self {
            Error::UnknownExtensionError(extension) => ErrorView::UnknownExtensionError(extension@),
            Error::MissingExtensionError(path) => ErrorView::MissingExtensionError(path@),
            Error::InvalidUnicode => ErrorView::InvalidUnicode,
            Error::InvalidInput => ErrorView::InvalidInput,
            Error::IoError { reason } => ErrorView::IoError { reason: reason@ },
            Error::FileNotFound(path) => ErrorView::FileNotFound(path@),
            Error::AlreadyExists => ErrorView::AlreadyExists,
            Error::InvalidZipArchive(diagnostic) => ErrorView::InvalidZipArchive(diagnostic@),
            Error::PermissionDenied => ErrorView::PermissionDenied,
            Error::UnsupportedZipArchive(diagnostic) => ErrorView::UnsupportedZipArchive(
                diagnostic@,
            ),
            Error::InternalError => ErrorView::InternalError,
            Error::OofError(err) => ErrorView::OofError(err@),
            Error::CompressingRootFolder => ErrorView::CompressingRootFolder,
            Error::MissingArgumentsForCompression => ErrorView::MissingArgumentsForCompression,
            Error::CompressionTypo => ErrorView::CompressionTypo,
            Error::WalkdirError { reason } => ErrorView::WalkdirError { reason: reason@ },
        }
    }
}

/// The text of the error tag, without its colors.
pub open spec fn tag_text() -> Seq<char> {
    "[ERROR]"@
}

/// The tag that opens an error message: `[ERROR]` in red.
pub open spec fn error_tag(colors: ColorsView) -> Seq<char> {
    colors.red + tag_text() + colors.reset
}

/// `needle` stands in `text` at the position `at`.
pub open spec fn occurs_at(needle: Seq<char>, text: Seq<char>, at: int) -> bool {
    &&& 0 <= at
    &&& at + needle.len() <= text.len()
    &&& text.subrange(at, at + needle.len()) == needle
}

/// `needle` stands somewhere in `text`.
pub open spec fn occurs_in(needle: Seq<char>, text: Seq<char>) -> bool {
    exists|at: int| occurs_at(needle, text, at)
}

impl ErrorView {
    /// Whether a message is defined for this failure.
    pub open spec fn is_rendered(self) -> bool {
        match self {
            ErrorView::MissingExtensionError(_) => true,
            ErrorView::WalkdirError { .. } => true,
            ErrorView::FileNotFound(_) => true,
            ErrorView::CompressingRootFolder => true,
            ErrorView::MissingArgumentsForCompression => true,
            ErrorView::InternalError => true,
            ErrorView::OofError(_) => true,
            ErrorView::IoError { .. } => true,
            ErrorView::CompressionTypo => true,
            _ => false,
        }
    }

    /// The path that the failure holds, empty where it holds none.
    pub open spec fn path(self) -> Seq<char> {
        match self {
            ErrorView::MissingExtensionError(path) => path,
            ErrorView::FileNotFound(path) => path,
            _ => Seq::empty(),
        }
    }

    /// The message of this failure, where `quoted_path` is the quoted form
    /// of the path it holds; `None` where no message is defined.
    pub open spec fn composition(self, colors: ColorsView, quoted_path: Seq<char>) -> Option<
        Seq<char>,
    > {
        match self {
            ErrorView::MissingExtensionError(_) => Some(
                error_tag(colors) + " cannot compress to "@ + quoted_path
                    + ", likely because it has an unsupported (or missing) extension."@,
            ),
            ErrorView::WalkdirError { reason } => Some(error_tag(colors) + " "@ + reason),
            ErrorView::FileNotFound(path) => if path.len() == 0 {
                Some(error_tag(colors) + " file not found!"@)
            } else {
                Some(error_tag(colors) + " file "@ + quoted_path + " not found!"@)
            },
            ErrorView::CompressingRootFolder => Some(
                error_tag(colors) + " It seems you're trying to compress the root folder.\n"@
                    + "        This is unadvisable since this tool does compressions in-memory.\n"@
                    + "        Use a more appropriate tool for this, such as "@ + colors.green
                    + "rsync"@ + colors.reset + "."@,
            ),
            ErrorView::MissingArgumentsForCompression => Some(
                error_tag(colors)
                    + " The compress subcommands demands at least 2 arguments, an input file and an output file.\n"@
                    + "        Example: `tool compress img.jpeg img.zip`\n"@
                    + "        For more information, run `tool --help`"@,
            ),
            ErrorView::InternalError => Some(
                error_tag(colors)
                    + " You've reached an internal error! This really should not have happened.\n"@
                    + "Please file an issue at "@ + colors.green
                    + "https://github.com/vrmiguel/ouch"@ + colors.reset,
            ),
            ErrorView::OofError(message) => Some(error_tag(colors) + " "@ + message),
            ErrorView::IoError { reason } => Some(error_tag(colors) + " "@ + reason),
            ErrorView::CompressionTypo => Some(
                "Did you mean "@ + colors.magenta + "tool compress"@ + colors.reset + "?"@,
            ),
            _ => None,
        }
    }

    /// The message of this failure; `None` where no message is defined.
    pub open spec fn rendering(self, colors: ColorsView) -> Option<Seq<char>> {
        self.composition(colors, quoted(self.path()))
    }

    /// What a failure of the filesystem becomes. A missing resource becomes
    /// no failure of this set: the program stops on it.
    pub open spec fn from_io(failure: IoFailureView) -> Option<ErrorView> {
        match failure.kind {
            IoErrorKind::NotFound => None,
            IoErrorKind::PermissionDenied => Some(ErrorView::PermissionDenied),
            IoErrorKind::AlreadyExists => Some(ErrorView::AlreadyExists),
            IoErrorKind::Other => Some(ErrorView::IoError { reason: failure.message }),
        }
    }

    /// What a failure of the zip reader becomes. The reader does not say
    /// which member is missing, so the path of that failure is empty.
    pub open spec fn from_zip(failure: ZipFailureView) -> Option<ErrorView> {
        match failure {
            ZipFailureView::Io(inner) => ErrorView::from_io(inner),
            ZipFailureView::InvalidArchive(diagnostic) => Some(
                ErrorView::InvalidZipArchive(diagnostic),
            ),
            ZipFailureView::FileNotFound => Some(ErrorView::FileNotFound(Seq::empty())),
            ZipFailureView::UnsupportedArchive(diagnostic) => Some(
                ErrorView::UnsupportedZipArchive(diagnostic),
            ),
        }
    }
}

/// Appends the error tag to `out`.
fn push_tag(out: &mut String, colors: &Colors)
    ensures
        final(out)@ == old(out)@ + error_tag(colors@),
{
    out.append(colors.red);
    out.append("[ERROR]");
    out.append(colors.reset);
}

impl Error {
    /// Whether a message is defined for this failure.
    pub fn is_rendered(&self) -> (defined: bool)
        ensures
            defined == self@.is_rendered(),
    {
        match self {
            Error::MissingExtensionError(_) => true,
            Error::WalkdirError { .. } => true,
            Error::FileNotFound(_) => true,
            Error::CompressingRootFolder => true,
            Error::MissingArgumentsForCompression => true,
            Error::InternalError => true,
            Error::OofError(_) => true,
            Error::IoError { .. } => true,
            Error::CompressionTypo => true,
            _ => false,
        }
    }

    /// Composes the message of this failure around `quoted_path`, the quoted
    /// form of the path it holds. A failure that shows no path ignores it.
    pub fn compose(&self, colors: &Colors, quoted_path: &str) -> (out: String)
        requires
            self@.is_rendered(),
        ensures
            self@.composition(colors@, quoted_path@) == Some(out@),
    {
        let mut out = String::new();
        match self {
            Error::MissingExtensionError(_) => {
                push_tag(&mut out, colors);
                out.append(" cannot compress to ");
                out.append(quoted_path);
                out.append(", likely because it has an unsupported (or missing) extension.");
            },
            Error::WalkdirError { reason } => {
                push_tag(&mut out, colors);
                out.append(" ");
                out.append(reason.as_str());
            },
            Error::FileNotFound(path) => {
                push_tag(&mut out, colors);
                if path.as_str().is_empty() {
                    out.append(" file not found!");
                } else {
                    out.append(" file ");
                    out.append(quoted_path);
                    out.append(" not found!");
                }
            },
            Error::CompressingRootFolder => {
                push_tag(&mut out, colors);
                out.append(" It seems you're trying to compress the root folder.\n");
                out.append(
                    "        This is unadvisable since this tool does compressions in-memory.\n",
                );
                out.append("        Use a more appropriate tool for this, such as ");
                out.append(colors.green);
                out.append("rsync");
                out.append(colors.reset);
                out.append(".");
            },
            Error::MissingArgumentsForCompression => {
                push_tag(&mut out, colors);
                out.append(
                    " The compress subcommands demands at least 2 arguments, an input file and an output file.\n",
                );
                out.append("        Example: `tool compress img.jpeg img.zip`\n");
                out.append("        For more information, run `tool --help`");
            },
            Error::InternalError => {
                push_tag(&mut out, colors);
                out.append(
                    " You've reached an internal error! This really should not have happened.\n",
                );
                out.append("Please file an issue at ");
                out.append(colors.green);
                out.append("https://github.com/vrmiguel/ouch");
                out.append(colors.reset);
            },
            Error::OofError(err) => {
                push_tag(&mut out, colors);
                out.append(" ");
                out.append(err.message.as_str());
            },
            Error::IoError { reason } => {
                push_tag(&mut out, colors);
                out.append(" ");
                out.append(reason.as_str());
            },
            Error::CompressionTypo => {
                out.append("Did you mean ");
                out.append(colors.magenta);
                out.append("tool compress");
                out.append(colors.reset);
                out.append("?");
            },
            _ => {},
        }
        out
    }

    /// The message of this failure, as it is shown on the terminal. But for
    /// the suggestion for a mistyped compress command, it begins with the
    /// error tag; the suggestion holds the text `[ERROR]` nowhere, unless a
    /// color code itself holds it.
    pub fn render(&self, colors: &Colors) -> (out: String)
        requires
            self@.is_rendered(),
        ensures
            self@.rendering(colors@) == Some(out@),
            !(self@ is CompressionTypo) ==> error_tag(colors@).is_prefix_of(out@),
            self@ is CompressionTypo && !occurs_in(tag_text(), colors@.magenta) && !occurs_in(
                tag_text(),
                colors@.reset,
            ) ==> !occurs_in(tag_text(), out@),
    {
        let shown = match self {
            Error::MissingExtensionError(path) => debug_quoted(path.as_str()),
            Error::FileNotFound(path) => if path.as_str().is_empty() {
                String::new()
            } else {
                debug_quoted(path.as_str())
            },
            _ => String::new(),
        };
        proof {
            if self@ is CompressionTypo {
                if !occurs_in(tag_text(), colors@.magenta) && !occurs_in(
                    tag_text(),
                    colors@.reset,
                ) {
                    lemma_suggestion_has_no_tag(colors@);
                }
            } else {
                lemma_message_begins_with_tag(self@, colors@);
            }
        }
        self.compose(colors, shown.as_str())
    }
}

impl Error {
    /// Turns a failure of the filesystem into a failure of this set: a
    /// refusal and an existing target have variants of their own, any other
    /// kind keeps its wording as it stands. A missing resource is no input
    /// of this function: the program stops on it.
    pub fn from_io(failure: IoFailure) -> (error: Error)
        requires
            !(failure@.kind is NotFound),
        ensures
            ErrorView::from_io(failure@) == Some(error@),
            failure@.kind is PermissionDenied ==> error@ == ErrorView::PermissionDenied,
            failure@.kind is AlreadyExists ==> error@ == ErrorView::AlreadyExists,
            failure@.kind is Other ==> error@ == (ErrorView::IoError { reason: failure@.message }),
    {
        match failure.kind {
            IoErrorKind::PermissionDenied => Error::PermissionDenied,
            IoErrorKind::AlreadyExists => Error::AlreadyExists,
            _ => Error::IoError { reason: failure.message },
        }
    }

    /// Turns a failure of the zip reader into a failure of this set: a
    /// failure of the filesystem underneath goes by the rule for those, a
    /// diagnostic is kept as it stands, and a missing member becomes a
    /// missing file without a path.
    pub fn from_zip(failure: ZipFailure) -> (error: Error)
        requires
            !(failure@ matches ZipFailureView::Io(inner) && inner.kind is NotFound),
        ensures
            ErrorView::from_zip(failure@) == Some(error@),
            failure@ matches ZipFailureView::InvalidArchive(diagnostic) ==> error@
                == ErrorView::InvalidZipArchive(diagnostic),
            failure@ is FileNotFound ==> error@ == ErrorView::FileNotFound(Seq::empty()),
            failure@ matches ZipFailureView::UnsupportedArchive(diagnostic) ==> error@
                == ErrorView::UnsupportedZipArchive(diagnostic),
    {
        match failure {
            ZipFailure::Io(inner) => Error::from_io(inner),
            ZipFailure::InvalidArchive(diagnostic) => Error::InvalidZipArchive(diagnostic),
            ZipFailure::FileNotFound => Error::FileNotFound(String::new()),
            ZipFailure::UnsupportedArchive(diagnostic) => Error::UnsupportedZipArchive(diagnostic),
        }
    }

    /// Turns the wording of a failure of the directory walker into a failure
    /// of this set, which keeps it as it stands.
    pub fn from_walkdir(reason: String) -> (error: Error)
        ensures
            error@ == (ErrorView::WalkdirError { reason: reason@ }),
    {
        Error::WalkdirError { reason }
    }

    /// Converts a failure of the filesystem: a refusal and an existing
    /// target get their own variants, any other kind keeps the wording that
    /// `to_string` gives for it. One that reports a missing resource, and no
    /// other, is not converted: it is handed back as it came.
    pub fn from_io_error(err: std::io::Error) -> (converted: Result<Error, std::io::Error>)
        ensures
            kind_of(err) is NotFound <==> converted is Err,
            converted matches Err(given) ==> given == err,
            converted matches Ok(error) ==> exists|failure: IoFailureView|
                failure.kind == kind_of(err) && is_io_wording(&err, failure.message)
                    && #[trigger] ErrorView::from_io(failure) == Some(error@),
            kind_of(err) is PermissionDenied ==> (converted matches Ok(error) && error@
                == ErrorView::PermissionDenied),
            kind_of(err) is AlreadyExists ==> (converted matches Ok(error) && error@
                == ErrorView::AlreadyExists),
            kind_of(err) is Other ==> (converted matches Ok(error) && (error@ matches (
                ErrorView::IoError { reason }
            ) && is_io_wording(&err, reason))),
    {
        let failure = IoFailure::read(&err);
        match failure.kind {
            IoErrorKind::NotFound => Err(err),
            _ => Ok(Error::from_io(failure)),
        }
    }

    /// Converts a failure of the zip reader, variant by variant: a failure
    /// of the filesystem underneath goes as [`Error::from_io_error`] takes
    /// it, a diagnostic is kept as it stands, and a missing member becomes
    /// a missing file without a path. Where the filesystem underneath
    /// reports a missing resource, and there only, nothing is converted:
    /// that failure of the filesystem is handed back.
    pub fn from_zip_error(err: zip::result::ZipError) -> (converted: Result<
        Error,
        std::io::Error,
    >)
        ensures
            match shape_of(err) {
                ZipShape::Io(io_err) => {
                    &&& kind_of(io_err) is NotFound <==> converted is Err
                    &&& converted matches Err(given) ==> given == io_err
                    &&& converted matches Ok(error) ==> exists|failure: IoFailureView|
                        failure.kind == kind_of(io_err) && is_io_wording(
                            &io_err,
                            failure.message,
                        ) && #[trigger] ErrorView::from_io(failure) == Some(error@)
                },
                ZipShape::InvalidArchive(diagnostic) => converted matches Ok(error) && error@
                    == ErrorView::InvalidZipArchive(diagnostic),
                ZipShape::FileNotFound => converted matches Ok(error) && error@
                    == ErrorView::FileNotFound(Seq::empty()),
                ZipShape::UnsupportedArchive(diagnostic) => converted matches Ok(error) && error@
                    == ErrorView::UnsupportedZipArchive(diagnostic),
            },
    {
        let failure = match zip_error_parts(err) {
            ZipParts::Io(io_err) => {
                let inner = IoFailure::read(&io_err);
                match inner.kind {
                    IoErrorKind::NotFound => {
                        return Err(io_err);
                    },
                    _ => ZipFailure::Io(inner),
                }
            },
            ZipParts::InvalidArchive(diagnostic) => ZipFailure::InvalidArchive(diagnostic),
            ZipParts::FileNotFound => ZipFailure::FileNotFound,
            ZipParts::UnsupportedArchive(diagnostic) => ZipFailure::UnsupportedArchive(diagnostic),
        };
        Ok(Error::from_zip(failure))
    }
}

impl From<walkdir::Error> for Error {
    /// Keeps the walker's wording of its failure.
    fn from(err: walkdir::Error) -> (error: Error)
        ensures
            error@ matches ErrorView::WalkdirError { reason } && is_walk_wording(&err, reason),
    {
        Error::from_walkdir(err.to_string())
    }
}

impl vstd::std_specs::convert::FromSpecImpl<walkdir::Error> for Error {
    /// The walker's wording is not known before it is asked for, so the
    /// result is stated by `from` itself and not as a function of `err`.
    open spec fn obeys_from_spec() -> bool {
        false
    }

    /// Left open: see `obeys_from_spec`.
    open spec fn from_spec(err: walkdir::Error) -> Error {
        arbitrary()
    }
}

impl From<OofError> for Error {
    /// Wraps the parser's failure as it stands.
    fn from(err: OofError) -> (error: Error)
        ensures
            error == Error::OofError(err),
            error@ == ErrorView::OofError(err@),
    {
        Error::OofError(err)
    }
}

impl vstd::std_specs::convert::FromSpecImpl<OofError> for Error {
    open spec fn obeys_from_spec() -> bool {
        true
    }

    open spec fn from_spec(err: OofError) -> Error {
        Error::OofError(err)
    }
}

} // verus!
