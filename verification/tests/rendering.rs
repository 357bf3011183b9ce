use ouch_error::colors::Colors;
use ouch_error::error::Error;
use ouch_error::oof::OofError;

fn plain(error: &Error) -> String {
    assert!(error.is_rendered());
    error.render(&Colors::plain())
}

#[test]
fn plain_colors_are_empty() {
    let colors = Colors::plain();
    assert_eq!(colors.red, "");
    assert_eq!(colors.green, "");
    assert_eq!(colors.magenta, "");
    assert_eq!(colors.reset, "");
}

#[test]
fn ansi_colors_are_escape_sequences() {
    let colors = Colors::ansi();
    assert_eq!(colors.red, "\x1b[38;5;9m");
    assert_eq!(colors.green, "\x1b[38;5;10m");
    assert_eq!(colors.magenta, "\x1b[38;5;13m");
    assert_eq!(colors.reset, "\x1b[39m");
    assert_eq!(colors.reset.chars().count(), 5);
}

#[test]
fn missing_extension_quotes_the_path() {
    let error = Error::MissingExtensionError(String::from("archive.xyz"));
    assert_eq!(
        plain(&error),
        "[ERROR] cannot compress to \"archive.xyz\", likely because it has an unsupported (or missing) extension."
    );
}

#[test]
fn walkdir_error_shows_its_reason() {
    let error = Error::WalkdirError { reason: String::from("File system loop found") };
    assert_eq!(plain(&error), "[ERROR] File system loop found");
}

#[test]
fn io_error_shows_its_reason() {
    let error = Error::IoError { reason: String::from("disk full") };
    assert_eq!(plain(&error), "[ERROR] disk full");
}

#[test]
fn file_not_found_without_a_path() {
    let error = Error::FileNotFound(String::new());
    assert_eq!(plain(&error), "[ERROR] file not found!");
}

#[test]
fn file_not_found_quotes_the_path() {
    let error = Error::FileNotFound(String::from("notes.txt"));
    assert_eq!(plain(&error), "[ERROR] file \"notes.txt\" not found!");
}

#[test]
fn file_not_found_escapes_the_path() {
    let error = Error::FileNotFound(String::from("a \"b\"\n\\c"));
    assert_eq!(plain(&error), "[ERROR] file \"a \\\"b\\\"\\n\\\\c\" not found!");
}

#[test]
fn compose_takes_the_quoted_path_as_given() {
    let error = Error::FileNotFound(String::from("notes.txt"));
    assert_eq!(
        error.compose(&Colors::plain(), "\"notes.txt\""),
        "[ERROR] file \"notes.txt\" not found!"
    );
    let error = Error::MissingExtensionError(String::from("x"));
    assert_eq!(
        error.compose(&Colors::plain(), "<x>"),
        "[ERROR] cannot compress to <x>, likely because it has an unsupported (or missing) extension."
    );
}

#[test]
fn compose_ignores_the_quoted_path_where_none_is_shown() {
    let colors = Colors::plain();
    assert_eq!(Error::FileNotFound(String::new()).compose(&colors, "\"x\""), "[ERROR] file not found!");
    assert_eq!(Error::CompressionTypo.compose(&colors, "\"x\""), "Did you mean tool compress?");
    assert_eq!(
        Error::IoError { reason: String::from("r") }.compose(&colors, "\"x\""),
        "[ERROR] r"
    );
}

#[test]
fn compressing_root_folder_message() {
    assert_eq!(
        plain(&Error::CompressingRootFolder),
        "[ERROR] It seems you're trying to compress the root folder.\n        This is unadvisable since this tool does compressions in-memory.\n        Use a more appropriate tool for this, such as rsync."
    );
}

#[test]
fn compressing_root_folder_highlights_the_other_tool() {
    assert_eq!(
        Error::CompressingRootFolder.render(&Colors::ansi()),
        "\x1b[38;5;9m[ERROR]\x1b[39m It seems you're trying to compress the root folder.\n        This is unadvisable since this tool does compressions in-memory.\n        Use a more appropriate tool for this, such as \x1b[38;5;10mrsync\x1b[39m."
    );
}

#[test]
fn missing_arguments_message() {
    assert_eq!(
        plain(&Error::MissingArgumentsForCompression),
        "[ERROR] The compress subcommands demands at least 2 arguments, an input file and an output file.\n        Example: `tool compress img.jpeg img.zip`\n        For more information, run `tool --help`"
    );
}

#[test]
fn internal_error_message() {
    assert_eq!(
        plain(&Error::InternalError),
        "[ERROR] You've reached an internal error! This really should not have happened.\nPlease file an issue at https://github.com/vrmiguel/ouch"
    );
}

#[test]
fn internal_error_highlights_the_address() {
    assert_eq!(
        Error::InternalError.render(&Colors::ansi()),
        "\x1b[38;5;9m[ERROR]\x1b[39m You've reached an internal error! This really should not have happened.\nPlease file an issue at \x1b[38;5;10mhttps://github.com/vrmiguel/ouch\x1b[39m"
    );
}

#[test]
fn argument_error_shows_the_parsers_wording() {
    let error = Error::OofError(OofError::new(String::from("Unknown flag: --fast")));
    assert_eq!(plain(&error), "[ERROR] Unknown flag: --fast");
}

#[test]
fn typo_is_a_bare_suggestion() {
    assert_eq!(plain(&Error::CompressionTypo), "Did you mean tool compress?");
}

#[test]
fn typo_highlights_the_command() {
    assert_eq!(
        Error::CompressionTypo.render(&Colors::ansi()),
        "Did you mean \x1b[38;5;13mtool compress\x1b[39m?"
    );
}

#[test]
fn colors_of_the_caller_are_written_as_given() {
    let colors = Colors { red: "<r>", green: "<g>", magenta: "<m>", reset: "<0>" };
    assert_eq!(Error::FileNotFound(String::new()).render(&colors), "<r>[ERROR]<0> file not found!");
    assert_eq!(Error::CompressionTypo.render(&colors), "Did you mean <m>tool compress<0>?");
}

fn rendered_variants() -> Vec<Error> {
    vec![
        Error::MissingExtensionError(String::from("a.b")),
        Error::WalkdirError { reason: String::from("w") },
        Error::FileNotFound(String::new()),
        Error::FileNotFound(String::from("f")),
        Error::CompressingRootFolder,
        Error::MissingArgumentsForCompression,
        Error::InternalError,
        Error::OofError(OofError::new(String::from("o"))),
        Error::IoError { reason: String::from("i") },
        Error::CompressionTypo,
    ]
}

#[test]
fn every_message_but_the_suggestion_begins_with_the_tag() {
    for error in rendered_variants() {
        let plain_text = error.render(&Colors::plain());
        let ansi_text = error.render(&Colors::ansi());
        if error == Error::CompressionTypo {
            assert!(!plain_text.contains("[ERROR]"));
            assert!(!ansi_text.contains("[ERROR]"));
        } else {
            assert!(plain_text.starts_with("[ERROR] "));
            assert!(ansi_text.starts_with("\x1b[38;5;9m[ERROR]\x1b[39m "));
        }
    }
}

#[test]
fn rendering_twice_gives_the_same_bytes() {
    for colors in [Colors::plain(), Colors::ansi()] {
        for error in rendered_variants() {
            let first = error.render(&colors);
            let second = error.render(&colors);
            assert_eq!(first.as_bytes(), second.as_bytes());
        }
    }
}

#[test]
fn variants_without_a_message_say_so() {
    let unrendered = vec![
        Error::UnknownExtensionError(String::from("xyz")),
        Error::InvalidUnicode,
        Error::InvalidInput,
        Error::AlreadyExists,
        Error::InvalidZipArchive("bad"),
        Error::PermissionDenied,
        Error::UnsupportedZipArchive("zip64"),
    ];
    for error in unrendered {
        assert!(!error.is_rendered());
    }
    for error in rendered_variants() {
        assert!(error.is_rendered());
    }
}
