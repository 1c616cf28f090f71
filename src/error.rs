//! The library's error type.
use vstd::prelude::*;

verus! {

/// Everything that parsing, rendering, converting or serialising can fail with.
#[derive(Debug, Clone, PartialEq, Eq)]
pub enum FontError {
    /// A gzip-compressed FIGlet file, which is not supported.
    FigletGzipNotSupported,
    /// No header line.
    FigletMissingHeader,
    /// The header does not start with `flf2a`.
    FigletInvalidSignature,
    /// The header has fewer than six fields.
    FigletIncompleteHeader,
    /// The height field of the header is not a number.
    FigletMissingHeight,
    /// A glyph has fewer lines than the font's height.
    FigletIncompleteChar,
    /// A glyph line does not end with `@`.
    FigletMissingMarker,
    /// The ZIP archive could not be read.
    Zip(String),
    /// The ZIP archive holds no `.flf` entry.
    ZipNoFlf,
    /// A TDF buffer shorter than its fixed header.
    TdfFileTooShort,
    /// The id-length byte is not 19.
    TdfIdLengthMismatch { expected: usize, got: usize },
    /// The signature is not `TheDraw FONTS file`.
    TdfIdMismatch,
    /// The CTRL-Z after the signature is missing.
    TdfMissingCtrlZ,
    /// A font does not start with the font indicator.
    TdfFontIndicatorMismatch,
    /// A font-type byte other than 0, 1 or 2.
    TdfUnsupportedType(u8),
    /// The buffer ends inside the named field.
    TdfTruncated { field: &'static str },
    /// A glyph offset at or beyond the glyph block's size.
    TdfGlyphOutOfBounds { offset: usize, size: usize },
    /// A TDF bundle with no font in it.
    TdfEmptyBundle,
    /// A font name longer than the 12 bytes the format has room for.
    TdfNameTooLong { len: usize, max: usize },
    /// Neither FIGlet nor TDF.
    UnrecognizedFormat,
    /// No glyph of the FIGlet font fits a TDF glyph.
    ConversionIncompatible,
    /// A conversion target that is not supported.
    UnsupportedType,
    /// The sink refused a cell, or glyph data that cannot be written.
    InvalidGlyph,
    /// The font has no glyph for the character.
    UnknownChar(char),
    /// The text is not valid UTF-8; the payload is the length of its valid prefix.
    Utf8(usize),
}

} // verus!
