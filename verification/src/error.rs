//! Why a run ends without a disk attached.

use vstd::prelude::*;
use vstd::string::StringSliceAdditionalSpecFns;
use vstd::utf8::encode_utf8;
use crate::format::Codec;

verus! {

/// What was being done to a file when the file system refused.
#[derive(Clone, Copy, Debug, PartialEq, Eq, Structural)]
pub enum IoOperation {
    /// Opening a file to read it.
    Open,
    /// Reading an open file.
    Read,
    /// Creating a file.
    Create,
    /// Writing to a created file.
    Write,
    /// Deleting a file.
    Remove,
}

/// The outside programs that a run starts.
#[derive(Clone, Copy, Debug, PartialEq, Eq, Structural)]
pub enum Program {
    /// The program that converts a raw image to the hypervisor's format.
    Convert,
    /// The program that attaches a disk to a virtual machine.
    Attach,
}

/// Why compressed data could not be turned back into an image.
#[derive(Clone, Copy, Debug, PartialEq, Eq, Structural)]
pub enum DecodeFailure {
    /// The decoder refused the stream: its header or its parameters are
    /// not acceptable, or the data is cut short or corrupt.
    Stream,
    /// The zip archive's directory could not be read.
    Archive,
    /// The zip archive holds no entry.
    EmptyArchive,
    /// The first entry of the zip archive could not be read.
    Entry,
}

/// Each error ends the run.
#[derive(Clone, Debug, PartialEq, Eq)]
pub enum Error {
    /// The file's extension is not one that can be handled. `extension` is
    /// the extension in small letters, `None` where the file has none.
    UnsupportedFormat { extension: Option<Vec<u8>> },
    /// The file system refused `operation` on the file at `path`.
    Io { operation: IoOperation, path: Vec<u8> },
    /// The file's contents could not be decoded as `codec`.
    Decode { codec: Codec, failure: DecodeFailure },
    /// `path` has no file name from which to derive a stem.
    Path { path: Vec<u8> },
    /// `program` could not be started (`output` is `None`), or it ended
    /// with a failure status after writing `output` to its error stream.
    ExternalProcess { program: Program, output: Option<Vec<u8>> },
}

/// An [`Error`] as a mathematical value.
pub enum ErrorView {
    UnsupportedFormat { extension: Option<Seq<u8>> },
    Io { operation: IoOperation, path: Seq<u8> },
    Decode { codec: Codec, failure: DecodeFailure },
    Path { path: Seq<u8> },
    ExternalProcess { program: Program, output: Option<Seq<u8>> },
}

impl View for Error {
    type V = ErrorView;

    open spec fn view(&self) -> ErrorView {
        match *self {
            Error::UnsupportedFormat { extension } => ErrorView::UnsupportedFormat {
                extension: match extension {
                    Some(text) => Some(text@),
                    None => None,
                },
            },
            Error::Io { operation, path } => ErrorView::Io { operation, path: path@ },
            Error::Decode { codec, failure } => ErrorView::Decode { codec, failure },
            Error::Path { path } => ErrorView::Path { path: path@ },
            Error::ExternalProcess { program, output } => ErrorView::ExternalProcess {
                program,
                output: match output {
                    Some(text) => Some(text@),
                    None => None,
                },
            },
        }
    }
}

/// What an error says of itself, before the detail that belongs to it.
pub open spec fn context_of(error: ErrorView) -> Seq<char> {
    match error {
        ErrorView::UnsupportedFormat { extension: None } => "File has no valid extension"@,
        ErrorView::UnsupportedFormat { extension: Some(_) } => "Unsupported file extension"@,
        ErrorView::Io { operation: IoOperation::Open, .. } => "Failed to open file"@,
        ErrorView::Io { operation: IoOperation::Read, .. } => "Failed to read file"@,
        ErrorView::Io { operation: IoOperation::Create, .. } => "Failed to create file"@,
        ErrorView::Io { operation: IoOperation::Write, .. } => "Failed to write file"@,
        ErrorView::Io { operation: IoOperation::Remove, .. } => "Failed to remove file"@,
        ErrorView::Decode { codec: Codec::Bzip2, .. } => "Failed to decompress bz2 file"@,
        ErrorView::Decode { codec: Codec::Gzip, .. } => "Failed to decompress gz file"@,
        ErrorView::Decode { codec: Codec::Lzma, .. } => "Failed to decompress lzma file"@,
        ErrorView::Decode { codec: Codec::Xz, .. } => "Failed to decompress xz file"@,
        ErrorView::Decode {
            codec: Codec::Zip,
            failure: DecodeFailure::EmptyArchive,
        } => "ZIP file is empty"@,
        ErrorView::Decode {
            codec: Codec::Zip,
            failure: DecodeFailure::Entry,
        } => "Failed to extract first file from ZIP archive"@,
        ErrorView::Decode { codec: Codec::Zip, .. } => "Failed to read zip archive"@,
        ErrorView::Path { .. } => "Failed to get file stem"@,
        ErrorView::ExternalProcess {
            program: Program::Convert,
            output: None,
        } => "Failed to execute qemu-img command"@,
        ErrorView::ExternalProcess {
            program: Program::Convert,
            output: Some(_),
        } => "qemu-img failed"@,
        ErrorView::ExternalProcess {
            program: Program::Attach,
            output: None,
        } => "Failed to execute qm command"@,
        ErrorView::ExternalProcess {
            program: Program::Attach,
            output: Some(_),
        } => "qm importdisk failed"@,
    }
}

/// The detail that belongs to an error: the extension that was refused,
/// the path of the file, what the program wrote to its error stream.
pub open spec fn detail_of(error: ErrorView) -> Option<Seq<u8>> {
    match error {
        ErrorView::UnsupportedFormat { extension } => extension,
        ErrorView::Io { path, .. } => Some(path),
        ErrorView::Decode { .. } => None,
        ErrorView::Path { path } => Some(path),
        ErrorView::ExternalProcess { output, .. } => output,
    }
}

/// The message for the operator, as bytes: what the error says of itself
/// and, where it has a detail, a colon, a space and the detail as it is.
pub open spec fn message_of(error: ErrorView) -> Seq<u8> {
    match detail_of(error) {
        Some(detail) => encode_utf8(context_of(error)) + seq![0x3au8, 0x20u8] + detail,
        None => encode_utf8(context_of(error)),
    }
}

impl Error {
    /// What the error says of itself: which step of the run failed.
    pub fn context(&self) -> (text: &'static str)
        ensures
            text@ == context_of(self@),
    {
        match self {
            Error::UnsupportedFormat { extension: None } => "File has no valid extension",
            Error::UnsupportedFormat { extension: Some(_) } => "Unsupported file extension",
            Error::Io { operation, .. } => match operation {
                IoOperation::Open => "Failed to open file",
                IoOperation::Read => "Failed to read file",
                IoOperation::Create => "Failed to create file",
                IoOperation::Write => "Failed to write file",
                IoOperation::Remove => "Failed to remove file",
            },
            Error::Decode { codec, failure } => match codec {
                Codec::Bzip2 => "Failed to decompress bz2 file",
                Codec::Gzip => "Failed to decompress gz file",
                Codec::Lzma => "Failed to decompress lzma file",
                Codec::Xz => "Failed to decompress xz file",
                Codec::Zip => match failure {
                    DecodeFailure::EmptyArchive => "ZIP file is empty",
                    DecodeFailure::Entry => "Failed to extract first file from ZIP archive",
                    _ => "Failed to read zip archive",
                },
            },
            Error::Path { .. } => "Failed to get file stem",
            Error::ExternalProcess { program, output } => match program {
                Program::Convert => match output {
                    None => "Failed to execute qemu-img command",
                    Some(_) => "qemu-img failed",
                },
                Program::Attach => match output {
                    None => "Failed to execute qm command",
                    Some(_) => "qm importdisk failed",
                },
            },
        }
    }

    /// The message for the operator: the [`context`](Error::context) and,
    /// where the error has a [`detail`](Error::detail), a colon, a space
    /// and the detail. The detail is handed on byte for byte; it need not
    /// be text.
    pub fn message(&self) -> (bytes: Vec<u8>)
        ensures
            bytes@ == message_of(self@),
    {
        let mut bytes: Vec<u8> = Vec::new();
        bytes.extend_from_slice(self.context().as_bytes());
        match self.detail() {
            Some(detail) => {
                bytes.push(0x3a);
                bytes.push(0x20);
                bytes.extend_from_slice(detail);
            },
            None => {},
        }
        bytes
    }

    /// The detail that belongs to the error, if it has one.
    pub fn detail(&self) -> (bytes: Option<&[u8]>)
        ensures
            match bytes {
                Some(text) => detail_of(self@) == Some(text@),
                None => detail_of(self@) is None,
            },
    {
        match self {
            Error::UnsupportedFormat { extension: Some(text) } => Some(text.as_slice()),
            Error::UnsupportedFormat { extension: None } => None,
            Error::Io { path, .. } => Some(path.as_slice()),
            Error::Decode { .. } => None,
            Error::Path { path } => Some(path.as_slice()),
            Error::ExternalProcess { output: Some(text), .. } => Some(text.as_slice()),
            Error::ExternalProcess { output: None, .. } => None,
        }
    }
}

} // verus!
