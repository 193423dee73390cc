//! Error taxonomy of the engine.
//!
//! Two families: invalid-input errors (the caller's mistake, reported with a
//! fixed message) and I/O errors (an environment failure, reported with a
//! short context naming the failing step plus the OS error text).

use vstd::prelude::*;

verus! {

/// The step at which an I/O failure was observed.
#[derive(Debug, Clone, Copy, PartialEq, Eq, Structural)]
pub enum IoStep {
    InspectSegment,
    CanonicalizeSegment,
    Inspect,
    CreateDir,
    CreateParent,
    WriteFile,
    ReadFile,
    ReadDir,
    IterateDir,
    RemoveFile,
    RemoveDir,
    CurrentDir,
    CanonicalizeRoot,
}

/// An error of a file operation.
#[derive(Debug, PartialEq, Eq)]
pub enum OpError {
    /// The batch held no path at all.
    EmptyBatch,
    /// A raw path was empty or whitespace-only.
    EmptyPath,
    /// A raw path was absolute.
    AbsolutePath,
    /// A raw path held a parent-directory component.
    Traversal,
    /// A symlink, or the final path, resolved outside the confinement root.
    PathEscape,
    /// The target of a directory creation was the confinement root itself.
    RootCreate,
    /// The target of a file write was the confinement root itself.
    RootOverwrite,
    /// The target of a removal was the confinement root itself.
    RootRemove,
    /// A read was requested with an encoding other than UTF-8.
    UnsupportedEncoding,
    /// A single content string was supplied together with several paths.
    SingleContentManyPaths,
    /// The content array of a create call was empty.
    EmptyContentArray,
    /// Paths and contents of a create call had different lengths.
    LengthMismatch,
    /// The environment failed at the given step; the payload is the OS error text.
    Io(IoStep, String),
}

pub open spec fn spec_io_context(step: IoStep) -> Seq<char> {
    match step {
        IoStep::InspectSegment => "Failed to inspect path segment"@,
        IoStep::CanonicalizeSegment => "Failed to canonicalize symlink path segment"@,
        IoStep::Inspect => "Failed to inspect path"@,
        IoStep::CreateDir => "Failed to create directory"@,
        IoStep::CreateParent => "Failed to create file parent directory"@,
        IoStep::WriteFile => "Failed to write file"@,
        IoStep::ReadFile => "Failed to read file"@,
        IoStep::ReadDir => "Failed to read directory"@,
        IoStep::IterateDir => "Failed to iterate directory"@,
        IoStep::RemoveFile => "Failed to remove file"@,
        IoStep::RemoveDir => "Failed to remove directory"@,
        IoStep::CurrentDir => "Failed to get cwd"@,
        IoStep::CanonicalizeRoot => "Failed to canonicalize cwd"@,
    }
}

impl OpError {
    /// The human-readable message of this error.
    pub open spec fn spec_message(self) -> Seq<char> {
        match self {
            OpError::EmptyBatch => "At least one path is required"@,
            OpError::EmptyPath => "Path must not be empty"@,
            OpError::AbsolutePath => "Absolute paths are not allowed"@,
            OpError::Traversal => "Path traversal is not allowed"@,
            OpError::PathEscape => "Path resolves outside the repository root"@,
            OpError::RootCreate => "Refusing to create the repository root"@,
            OpError::RootOverwrite => "Refusing to overwrite the repository root"@,
            OpError::RootRemove => "Refusing to remove the repository root"@,
            OpError::UnsupportedEncoding => "Only UTF-8 encoding is supported"@,
            OpError::SingleContentManyPaths => "Single content string only works with a single path"@,
            OpError::EmptyContentArray => "Second argument array must not be empty"@,
            OpError::LengthMismatch => "Path and content arrays must have equal length"@,
            OpError::Io(step, detail) => spec_io_context(step) + ": "@ + detail@,
        }
    }

    /// Renders the message a caller sees for this error.
    pub fn message(&self) -> (r: String)
        ensures
            r@ == self.spec_message(),
    {
        match self {
            OpError::EmptyBatch => String::from_str("At least one path is required"),
            OpError::EmptyPath => String::from_str("Path must not be empty"),
            OpError::AbsolutePath => String::from_str("Absolute paths are not allowed"),
            OpError::Traversal => String::from_str("Path traversal is not allowed"),
            OpError::PathEscape => String::from_str("Path resolves outside the repository root"),
            OpError::RootCreate => String::from_str("Refusing to create the repository root"),
            OpError::RootOverwrite => String::from_str("Refusing to overwrite the repository root"),
            OpError::RootRemove => String::from_str("Refusing to remove the repository root"),
            OpError::UnsupportedEncoding => String::from_str("Only UTF-8 encoding is supported"),
            OpError::SingleContentManyPaths => String::from_str(
                "Single content string only works with a single path",
            ),
            OpError::EmptyContentArray => String::from_str("Second argument array must not be empty"),
            OpError::LengthMismatch => String::from_str("Path and content arrays must have equal length"),
            OpError::Io(step, detail) => {
                let context = match step {
                    IoStep::InspectSegment => String::from_str("Failed to inspect path segment"),
                    IoStep::CanonicalizeSegment => String::from_str(
                        "Failed to canonicalize symlink path segment",
                    ),
                    IoStep::Inspect => String::from_str("Failed to inspect path"),
                    IoStep::CreateDir => String::from_str("Failed to create directory"),
                    IoStep::CreateParent => String::from_str("Failed to create file parent directory"),
                    IoStep::WriteFile => String::from_str("Failed to write file"),
                    IoStep::ReadFile => String::from_str("Failed to read file"),
                    IoStep::ReadDir => String::from_str("Failed to read directory"),
                    IoStep::IterateDir => String::from_str("Failed to iterate directory"),
                    IoStep::RemoveFile => String::from_str("Failed to remove file"),
                    IoStep::RemoveDir => String::from_str("Failed to remove directory"),
                    IoStep::CurrentDir => String::from_str("Failed to get cwd"),
                    IoStep::CanonicalizeRoot => String::from_str("Failed to canonicalize cwd"),
                };
                let with_sep = context.concat(": ");
                with_sep.concat(detail.as_str())
            },
        }
    }
}

/// An error of the encoding, digest or cipher utilities. Variants carrying
/// a `String` hold the underlying library's error text.
#[derive(Debug, PartialEq, Eq)]
pub enum CryptoError {
    /// A binary encoding name other than hex, base16 or base64.
    UnsupportedEncoding,
    /// Input that is not valid hexadecimal.
    InvalidHex(String),
    /// Input that is not valid base64.
    InvalidBase64(String),
    /// Input that is not valid base32.
    InvalidBase32,
    /// Decoded bytes that are not valid UTF-8.
    DecodedNotUtf8(String),
    /// Decrypted bytes that are not valid UTF-8.
    DecryptedNotUtf8(String),
    /// A decrypted RSA plaintext that is not valid UTF-8.
    PlaintextNotUtf8(String),
    /// An AES initialization vector of the wrong length.
    InvalidIvLength,
    /// An AES initialization vector that is not valid hexadecimal.
    InvalidIvHex,
    /// AES encryption failed.
    AesEncryptFailed,
    /// AES decryption failed (wrong key, IV or ciphertext).
    AesDecryptFailed,
    /// An RSA key size outside the accepted range.
    RsaBitsRange,
    /// An RSA key size that is not a multiple of the accepted step.
    RsaBitsStep,
    /// RSA key generation failed.
    RsaKeyGen(String),
    /// Exporting the RSA private key failed.
    RsaPrivateExport(String),
    /// Exporting the RSA public key failed.
    RsaPublicExport(String),
    /// The RSA private key could not be parsed.
    RsaPrivateImport(String),
    /// RSA encryption failed.
    RsaEncryptFailed(String),
    /// RSA decryption failed.
    RsaDecryptFailed(String),
    /// A packet without a private key.
    EmptyPrivateKey,
}

impl CryptoError {
    /// The human-readable message of this error.
    pub open spec fn spec_message(self) -> Seq<char> {
        match self {
            CryptoError::UnsupportedEncoding => "Encoding must be one of: hex, base16, base64"@,
            CryptoError::InvalidHex(d) => "Invalid hex input: "@ + d@,
            CryptoError::InvalidBase64(d) => "Invalid base64 input: "@ + d@,
            CryptoError::InvalidBase32 => "Invalid base32 input"@,
            CryptoError::DecodedNotUtf8(d) => "Decoded bytes are not valid UTF-8: "@ + d@,
            CryptoError::DecryptedNotUtf8(d) => "Decrypted bytes are not valid UTF-8: "@ + d@,
            CryptoError::PlaintextNotUtf8(d) => "RSA plaintext is not valid UTF-8: "@ + d@,
            CryptoError::InvalidIvLength => "AES IV must be 16 bytes encoded as 32 hex characters"@,
            CryptoError::InvalidIvHex => "AES IV must be valid hex"@,
            CryptoError::AesEncryptFailed => "AES encryption failed"@,
            CryptoError::AesDecryptFailed => "AES decryption failed"@,
            CryptoError::RsaBitsRange => "RSA bits must be in range 2048..=8192"@,
            CryptoError::RsaBitsStep => "RSA bits must be a multiple of 256"@,
            CryptoError::RsaKeyGen(d) => "RSA key generation failed: "@ + d@,
            CryptoError::RsaPrivateExport(d) => "RSA private key export failed: "@ + d@,
            CryptoError::RsaPublicExport(d) => "RSA public key export failed: "@ + d@,
            CryptoError::RsaPrivateImport(d) => "RSA private key is invalid: "@ + d@,
            CryptoError::RsaEncryptFailed(d) => "RSA encryption failed: "@ + d@,
            CryptoError::RsaDecryptFailed(d) => "RSA decryption failed: "@ + d@,
            CryptoError::EmptyPrivateKey => "RSA packet.privateKey must not be empty"@,
        }
    }

    /// Renders the message a caller sees for this error.
    pub fn message(&self) -> (r: String)
        ensures
            r@ == self.spec_message(),
    {
        match self {
            CryptoError::UnsupportedEncoding => String::from_str(
                "Encoding must be one of: hex, base16, base64",
            ),
            CryptoError::InvalidHex(d) => String::from_str("Invalid hex input: ").concat(d.as_str()),
            CryptoError::InvalidBase64(d) => String::from_str("Invalid base64 input: ").concat(
                d.as_str(),
            ),
            CryptoError::InvalidBase32 => String::from_str("Invalid base32 input"),
            CryptoError::DecodedNotUtf8(d) => String::from_str(
                "Decoded bytes are not valid UTF-8: ",
            ).concat(d.as_str()),
            CryptoError::DecryptedNotUtf8(d) => String::from_str(
                "Decrypted bytes are not valid UTF-8: ",
            ).concat(d.as_str()),
            CryptoError::PlaintextNotUtf8(d) => String::from_str(
                "RSA plaintext is not valid UTF-8: ",
            ).concat(d.as_str()),
            CryptoError::InvalidIvLength => String::from_str(
                "AES IV must be 16 bytes encoded as 32 hex characters",
            ),
            CryptoError::InvalidIvHex => String::from_str("AES IV must be valid hex"),
            CryptoError::AesEncryptFailed => String::from_str("AES encryption failed"),
            CryptoError::AesDecryptFailed => String::from_str("AES decryption failed"),
            CryptoError::RsaBitsRange => String::from_str("RSA bits must be in range 2048..=8192"),
            CryptoError::RsaBitsStep => String::from_str("RSA bits must be a multiple of 256"),
            CryptoError::RsaKeyGen(d) => String::from_str("RSA key generation failed: ").concat(
                d.as_str(),
            ),
            CryptoError::RsaPrivateExport(d) => String::from_str(
                "RSA private key export failed: ",
            ).concat(d.as_str()),
            CryptoError::RsaPublicExport(d) => String::from_str(
                "RSA public key export failed: ",
            ).concat(d.as_str()),
            CryptoError::RsaPrivateImport(d) => String::from_str(
                "RSA private key is invalid: ",
            ).concat(d.as_str()),
            CryptoError::RsaEncryptFailed(d) => String::from_str("RSA encryption failed: ").concat(
                d.as_str(),
            ),
            CryptoError::RsaDecryptFailed(d) => String::from_str("RSA decryption failed: ").concat(
                d.as_str(),
            ),
            CryptoError::EmptyPrivateKey => String::from_str(
                "RSA packet.privateKey must not be empty",
            ),
        }
    }
}

} // verus!
