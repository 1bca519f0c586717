//! Write options for one archive entry, and the unstable extension trait
//! that exposes the deprecated encryption scheme on them.
//!
//! The options value is a consuming builder: each method takes it by value
//! and returns a new value with one option altered.

use vstd::prelude::*;

verus! {

/// Options for writing one entry into an archive, reduced to the options
/// this layer touches: the large-file flag and the password of the
/// deprecated encryption scheme.
pub struct FileOptions {
    large_file: bool,
    encryption_password: Option<Vec<u8>>,
}

impl FileOptions {
    /// Whether the entry is flagged for the large-file format.
    pub closed spec fn large_file_spec(&self) -> bool {
        self.large_file
    }

    /// The password of the deprecated encryption scheme, if one was set.
    pub closed spec fn password_spec(&self) -> Option<Seq<u8>> {
        match self.encryption_password {
            Some(p) => Some(p@),
            None => None,
        }
    }

    /// Options with every choice at its default: no encryption, no
    /// large-file flag.
    pub fn new() -> (r: Self)
        ensures
            r.password_spec() is None,
            !r.large_file_spec(),
    {
        FileOptions { large_file: false, encryption_password: None }
    }

    /// Flag or unflag the entry for the large-file format.
    pub fn large_file(self, flag: bool) -> (r: Self)
        ensures
            r.large_file_spec() == flag,
            r.password_spec() == self.password_spec(),
    {
        FileOptions { large_file: flag, encryption_password: self.encryption_password }
    }

    /// Write the entry with the given password using the deprecated
    /// ZipCrypto algorithm.  Every other option is left as it was; the
    /// password bytes are taken as given, without validation.
    ///
    /// This is not recommended for new archives, as ZipCrypto is not secure.
    pub fn with_deprecated_encryption(self, password: &[u8]) -> (r: Self)
        ensures
            r.password_spec() == Some(password@),
            r.large_file_spec() == self.large_file_spec(),
    {
        FileOptions {
            large_file: self.large_file,
            encryption_password: Some(vstd::slice::slice_to_vec(password)),
        }
    }

    /// The stored password of the deprecated encryption scheme, for
    /// inspection.
    pub fn deprecated_encryption_password(&self) -> (r: Option<&Vec<u8>>)
        ensures
            r is Some <==> self.password_spec() is Some,
            r matches Some(p) ==> self.password_spec() == Some(p@),
    {
        self.encryption_password.as_ref()
    }

    /// Whether the entry is flagged for the large-file format.
    pub fn is_large_file(&self) -> (r: bool)
        ensures
            r == self.large_file_spec(),
    {
        self.large_file
    }
}

/// Unstable extension methods for [`FileOptions`].
pub trait FileOptionsExt: Sized {
    /// The deprecated-encryption option the value carries.
    spec fn password_view(&self) -> Option<Seq<u8>>;

    /// The value with the deprecated-encryption option cleared: everything
    /// the extension method must leave untouched.
    spec fn sans_password(&self) -> Self;

    /// Write the file with the given password using the deprecated
    /// ZipCrypto algorithm.
    ///
    /// This is not recommended for new archives, as ZipCrypto is not secure.
    fn with_deprecated_encryption(self, password: &[u8]) -> (r: Self)
        ensures
            r.password_view() == Some(password@),
            r.sans_password() == self.sans_password(),
    ;
}

impl FileOptionsExt for FileOptions {
    open spec fn password_view(&self) -> Option<Seq<u8>> {
        self.password_spec()
    }

    closed spec fn sans_password(&self) -> FileOptions {
        FileOptions { large_file: self.large_file, encryption_password: None }
    }

    fn with_deprecated_encryption(self, password: &[u8]) -> (r: FileOptions) {
        FileOptions::with_deprecated_encryption(self, password)
    }
}

/// Configuration shim pass-through: a result of the extension entry point
/// and a result of the underlying builder method, produced from the same
/// options and the same password bytes, agree on every observable option.
/// Both contracts pin the deprecated-encryption option to the given bytes
/// and leave the rest of the options as they were, so the shim adds nothing
/// of its own.
pub proof fn lemma_shim_pass_through(
    opts: FileOptions,
    password: Seq<u8>,
    through_shim: FileOptions,
    through_builder: FileOptions,
)
    requires
        through_shim.password_spec() == Some(password),
        through_shim.large_file_spec() == opts.large_file_spec(),
        through_builder.password_spec() == Some(password),
        through_builder.large_file_spec() == opts.large_file_spec(),
    ensures
        through_shim.password_spec() == through_builder.password_spec(),
        through_shim.large_file_spec() == through_builder.large_file_spec(),
{
}

} // verus!
