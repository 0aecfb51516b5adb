//! Options for file operations.
use vstd::prelude::*;

verus! {

/// Options for moving a file.
#[derive(Clone, Copy, Debug, PartialEq, Eq, Structural)]
pub struct MoveOptions {
    /// Replace the destination if it exists.
    pub replace_existing: bool,
    /// Copy the file when it cannot be moved (across volumes, for example).
    pub copy_allowed: bool,
    /// Return only once the move is flushed to disk.
    pub write_through: bool,
}

impl Default for MoveOptions {
    fn default() -> (r: MoveOptions)
        ensures
            r == (MoveOptions { replace_existing: false, copy_allowed: false, write_through: false }),
    {
        MoveOptions { replace_existing: false, copy_allowed: false, write_through: false }
    }
}

impl MoveOptions {
    /// Options with every choice off.
    pub fn new() -> (r: MoveOptions)
        ensures
            r == (MoveOptions { replace_existing: false, copy_allowed: false, write_through: false }),
    {
        MoveOptions { replace_existing: false, copy_allowed: false, write_through: false }
    }

    /// Also replace an existing destination.
    pub fn replace(self) -> (r: MoveOptions)
        ensures
            r == (MoveOptions { replace_existing: true, ..self }),
    {
        MoveOptions { replace_existing: true, ..self }
    }

    /// Also allow a copy when the file cannot be moved.
    pub fn allow_copy(self) -> (r: MoveOptions)
        ensures
            r == (MoveOptions { copy_allowed: true, ..self }),
    {
        MoveOptions { copy_allowed: true, ..self }
    }

    /// Also wait until the move is flushed to disk.
    pub fn write_through(self) -> (r: MoveOptions)
        ensures
            r == (MoveOptions { write_through: true, ..self }),
    {
        MoveOptions { write_through: true, ..self }
    }
}

/// Attribute bits of an ordinary file with no other attribute.
pub const FILE_ATTRIBUTE_NORMAL: u32 = 0x80;

/// What to do depending on whether the file exists.
#[derive(Debug, Clone, Copy, PartialEq, Eq, Structural)]
pub enum CreationDisposition {
    /// Create the file; fail if it exists.
    CreateNew,
    /// Create the file, replacing any existing one.
    CreateAlways,
    /// Open the file, creating it if it does not exist.
    OpenAlways,
    /// Open the file and empty it; fail if it does not exist.
    TruncateExisting,
    /// Open the file; fail if it does not exist.
    OpenExisting,
}

/// Options for opening a file.
#[derive(Debug, Clone, Copy, PartialEq, Eq, Structural)]
pub struct OpenOptions {
    /// Opens the file for reading.
    pub read: bool,
    /// Opens the file for writing.
    pub write: bool,
    /// Creates the file if it does not exist.
    pub create: bool,
    /// Creates a new file, failing if it already exists.
    pub create_new: bool,
    /// Truncates the file to zero length.
    pub truncate: bool,
    /// Lets other processes read the file.
    pub share_read: bool,
    /// Lets other processes write to the file.
    pub share_write: bool,
    /// Attribute bits for a created file.
    pub attributes: u32,
}

/// The disposition that the options ask for: a new file wins, then create with
/// truncate, then create, then truncate; otherwise the file must exist.
pub open spec fn disposition_of(o: OpenOptions) -> CreationDisposition {
    if o.create_new {
        CreationDisposition::CreateNew
    } else if o.truncate && o.create {
        CreationDisposition::CreateAlways
    } else if o.create {
        CreationDisposition::OpenAlways
    } else if o.truncate {
        CreationDisposition::TruncateExisting
    } else {
        CreationDisposition::OpenExisting
    }
}

impl Default for OpenOptions {
    fn default() -> (r: OpenOptions)
        ensures
            r == OpenOptions::initial(),
    {
        OpenOptions::new()
    }
}

impl OpenOptions {
    /// Nothing requested, others may read, normal attributes.
    pub open spec fn initial() -> OpenOptions {
        OpenOptions {
            read: false,
            write: false,
            create: false,
            create_new: false,
            truncate: false,
            share_read: true,
            share_write: false,
            attributes: FILE_ATTRIBUTE_NORMAL,
        }
    }

    /// Options with nothing requested, reading shared, normal attributes.
    pub fn new() -> (r: OpenOptions)
        ensures
            r == OpenOptions::initial(),
    {
        OpenOptions {
            read: false,
            write: false,
            create: false,
            create_new: false,
            truncate: false,
            share_read: true,
            share_write: false,
            attributes: FILE_ATTRIBUTE_NORMAL,
        }
    }

    /// Opens the file for reading.
    pub fn read(self, value: bool) -> (r: OpenOptions)
        ensures
            r == (OpenOptions { read: value, ..self }),
    {
        OpenOptions { read: value, ..self }
    }

    /// Opens the file for writing.
    pub fn write(self, value: bool) -> (r: OpenOptions)
        ensures
            r == (OpenOptions { write: value, ..self }),
    {
        OpenOptions { write: value, ..self }
    }

    /// Creates the file if it does not exist.
    pub fn create(self, value: bool) -> (r: OpenOptions)
        ensures
            r == (OpenOptions { create: value, ..self }),
    {
        OpenOptions { create: value, ..self }
    }

    /// Creates a new file, failing if it already exists.
    pub fn create_new(self, value: bool) -> (r: OpenOptions)
        ensures
            r == (OpenOptions { create_new: value, ..self }),
    {
        OpenOptions { create_new: value, ..self }
    }

    /// Truncates the file to zero length.
    pub fn truncate(self, value: bool) -> (r: OpenOptions)
        ensures
            r == (OpenOptions { truncate: value, ..self }),
    {
        OpenOptions { truncate: value, ..self }
    }

    /// Lets other processes read the file.
    pub fn share_read(self, value: bool) -> (r: OpenOptions)
        ensures
            r == (OpenOptions { share_read: value, ..self }),
    {
        OpenOptions { share_read: value, ..self }
    }

    /// Lets other processes write to the file.
    pub fn share_write(self, value: bool) -> (r: OpenOptions)
        ensures
            r == (OpenOptions { share_write: value, ..self }),
    {
        OpenOptions { share_write: value, ..self }
    }

    /// Sets the attribute bits for a created file.
    pub fn attributes(self, attrs: u32) -> (r: OpenOptions)
        ensures
            r == (OpenOptions { attributes: attrs, ..self }),
    {
        OpenOptions { attributes: attrs, ..self }
    }

    /// What to do depending on whether the file exists.
    pub fn creation_disposition(&self) -> (r: CreationDisposition)
        ensures
            r == disposition_of(*self),
    {
        if self.create_new {
            CreationDisposition::CreateNew
        } else if self.truncate && self.create {
            CreationDisposition::CreateAlways
        } else if self.create {
            CreationDisposition::OpenAlways
        } else if self.truncate {
            CreationDisposition::TruncateExisting
        } else {
            CreationDisposition::OpenExisting
        }
    }
}

} // verus!
