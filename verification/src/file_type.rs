//! The file-type tag: a closed enumeration of the seven POSIX file types,
//! each occupying a fixed pattern in the high nibble of a 16-bit mode word.

use vstd::prelude::*;

verus! {

/// The seven POSIX file types. Each variant stands for a fixed bit pattern
/// inside the type field of a mode word (see [`FileType::IFMT`]).
#[derive(Clone, Copy, Debug, PartialEq, Eq, PartialOrd, Ord, Hash, Structural)]
pub enum FileType {
    /// directory
    IFDIR,
    /// character device
    IFCHR,
    /// block device
    IFBLK,
    /// regular file
    IFREG,
    /// FIFO
    IFIFO,
    /// symbolic link
    IFLNK,
    /// socket
    IFSOCK,
}

impl FileType {
    /// file type bitmask: isolates the type field of a mode word
    pub const IFMT: u16 = 0o170000;

    /// The fixed numeric value of each tag.
    pub open spec fn spec_bits(self) -> u16 {
        match self {
            FileType::IFDIR => 0o040000,
            FileType::IFCHR => 0o020000,
            FileType::IFBLK => 0o060000,
            FileType::IFREG => 0o100000,
            FileType::IFIFO => 0o010000,
            FileType::IFLNK => 0o120000,
            FileType::IFSOCK => 0o140000,
        }
    }

    /// The tag whose value is exactly `raw`, if there is one.
    pub open spec fn spec_from_bits(raw: u16) -> Option<FileType> {
        if raw == 0o040000 {
            Some(FileType::IFDIR)
        } else if raw == 0o020000 {
            Some(FileType::IFCHR)
        } else if raw == 0o060000 {
            Some(FileType::IFBLK)
        } else if raw == 0o100000 {
            Some(FileType::IFREG)
        } else if raw == 0o010000 {
            Some(FileType::IFIFO)
        } else if raw == 0o120000 {
            Some(FileType::IFLNK)
        } else if raw == 0o140000 {
            Some(FileType::IFSOCK)
        } else {
            None
        }
    }

    /// The glyph that stands for this type in a directory listing.
    pub open spec fn spec_glyph(self) -> char {
        match self {
            FileType::IFSOCK => 's',
            FileType::IFLNK => 'l',
            FileType::IFREG => '-',
            FileType::IFBLK => 'b',
            FileType::IFDIR => 'd',
            FileType::IFCHR => 'c',
            FileType::IFIFO => 'p',
        }
    }

    /// Fallible constructor: succeeds iff `raw` is exactly one of the seven
    /// defined type values; stray bits outside the recognized patterns are
    /// rejected, never silently dropped.
    pub fn from_bits(raw: u16) -> (r: Option<FileType>)
        ensures
            r == FileType::spec_from_bits(raw),
    {
        if raw == 0o040000 {
            Some(FileType::IFDIR)
        } else if raw == 0o020000 {
            Some(FileType::IFCHR)
        } else if raw == 0o060000 {
            Some(FileType::IFBLK)
        } else if raw == 0o100000 {
            Some(FileType::IFREG)
        } else if raw == 0o010000 {
            Some(FileType::IFIFO)
        } else if raw == 0o120000 {
            Some(FileType::IFLNK)
        } else if raw == 0o140000 {
            Some(FileType::IFSOCK)
        } else {
            None
        }
    }

    /// The tag's fixed numeric value; total, never fails.
    pub fn bits(self) -> (r: u16)
        ensures
            r == self.spec_bits(),
    {
        match self {
            FileType::IFDIR => 0o040000,
            FileType::IFCHR => 0o020000,
            FileType::IFBLK => 0o060000,
            FileType::IFREG => 0o100000,
            FileType::IFIFO => 0o010000,
            FileType::IFLNK => 0o120000,
            FileType::IFSOCK => 0o140000,
        }
    }

    /// The single character that renders this type in a mode string.
    pub fn glyph(self) -> (r: char)
        ensures
            r == self.spec_glyph(),
    {
        match self {
            FileType::IFSOCK => 's',
            FileType::IFLNK => 'l',
            FileType::IFREG => '-',
            FileType::IFBLK => 'b',
            FileType::IFDIR => 'd',
            FileType::IFCHR => 'c',
            FileType::IFIFO => 'p',
        }
    }
}

/// Exhaustiveness of the type tags: every defined tag round-trips through
/// `from_bits`, and `from_bits` succeeds on exactly the seven defined values.
pub proof fn lemma_file_type_exhaustive(ft: FileType, raw: u16)
    ensures
        FileType::spec_from_bits(ft.spec_bits()) == Some(ft),
        FileType::spec_from_bits(raw) is Some <==> (raw == 0o040000 || raw == 0o020000
            || raw == 0o060000 || raw == 0o100000 || raw == 0o010000 || raw == 0o120000
            || raw == 0o140000),
{
    match ft {
        FileType::IFDIR => {},
        FileType::IFCHR => {},
        FileType::IFBLK => {},
        FileType::IFREG => {},
        FileType::IFIFO => {},
        FileType::IFLNK => {},
        FileType::IFSOCK => {},
    }
}

} // verus!
