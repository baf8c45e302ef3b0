use crate::endian::{
    be16, be32, be64, read_be16, read_be32, read_be64, store_be16, store_be32, store_be64,
    write_be16, write_be32, write_be64,
};
use crate::header::{spec_header, StoryHeader};
use crate::{MemoryError, StoryFileError};
use vstd::prelude::*;

verus! {

/// The single story-file version this engine executes.
pub const SUPPORTED_VERSION: u16 = 0x0200;

/// The machine's address space: the full story-file image as a byte buffer,
/// together with the header decoded from its first 1024 bytes.
///
/// Every access of width `w` at address `a` demands `a + w <= data.len()`
/// and fails with `MemoryError::OutOfBounds` otherwise; nothing is silently
/// truncated.
#[derive(Debug)]
pub struct Memory {
    pub header: StoryHeader,
    pub data: Vec<u8>,
}

impl Memory {
    /// The construction-time invariant: the buffer covers at least the
    /// header, and the header carries the supported version.
    pub open spec fn wf(&self) -> bool {
        &&& self.data@.len() >= 1024
        &&& self.header.version == SUPPORTED_VERSION
    }

    /// Builds the address space from a full story-file image: decodes the
    /// header, rejects a short buffer or an unsupported version, and keeps
    /// the entire buffer as the backing store.
    pub fn new(story_file_data: Vec<u8>) -> (r: Result<Memory, StoryFileError>)
        ensures
            match r {
                Ok(m) => {
                    &&& story_file_data@.len() >= 1024
                    &&& spec_header(story_file_data@).version == SUPPORTED_VERSION
                    &&& m.header@ == spec_header(story_file_data@)
                    &&& m.data@ == story_file_data@
                    &&& m.wf()
                },
                Err(StoryFileError::TooShort) => story_file_data@.len() < 1024,
                Err(StoryFileError::UnsupportedVersion(v)) => {
                    &&& story_file_data@.len() >= 1024
                    &&& v == spec_header(story_file_data@).version
                    &&& v != SUPPORTED_VERSION
                },
            },
    {
        if story_file_data.len() < 1024 {
            return Err(StoryFileError::TooShort);
        }
        let header = match StoryHeader::from_bytes(story_file_data.as_slice()) {
            Ok(h) => h,
            Err(e) => {
                return Err(e);
            },
        };
        if header.version != SUPPORTED_VERSION {
            return Err(StoryFileError::UnsupportedVersion(header.version));
        }
        Ok(Memory { header, data: story_file_data })
    }

    /// Reads the byte at `address`.
    pub fn read_byte(&self, address: u64) -> (r: Result<u8, MemoryError>)
        ensures
            match r {
                Ok(b) => address < self.data@.len() && b == self.data@[address as int],
                Err(MemoryError::OutOfBounds) => address >= self.data@.len(),
            },
    {
        if address >= self.data.len() as u64 {
            return Err(MemoryError::OutOfBounds);
        }
        Ok(self.data[address as usize])
    }

    /// Writes one byte at `address`.
    pub fn write_byte(&mut self, address: u64, value: u8) -> (r: Result<(), MemoryError>)
        ensures
            final(self).header == old(self).header,
            match r {
                Ok(()) => {
                    &&& address < old(self).data@.len()
                    &&& final(self).data@ == old(self).data@.update(address as int, value)
                },
                Err(MemoryError::OutOfBounds) => {
                    &&& address >= old(self).data@.len()
                    &&& *final(self) == *old(self)
                },
            },
    {
        if address >= self.data.len() as u64 {
            return Err(MemoryError::OutOfBounds);
        }
        self.data.set(address as usize, value);
        Ok(())
    }

    /// Reads the big-endian 64-bit word at `address`.
    pub fn read_word(&self, address: u64) -> (r: Result<u64, MemoryError>)
        ensures
            match r {
                Ok(x) => address + 8 <= self.data@.len() && x == be64(self.data@, address as int),
                Err(MemoryError::OutOfBounds) => address + 8 > self.data@.len(),
            },
    {
        let len = self.data.len();
        if len < 8 || address > (len as u64) - 8 {
            return Err(MemoryError::OutOfBounds);
        }
        Ok(read_be64(self.data.as_slice(), address as usize))
    }

    /// Writes `value` big-endian as a 64-bit word at `address`.
    pub fn write_word(&mut self, address: u64, value: u64) -> (r: Result<(), MemoryError>)
        ensures
            final(self).header == old(self).header,
            match r {
                Ok(()) => {
                    &&& address + 8 <= old(self).data@.len()
                    &&& final(self).data@ == store_be64(old(self).data@, address as int, value)
                },
                Err(MemoryError::OutOfBounds) => {
                    &&& address + 8 > old(self).data@.len()
                    &&& *final(self) == *old(self)
                },
            },
    {
        let len = self.data.len();
        if len < 8 || address > (len as u64) - 8 {
            return Err(MemoryError::OutOfBounds);
        }
        write_be64(&mut self.data, address as usize, value);
        Ok(())
    }

    /// Reads the big-endian 16-bit integer at `address`.
    pub fn read_u16(&self, address: u64) -> (r: Result<u16, MemoryError>)
        ensures
            match r {
                Ok(x) => address + 2 <= self.data@.len() && x == be16(self.data@, address as int),
                Err(MemoryError::OutOfBounds) => address + 2 > self.data@.len(),
            },
    {
        let len = self.data.len();
        if len < 2 || address > (len as u64) - 2 {
            return Err(MemoryError::OutOfBounds);
        }
        Ok(read_be16(self.data.as_slice(), address as usize))
    }

    /// Writes `value` big-endian as a 16-bit integer at `address`.
    pub fn write_u16(&mut self, address: u64, value: u16) -> (r: Result<(), MemoryError>)
        ensures
            final(self).header == old(self).header,
            match r {
                Ok(()) => {
                    &&& address + 2 <= old(self).data@.len()
                    &&& final(self).data@ == store_be16(old(self).data@, address as int, value)
                },
                Err(MemoryError::OutOfBounds) => {
                    &&& address + 2 > old(self).data@.len()
                    &&& *final(self) == *old(self)
                },
            },
    {
        let len = self.data.len();
        if len < 2 || address > (len as u64) - 2 {
            return Err(MemoryError::OutOfBounds);
        }
        write_be16(&mut self.data, address as usize, value);
        Ok(())
    }

    /// Reads the big-endian 32-bit integer at `address`.
    pub fn read_u32(&self, address: u64) -> (r: Result<u32, MemoryError>)
        ensures
            match r {
                Ok(x) => address + 4 <= self.data@.len() && x == be32(self.data@, address as int),
                Err(MemoryError::OutOfBounds) => address + 4 > self.data@.len(),
            },
    {
        let len = self.data.len();
        if len < 4 || address > (len as u64) - 4 {
            return Err(MemoryError::OutOfBounds);
        }
        Ok(read_be32(self.data.as_slice(), address as usize))
    }

    /// Writes `value` big-endian as a 32-bit integer at `address`.
    pub fn write_u32(&mut self, address: u64, value: u32) -> (r: Result<(), MemoryError>)
        ensures
            final(self).header == old(self).header,
            match r {
                Ok(()) => {
                    &&& address + 4 <= old(self).data@.len()
                    &&& final(self).data@ == store_be32(old(self).data@, address as int, value)
                },
                Err(MemoryError::OutOfBounds) => {
                    &&& address + 4 > old(self).data@.len()
                    &&& *final(self) == *old(self)
                },
            },
    {
        let len = self.data.len();
        if len < 4 || address > (len as u64) - 4 {
            return Err(MemoryError::OutOfBounds);
        }
        write_be32(&mut self.data, address as usize, value);
        Ok(())
    }

    /// Read-only access to the decoded header.
    pub fn header(&self) -> (h: &StoryHeader)
        ensures
            *h == self.header,
    {
        &self.header
    }

    /// The size of the backing buffer in bytes.
    pub fn len(&self) -> (n: usize)
        ensures
            n == self.data@.len(),
    {
        self.data.len()
    }
}

} // verus!
