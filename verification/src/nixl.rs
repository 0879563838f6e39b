//! Remote fabric storage: a region on a peer known only through a
//! received descriptor, usable as the far end of a fabric transfer.

use vstd::prelude::*;

use crate::storage::{fresh_bytes, MemType, Remote, Storage, StorageError, StorageType};

verus! {

/// A remote region received as a fabric descriptor. It is never
/// allocated locally, carries the peer's memory type and device id, and
/// releasing it never frees any memory here.
pub struct NixlStorage {
    pub(crate) bytes: Vec<u8>,
    pub(crate) addr: u64,
    pub(crate) mem_type: MemType,
    pub(crate) device_id: u64,
    pub(crate) released: bool,
}

impl Remote for NixlStorage {}

impl NixlStorage {
    /// The memory type the peer registered the region under.
    pub closed spec fn spec_mem_type(&self) -> MemType {
        self.mem_type
    }

    /// The device id (or file descriptor) on the peer.
    pub closed spec fn spec_device_id(&self) -> u64 {
        self.device_id
    }

    /// Construct a remote region from the fields of a received
    /// descriptor. Rejects a null base address and windows that overflow
    /// the address space.
    pub fn new_from_descriptor(mem_type: MemType, device_id: u64, addr: u64, size: usize) -> (r:
        Result<NixlStorage, StorageError>)
        ensures
            match r {
                Ok(s) => addr != 0 && (size as int) < (isize::MAX as int) && addr + size
                    <= u64::MAX && s.inv() && !s.spec_released() && s.spec_addr() == addr
                    && s.spec_bytes().len() == size && s.spec_storage_type() == StorageType::Nixl
                    && s.spec_mem_type() == mem_type && s.spec_device_id() == device_id,
                Err(StorageError::InvalidConfig(_)) => addr == 0 || (size as int) >= (
                isize::MAX as int) || addr + size > u64::MAX,
                Err(_) => false,
            },
    {
        if addr == 0 {
            return Err(
                StorageError::InvalidConfig("remote region base address is null".to_owned()),
            );
        }
        if size >= (isize::MAX as usize) {
            return Err(
                StorageError::InvalidConfig("remote region size exceeds the signed-size limit".to_owned()),
            );
        }
        if (size as u64) > u64::MAX - addr {
            return Err(
                StorageError::InvalidConfig("remote region overflows the address space".to_owned()),
            );
        }
        Ok(NixlStorage { bytes: fresh_bytes(size), addr, mem_type, device_id, released: false })
    }

    /// The memory type the peer registered the region under.
    pub fn mem_type(&self) -> (m: MemType)
        ensures
            m == self.spec_mem_type(),
    {
        self.mem_type
    }

    /// The device id (or file descriptor) on the peer.
    pub fn device_id(&self) -> (d: u64)
        ensures
            d == self.spec_device_id(),
    {
        self.device_id
    }
}

impl Storage for NixlStorage {
    closed spec fn spec_bytes(&self) -> Seq<u8> {
        self.bytes@
    }

    closed spec fn spec_addr(&self) -> u64 {
        self.addr
    }

    open spec fn spec_storage_type(&self) -> StorageType {
        StorageType::Nixl
    }

    closed spec fn spec_released(&self) -> bool {
        self.released
    }

    open spec fn spec_regs(&self) -> Seq<(Seq<char>, u64)> {
        Seq::<(Seq<char>, u64)>::empty()
    }

    open spec fn spec_frees_on_release(&self) -> bool {
        false
    }

    closed spec fn inv(&self) -> bool {
        &&& self.addr != 0
        &&& self.bytes@.len() < 0x8000_0000_0000_0000
        &&& self.addr + self.bytes@.len() <= u64::MAX
    }

    proof fn inv_properties(&self) {
    }

    fn storage_type(&self) -> StorageType {
        StorageType::Nixl
    }

    fn addr(&self) -> u64 {
        self.addr
    }

    fn size(&self) -> usize {
        self.bytes.len()
    }

    fn released(&self) -> bool {
        self.released
    }

    fn read_byte(&self, offset: usize) -> u8 {
        self.bytes[offset]
    }

    fn write_byte(&mut self, offset: usize, value: u8) {
        self.bytes.set(offset, value);
    }

    fn release(&mut self) {
        self.released = true;
    }

    fn frees_on_release(&self) -> bool {
        false
    }
}

} // verus!
