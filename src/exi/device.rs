use vstd::prelude::*;

verus! {

/// Memory that DMA transfers read and write, one byte per address.
pub type Ram = Vec<u8>;

/// Why a device could not carry out an operation.
#[derive(Debug, Clone, Copy, PartialEq, Eq, Structural)]
pub enum DeviceError {
    /// The device does not implement this operation.
    Unsupported,
}

/// What a channel can ask of the device in one of its slots. Each operation's
/// effect is named by a spec function that the implementing device defines; by
/// default an operation is refused and changes nothing.
pub trait Device: Sized {
    /// The device after it has been selected.
    open spec fn after_select(&self) -> Self {
        *self
    }

    /// What an immediate read of `len` bytes returns.
    open spec fn imm_read_result(&self, len: u8) -> Result<u32, DeviceError> {
        Err(DeviceError::Unsupported)
    }

    /// What an immediate write of `value`, `len` bytes, returns.
    open spec fn imm_write_result(&self, value: u32, len: u8) -> Result<(), DeviceError> {
        Err(DeviceError::Unsupported)
    }

    /// The device after an immediate write of `value`, `len` bytes.
    open spec fn after_imm_write(&self, value: u32, len: u8) -> Self {
        *self
    }

    /// What a DMA read of `length` bytes into `memory` at `address` returns.
    open spec fn dma_read_result(&self, memory: Seq<u8>, address: u32, length: u32) -> Result<
        (),
        DeviceError,
    > {
        Err(DeviceError::Unsupported)
    }

    /// The memory after a DMA read of `length` bytes into it at `address`.
    open spec fn dma_read_memory(&self, memory: Seq<u8>, address: u32, length: u32) -> Seq<u8> {
        memory
    }

    /// What a DMA write of `length` bytes from `memory` at `address` returns.
    open spec fn dma_write_result(&self, memory: Seq<u8>, address: u32, length: u32) -> Result<
        (),
        DeviceError,
    > {
        Err(DeviceError::Unsupported)
    }

    /// The memory after a DMA write of `length` bytes out of it at `address`.
    open spec fn dma_write_memory(&self, memory: Seq<u8>, address: u32, length: u32) -> Seq<u8> {
        memory
    }

    /// Called when the channel selects this device.
    fn device_select(&mut self)
        ensures
            *final(self) == old(self).after_select(),
    ;

    /// Data for an immediate read of `len` bytes.
    fn read_imm(&self, len: u8) -> (r: Result<u32, DeviceError>)
        requires
            1 <= len <= 4,
        ensures
            r == self.imm_read_result(len),
    ;

    /// Takes the data of an immediate write of `len` bytes.
    fn write_imm(&mut self, value: u32, len: u8) -> (r: Result<(), DeviceError>)
        requires
            1 <= len <= 4,
        ensures
            r == old(self).imm_write_result(value, len),
            *final(self) == old(self).after_imm_write(value, len),
    ;

    /// Moves `length` bytes from the device into `memory` at `address`.
    fn read_dma(&self, memory: &mut Ram, address: u32, length: u32) -> (r: Result<
        (),
        DeviceError,
    >)
        ensures
            r == self.dma_read_result(old(memory)@, address, length),
            final(memory)@ == self.dma_read_memory(old(memory)@, address, length),
    ;

    /// Moves `length` bytes from `memory` at `address` to the device.
    fn write_dma(&self, memory: &mut Ram, address: u32, length: u32) -> (r: Result<
        (),
        DeviceError,
    >)
        ensures
            r == self.dma_write_result(old(memory)@, address, length),
            final(memory)@ == self.dma_write_memory(old(memory)@, address, length),
    ;
}

/// A placeholder for an empty slot: selecting it does nothing, and every transfer
/// is refused with memory left as it is.
#[derive(Debug, Clone, Copy, PartialEq, Eq, Structural)]
pub struct DeviceDummy;

impl DeviceDummy {
    pub fn new() -> (r: DeviceDummy)
        ensures
            r == DeviceDummy,
    {
        DeviceDummy
    }
}

impl Device for DeviceDummy {
    fn device_select(&mut self) {
    }

    fn read_imm(&self, len: u8) -> (r: Result<u32, DeviceError>) {
        Err(DeviceError::Unsupported)
    }

    fn write_imm(&mut self, value: u32, len: u8) -> (r: Result<(), DeviceError>) {
        Err(DeviceError::Unsupported)
    }

    fn read_dma(&self, memory: &mut Ram, address: u32, length: u32) -> (r: Result<
        (),
        DeviceError,
    >) {
        Err(DeviceError::Unsupported)
    }

    fn write_dma(&self, memory: &mut Ram, address: u32, length: u32) -> (r: Result<
        (),
        DeviceError,
    >) {
        Err(DeviceError::Unsupported)
    }
}

} // verus!
