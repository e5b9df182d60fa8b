use vstd::prelude::*;

use crate::exi::device::{Device, DeviceError, Ram};

verus! {

/// Device slots of a channel.
pub const NUM_DEVICES: usize = 3;

/// An error of an EXI channel access.
#[derive(Debug, Clone, Copy, PartialEq, Eq, Structural)]
pub enum ExiError {
    /// No device slot has this index.
    DeviceOutOfRange(u8),
    /// No channel register is mapped at this offset.
    UnmappedRegister(u32),
    /// The device-present bits of a status value name no single slot.
    InvalidDeviceSelect(u32),
    /// The transfer-type bits of a control value name no transfer type.
    InvalidTransferType(u32),
    /// The selected device refused the transfer.
    Device(DeviceError),
}

/// Offset of the status register.
pub const EXI_STATUS: u32 = 0x00;
/// Offset of the DMA address register.
pub const EXI_DMA_ADDRESS: u32 = 0x04;
/// Offset of the DMA length register.
pub const EXI_DMA_LENGTH: u32 = 0x08;
/// Offset of the control register.
pub const EXI_CONTROL: u32 = 0x0C;
/// Offset of the immediate data register.
pub const EXI_IMM_DATA: u32 = 0x10;

pub open spec fn bit32(b: bool) -> u32 {
    if b {
        1
    } else {
        0
    }
}

fn bit(b: bool) -> (r: u32)
    ensures
        r == bit32(b),
{
    if b {
        1
    } else {
        0
    }
}

/// The device-present bits that select `slot`; none for a slot that does not exist.
pub open spec fn device_pattern(slot: u8) -> u32 {
    if slot == 0 {
        1
    } else if slot == 1 {
        2
    } else if slot == 2 {
        4
    } else {
        0
    }
}

/// The slot that device-present bits select: 0 or 1 selects slot 0, 2 slot 1,
/// 4 slot 2; any other pattern selects none.
pub open spec fn slot_of_pattern(pattern: u32) -> Option<u8> {
    if pattern == 0 || pattern == 1 {
        Some(0)
    } else if pattern == 2 {
        Some(1)
    } else if pattern == 4 {
        Some(2)
    } else {
        None
    }
}

/// The channel status register.
#[derive(Debug, Clone, Copy, PartialEq, Eq, Structural)]
pub struct Status {
    pub connected: bool,
    pub ext_interrupt: bool,
    /// The selected device slot.
    pub device_select: u8,
    pub exi_frequency: u8,
    pub tc_interrupt: bool,
    pub exi_interrupt: bool,
}

impl Status {
    /// The slot exists and the frequency fits its three bits.
    pub open spec fn wf(self) -> bool {
        self.device_select < NUM_DEVICES && self.exi_frequency < 8
    }

    /// The packed register. The device-present bits are derived from
    /// `device_select`, so that a status reads back as the slot it selects.
    pub open spec fn spec_encode(self) -> u32 {
        (bit32(self.connected) << 13u32) | (bit32(self.ext_interrupt) << 12u32) | (
        device_pattern(self.device_select) << 7u32) | ((self.exi_frequency as u32) << 4u32) | (
        bit32(self.tc_interrupt) << 3u32) | (bit32(self.exi_interrupt) << 1u32)
    }

    pub open spec fn spec_decode(value: u32) -> Result<Status, ExiError> {
        let pattern = (value >> 7u32) & 7;
        match slot_of_pattern(pattern) {
            None => Err(ExiError::InvalidDeviceSelect(pattern)),
            Some(slot) => Ok(
                Status {
                    connected: (value & 0x2000) != 0,
                    ext_interrupt: (value & 0x1000) != 0,
                    device_select: slot,
                    exi_frequency: ((value >> 4u32) & 7) as u8,
                    tc_interrupt: (value & 8) != 0,
                    exi_interrupt: (value & 2) != 0,
                },
            ),
        }
    }

    /// The status after a reset: slot 0 selected, every flag clear.
    pub open spec fn initial() -> Status {
        Status {
            connected: false,
            ext_interrupt: false,
            device_select: 0,
            exi_frequency: 0,
            tc_interrupt: false,
            exi_interrupt: false,
        }
    }

    /// The status after a reset.
    pub fn new() -> (r: Status)
        ensures
            r == Status::initial(),
            r == (Status {
                connected: false,
                ext_interrupt: false,
                device_select: 0,
                exi_frequency: 0,
                tc_interrupt: false,
                exi_interrupt: false,
            }),
            r.wf(),
    {
        Status {
            connected: false,
            ext_interrupt: false,
            device_select: 0,
            exi_frequency: 0,
            tc_interrupt: false,
            exi_interrupt: false,
        }
    }

    /// Unpacks the register; device-present bits that select no single slot are
    /// refused.
    pub fn decode(value: u32) -> (r: Result<Status, ExiError>)
        ensures
            r == Status::spec_decode(value),
            r matches Ok(s) ==> s.wf(),
    {
        let pattern: u32 = (value >> 7) & 7;
        let device: u8 = if pattern == 0 || pattern == 1 {
            0
        } else if pattern == 2 {
            1
        } else if pattern == 4 {
            2
        } else {
            return Err(ExiError::InvalidDeviceSelect(pattern));
        };
        assert((value >> 4u32) & 7 < 8) by (bit_vector);
        Ok(
            Status {
                connected: (value & 0x2000) != 0,
                ext_interrupt: (value & 0x1000) != 0,
                device_select: device,
                exi_frequency: ((value >> 4) & 7) as u8,
                tc_interrupt: (value & 8) != 0,
                exi_interrupt: (value & 2) != 0,
            },
        )
    }

    /// Packs the register into its raw value.
    pub fn as_u32(&self) -> (r: u32)
        ensures
            r == self.spec_encode(),
    {
        let device: u32 = if self.device_select == 0 {
            1
        } else if self.device_select == 1 {
            2
        } else if self.device_select == 2 {
            4
        } else {
            0
        };
        (bit(self.connected) << 13) | (bit(self.ext_interrupt) << 12) | (device << 7) | ((
        self.exi_frequency as u32) << 4) | (bit(self.tc_interrupt) << 3) | (bit(self.exi_interrupt)
            << 1)
    }
}

impl Default for Status {
    fn default() -> (r: Status)
        ensures
            r == Status::initial(),
    {
        Status::new()
    }
}

/// Decoding an encoded status gives it back.
pub proof fn lemma_status_round_trip(s: Status)
    requires
        s.wf(),
    ensures
        Status::spec_decode(s.spec_encode()) == Ok::<Status, ExiError>(s),
{
    let c = bit32(s.connected);
    let e = bit32(s.ext_interrupt);
    let p = device_pattern(s.device_select);
    let f = s.exi_frequency as u32;
    let t = bit32(s.tc_interrupt);
    let x = bit32(s.exi_interrupt);
    let v = s.spec_encode();
    assert(((v >> 7u32) & 7) == p && ((v & 0x2000) != 0) == (c == 1) && ((v & 0x1000) != 0) == (e
        == 1) && ((v >> 4u32) & 7) == f && ((v & 8) != 0) == (t == 1) && ((v & 2) != 0) == (x
        == 1)) by (bit_vector)
        requires
            v == (c << 13u32) | (e << 12u32) | (p << 7u32) | (f << 4u32) | (t << 3u32) | (x
                << 1u32),
            c <= 1,
            e <= 1,
            p == 1 || p == 2 || p == 4,
            f < 8,
            t <= 1,
            x <= 1,
    ;
}

/// A status value is accepted exactly when its device-present bits are 0, 1, 2
/// or 4; 0 and 1 select slot 0, 2 selects slot 1 and 4 selects slot 2.
pub proof fn lemma_device_select_patterns(value: u32)
    ensures
        ({
            let p = (value >> 7u32) & 7;
            &&& (p == 0 || p == 1) ==> (Status::spec_decode(value) matches Ok(s)
                && s.device_select == 0)
            &&& p == 2 ==> (Status::spec_decode(value) matches Ok(s) && s.device_select == 1)
            &&& p == 4 ==> (Status::spec_decode(value) matches Ok(s) && s.device_select == 2)
            &&& !(p == 0 || p == 1 || p == 2 || p == 4) ==> Status::spec_decode(value)
                == Err::<Status, ExiError>(ExiError::InvalidDeviceSelect(p))
        }),
{
}

/// How a transfer moves its data.
#[derive(Debug, Clone, Copy, PartialEq, Eq, Structural)]
pub enum TransferMode {
    /// Through the immediate data register.
    IMM,
    /// Between the device and memory.
    DMA,
}

/// Which way a transfer moves its data.
#[derive(Debug, Clone, Copy, PartialEq, Eq, Structural)]
pub enum TransferType {
    READ,
    WRITE,
    READWRITE,
}

impl Default for TransferMode {
    fn default() -> (r: TransferMode)
        ensures
            r == TransferMode::IMM,
    {
        TransferMode::IMM
    }
}

impl Default for TransferType {
    fn default() -> (r: TransferType)
        ensures
            r == TransferType::READ,
    {
        TransferType::READ
    }
}

pub open spec fn type_bits(t: TransferType) -> u32 {
    match t {
        TransferType::READ => 0,
        TransferType::WRITE => 4,
        TransferType::READWRITE => 8,
    }
}

pub open spec fn mode_bits(m: TransferMode) -> u32 {
    match m {
        TransferMode::IMM => 0,
        TransferMode::DMA => 2,
    }
}

/// The channel control register.
#[derive(Debug, Clone, Copy, PartialEq, Eq, Structural)]
pub struct Control {
    /// Bytes of an immediate transfer, less one.
    pub transfer_length: u8,
    pub transfer_type: TransferType,
    pub transfer_mode: TransferMode,
    /// Starts a transfer; cleared when the transfer completes.
    pub transfer_start: bool,
}

impl Control {
    /// The length fits its two bits.
    pub open spec fn wf(self) -> bool {
        self.transfer_length < 4
    }

    pub open spec fn spec_encode(self) -> u32 {
        ((self.transfer_length as u32) << 4u32) | type_bits(self.transfer_type) | mode_bits(
            self.transfer_mode,
        ) | bit32(self.transfer_start)
    }

    pub open spec fn spec_decode(value: u32) -> Result<Control, ExiError> {
        let t = (value >> 2u32) & 3;
        if t == 3 {
            Err(ExiError::InvalidTransferType(value))
        } else {
            Ok(
                Control {
                    transfer_length: ((value >> 4u32) & 3) as u8,
                    transfer_type: if t == 0 {
                        TransferType::READ
                    } else if t == 1 {
                        TransferType::WRITE
                    } else {
                        TransferType::READWRITE
                    },
                    transfer_mode: if (value >> 1u32) & 1 == 0 {
                        TransferMode::IMM
                    } else {
                        TransferMode::DMA
                    },
                    transfer_start: (value & 1) != 0,
                },
            )
        }
    }

    /// The control register after a reset: an idle immediate read of one byte.
    pub open spec fn initial() -> Control {
        Control {
            transfer_length: 0,
            transfer_type: TransferType::READ,
            transfer_mode: TransferMode::IMM,
            transfer_start: false,
        }
    }

    /// The control register after a reset.
    pub fn new() -> (r: Control)
        ensures
            r == Control::initial(),
            r == (Control {
                transfer_length: 0,
                transfer_type: TransferType::READ,
                transfer_mode: TransferMode::IMM,
                transfer_start: false,
            }),
    {
        Control {
            transfer_length: 0,
            transfer_type: TransferType::READ,
            transfer_mode: TransferMode::IMM,
            transfer_start: false,
        }
    }

    /// Unpacks the register; the transfer-type pattern 3 is refused.
    pub fn decode(value: u32) -> (r: Result<Control, ExiError>)
        ensures
            r == Control::spec_decode(value),
            r matches Ok(c) ==> c.wf(),
    {
        let t: u32 = (value >> 2) & 3;
        assert((value >> 2u32) & 3 <= 3) by (bit_vector);
        let transfer_type = if t == 0 {
            TransferType::READ
        } else if t == 1 {
            TransferType::WRITE
        } else if t == 2 {
            TransferType::READWRITE
        } else {
            return Err(ExiError::InvalidTransferType(value));
        };
        let transfer_mode = if (value >> 1) & 1 == 0 {
            TransferMode::IMM
        } else {
            TransferMode::DMA
        };
        assert((value >> 4u32) & 3 < 4) by (bit_vector);
        Ok(
            Control {
                transfer_length: ((value >> 4) & 3) as u8,
                transfer_type,
                transfer_mode,
                transfer_start: (value & 1) != 0,
            },
        )
    }

    /// Packs the register into its raw value.
    pub fn as_u32(&self) -> (r: u32)
        ensures
            r == self.spec_encode(),
    {
        let type_part: u32 = match self.transfer_type {
            TransferType::READ => 0,
            TransferType::WRITE => 4,
            TransferType::READWRITE => 8,
        };
        let mode_part: u32 = match self.transfer_mode {
            TransferMode::IMM => 0,
            TransferMode::DMA => 2,
        };
        ((self.transfer_length as u32) << 4) | type_part | mode_part | bit(self.transfer_start)
    }
}

impl Default for Control {
    fn default() -> (r: Control)
        ensures
            r == Control::initial(),
    {
        Control::new()
    }
}

/// Decoding an encoded control value gives it back.
pub proof fn lemma_control_round_trip(c: Control)
    requires
        c.wf(),
    ensures
        Control::spec_decode(c.spec_encode()) == Ok::<Control, ExiError>(c),
{
    let l = c.transfer_length as u32;
    let t = type_bits(c.transfer_type);
    let m = mode_bits(c.transfer_mode);
    let s = bit32(c.transfer_start);
    let v = c.spec_encode();
    assert(((v >> 4u32) & 3) == l && (t == 0 ==> (v >> 2u32) & 3 == 0) && (t == 4 ==> (v >> 2u32)
        & 3 == 1) && (t == 8 ==> (v >> 2u32) & 3 == 2) && (m == 0 ==> (v >> 1u32) & 1 == 0) && (m
        == 2 ==> (v >> 1u32) & 1 == 1) && ((v & 1) != 0) == (s == 1)) by (bit_vector)
        requires
            v == (l << 4u32) | t | m | s,
            l < 4,
            t == 0 || t == 4 || t == 8,
            m == 0 || m == 2,
            s <= 1,
    ;
}

/// A device's result as a channel result.
pub open spec fn device_result<T>(r: Result<T, DeviceError>) -> Result<(), ExiError> {
    match r {
        Ok(_) => Ok(()),
        Err(e) => Err(ExiError::Device(e)),
    }
}

/// An immediate transfer of type `t`, `len` bytes, on `dev` with `data` in the data
/// register: the result, the device after it, and the data register after it. A
/// write hands `data` to the device; a read stores what the device returns; a
/// read-write writes, then reads only if the write succeeded.
pub open spec fn imm_transfer<D: Device>(dev: D, t: TransferType, data: u32, len: u8) -> (
    Result<(), ExiError>,
    D,
    u32,
) {
    let writes = t != TransferType::READ;
    let reads = t != TransferType::WRITE;
    let written = if writes {
        dev.imm_write_result(data, len)
    } else {
        Ok(())
    };
    let dev1 = if writes {
        dev.after_imm_write(data, len)
    } else {
        dev
    };
    match written {
        Err(e) => (Err(ExiError::Device(e)), dev1, data),
        Ok(_) => if reads {
            match dev1.imm_read_result(len) {
                Ok(d) => (Ok(()), dev1, d),
                Err(e) => (Err(ExiError::Device(e)), dev1, data),
            }
        } else {
            (Ok(()), dev1, data)
        },
    }
}

/// A DMA transfer of type `t` on `dev`, `length` bytes at `address`: the result
/// and the memory after it. A read-write writes, then reads only if the write
/// succeeded.
pub open spec fn dma_transfer<D: Device>(
    dev: D,
    t: TransferType,
    memory: Seq<u8>,
    address: u32,
    length: u32,
) -> (Result<(), ExiError>, Seq<u8>) {
    let writes = t != TransferType::READ;
    let reads = t != TransferType::WRITE;
    let written = if writes {
        device_result(dev.dma_write_result(memory, address, length))
    } else {
        Ok(())
    };
    let mem1 = if writes {
        dev.dma_write_memory(memory, address, length)
    } else {
        memory
    };
    if written is Err || !reads {
        (written, mem1)
    } else {
        (
            device_result(dev.dma_read_result(mem1, address, length)),
            dev.dma_read_memory(mem1, address, length),
        )
    }
}

/// One EXI channel: its registers and the devices in its slots. All slots hold
/// the same device type; to mix kinds of device, make that type an enum of them.
pub struct Channel<D> {
    pub status: Status,
    pub control: Control,
    pub dma_address: u32,
    pub dma_length: u32,
    pub imm_data: u32,
    /// The devices, one per slot; their number is fixed.
    pub devices: [D; 3],
}

impl<D: Device> Channel<D> {
    /// Every register holds only what its bits can carry.
    pub open spec fn wf(&self) -> bool {
        self.status.wf() && self.control.wf()
    }

    /// The transfer that the control register describes, on the selected device:
    /// its result, the devices, the data register and the memory after it.
    pub open spec fn spec_transfer(&self, memory: Seq<u8>) -> (
        Result<(), ExiError>,
        Seq<D>,
        u32,
        Seq<u8>,
    ) {
        let slot = self.status.device_select as int;
        let dev = self.devices@[slot];
        let t = self.control.transfer_type;
        match self.control.transfer_mode {
            TransferMode::IMM => {
                let o = imm_transfer(dev, t, self.imm_data, (self.control.transfer_length + 1) as u8);
                (o.0, self.devices@.update(slot, o.1), o.2, memory)
            },
            TransferMode::DMA => {
                let o = dma_transfer(dev, t, memory, self.dma_address, self.dma_length);
                (o.0, self.devices@, self.imm_data, o.1)
            },
        }
    }

    /// `after` and `memory_after`, with result `r`, are what a write of `value` to
    /// the control register makes of `self` and `memory`.
    pub open spec fn control_written(
        &self,
        value: u32,
        memory: Seq<u8>,
        after: &Channel<D>,
        memory_after: Seq<u8>,
        r: Result<(), ExiError>,
    ) -> bool {
        match Control::spec_decode(value) {
            Err(e) => {
                &&& r == Err::<(), ExiError>(e)
                &&& *after == *self
                &&& memory_after == memory
            },
            Ok(c) => {
                let o = (Channel { control: c, ..*self }).spec_transfer(memory);
                &&& after.control == (Control { transfer_start: false, ..c })
                &&& after.status == self.status
                &&& after.dma_address == self.dma_address
                &&& after.dma_length == self.dma_length
                &&& !c.transfer_start ==> {
                    &&& r is Ok
                    &&& after.devices == self.devices
                    &&& after.imm_data == self.imm_data
                    &&& memory_after == memory
                }
                &&& c.transfer_start ==> {
                    &&& r == o.0
                    &&& after.devices@ == o.1
                    &&& after.imm_data == o.2
                    &&& memory_after == o.3
                }
            },
        }
    }

    /// `after`, with result `r`, is what a write of `value` to the status register
    /// makes of `self`: the newly selected device, and it alone, is told.
    pub open spec fn status_written(&self, value: u32, after: &Channel<D>, r: Result<
        (),
        ExiError,
    >) -> bool {
        match Status::spec_decode(value) {
            Err(e) => r == Err::<(), ExiError>(e) && *after == *self,
            Ok(s) => {
                &&& r is Ok
                &&& after.status == s
                &&& after.control == self.control
                &&& after.dma_address == self.dma_address
                &&& after.dma_length == self.dma_length
                &&& after.imm_data == self.imm_data
                &&& s.device_select == self.status.device_select ==> after.devices
                    == self.devices
                &&& s.device_select != self.status.device_select ==> after.devices@
                    == self.devices@.update(
                    s.device_select as int,
                    self.devices@[s.device_select as int].after_select(),
                )
            },
        }
    }

    /// A channel after a reset, holding `devices`.
    pub fn new(devices: [D; 3]) -> (r: Channel<D>)
        ensures
            r.wf(),
            r.status == Status::initial(),
            r.control == Control::initial(),
            r.dma_address == 0,
            r.dma_length == 0,
            r.imm_data == 0,
            r.devices == devices,
    {
        Channel {
            status: Status::new(),
            control: Control::new(),
            dma_address: 0,
            dma_length: 0,
            imm_data: 0,
            devices,
        }
    }

    /// The device in slot `num`.
    pub fn get_device(&self, num: u8) -> (r: Result<&D, ExiError>)
        ensures
            num >= NUM_DEVICES <==> r == Err::<&D, ExiError>(ExiError::DeviceOutOfRange(num)),
            num < NUM_DEVICES ==> (r matches Ok(d) && *d == self.devices@[num as int]),
    {
        if (num as usize) < NUM_DEVICES {
            Ok(&self.devices[num as usize])
        } else {
            Err(ExiError::DeviceOutOfRange(num))
        }
    }

    /// The device in slot `num`, to be changed in place; a slot that does not exist
    /// leaves the channel as it is.
    pub fn get_device_mut(&mut self, num: u8) -> (r: Result<&mut D, ExiError>)
        ensures
            num >= NUM_DEVICES ==> r == Err::<&mut D, ExiError>(ExiError::DeviceOutOfRange(num))
                && *final(self) == *old(self),
            num < NUM_DEVICES ==> r is Ok,
            r matches Ok(d) ==> *d == old(self).devices@[num as int]
                && final(self).devices@ == old(self).devices@.update(num as int, *final(d))
                && final(self).status == old(self).status
                && final(self).control == old(self).control
                && final(self).dma_address == old(self).dma_address
                && final(self).dma_length == old(self).dma_length
                && final(self).imm_data == old(self).imm_data,
    {
        if (num as usize) < NUM_DEVICES {
            Ok(&mut self.devices[num as usize])
        } else {
            Err(ExiError::DeviceOutOfRange(num))
        }
    }

    /// A 32-bit register read; reads have no side effect.
    pub fn read_u32(&self, register: u32) -> (r: Result<u32, ExiError>)
        ensures
            r == (if register == EXI_STATUS {
                Ok(self.status.spec_encode())
            } else if register == EXI_DMA_ADDRESS {
                Ok(self.dma_address)
            } else if register == EXI_DMA_LENGTH {
                Ok(self.dma_length)
            } else if register == EXI_CONTROL {
                Ok(self.control.spec_encode())
            } else if register == EXI_IMM_DATA {
                Ok(self.imm_data)
            } else {
                Err(ExiError::UnmappedRegister(register))
            }),
    {
        if register == EXI_STATUS {
            Ok(self.status.as_u32())
        } else if register == EXI_DMA_ADDRESS {
            Ok(self.dma_address)
        } else if register == EXI_DMA_LENGTH {
            Ok(self.dma_length)
        } else if register == EXI_CONTROL {
            Ok(self.control.as_u32())
        } else if register == EXI_IMM_DATA {
            Ok(self.imm_data)
        } else {
            Err(ExiError::UnmappedRegister(register))
        }
    }

    /// Writes the status register. When the selected slot changes, the newly
    /// selected device is told once; a value that selects no single slot changes
    /// nothing.
    pub fn write_status(&mut self, value: u32) -> (r: Result<(), ExiError>)
        requires
            old(self).wf(),
        ensures
            final(self).wf(),
            old(self).status_written(value, final(self), r),
    {
        let s = match Status::decode(value) {
            Ok(s) => s,
            Err(e) => return Err(e),
        };
        if s.device_select != self.status.device_select {
            self.devices[s.device_select as usize].device_select();
        }
        self.status = s;
        Ok(())
    }

    /// Writes the control register. A value with the start bit set runs the
    /// transfer on the selected device at once and then clears the start bit, as
    /// the hardware does when a transfer completes. An invalid transfer type
    /// changes nothing.
    ///
    /// An immediate transfer moves `transfer_length + 1` bytes through the data
    /// register; a DMA transfer moves `dma_length` bytes at `dma_address`. A
    /// read-write transfer writes first, then reads.
    pub fn write_control(&mut self, value: u32, memory: &mut Ram) -> (r: Result<(), ExiError>)
        requires
            old(self).wf(),
        ensures
            final(self).wf(),
            old(self).control_written(value, old(memory)@, final(self), final(memory)@, r),
    {
        let c = match Control::decode(value) {
            Ok(c) => c,
            Err(e) => return Err(e),
        };
        self.control = c;
        if !c.transfer_start {
            return Ok(());
        }
        let r = self.dispatch(memory);
        self.control.transfer_start = false;
        r
    }

    /// Runs the transfer that the control register describes on the selected device.
    fn dispatch(&mut self, memory: &mut Ram) -> (r: Result<(), ExiError>)
        requires
            old(self).wf(),
        ensures
            final(self).status == old(self).status,
            final(self).control == old(self).control,
            final(self).dma_address == old(self).dma_address,
            final(self).dma_length == old(self).dma_length,
            r == old(self).spec_transfer(old(memory)@).0,
            final(self).devices@ == old(self).spec_transfer(old(memory)@).1,
            final(self).imm_data == old(self).spec_transfer(old(memory)@).2,
            final(memory)@ == old(self).spec_transfer(old(memory)@).3,
    {
        let slot = self.status.device_select as usize;
        let len: u8 = self.control.transfer_length + 1;
        match self.control.transfer_mode {
            TransferMode::IMM => {
                if self.control.transfer_type != TransferType::READ {
                    let data = self.imm_data;
                    let written = self.devices[slot].write_imm(data, len);
                    if let Err(e) = written {
                        return Err(ExiError::Device(e));
                    }
                }
                if self.control.transfer_type != TransferType::WRITE {
                    match self.devices[slot].read_imm(len) {
                        Ok(data) => self.imm_data = data,
                        Err(e) => return Err(ExiError::Device(e)),
                    }
                }
            },
            TransferMode::DMA => {
                if self.control.transfer_type != TransferType::READ {
                    let (address, length) = (self.dma_address, self.dma_length);
                    let moved = self.devices[slot].write_dma(memory, address, length);
                    if let Err(e) = moved {
                        return Err(ExiError::Device(e));
                    }
                }
                if self.control.transfer_type != TransferType::WRITE {
                    let (address, length) = (self.dma_address, self.dma_length);
                    let moved = self.devices[slot].read_dma(memory, address, length);
                    if let Err(e) = moved {
                        return Err(ExiError::Device(e));
                    }
                }
            },
        }
        Ok(())
    }

    /// A 32-bit register write. Status and control writes go through
    /// `write_status` and `write_control`; the other registers take the value as
    /// it is.
    pub fn write_u32(&mut self, register: u32, value: u32, memory: &mut Ram) -> (r: Result<
        (),
        ExiError,
    >)
        requires
            old(self).wf(),
        ensures
            final(self).wf(),
            register == EXI_DMA_ADDRESS ==> r is Ok && *final(self) == (Channel {
                dma_address: value,
                ..*old(self)
            }),
            register == EXI_DMA_LENGTH ==> r is Ok && *final(self) == (Channel {
                dma_length: value,
                ..*old(self)
            }),
            register == EXI_IMM_DATA ==> r is Ok && *final(self) == (Channel {
                imm_data: value,
                ..*old(self)
            }),
            register == EXI_STATUS ==> old(self).status_written(value, final(self), r),
            register == EXI_CONTROL ==> old(self).control_written(
                value,
                old(memory)@,
                final(self),
                final(memory)@,
                r,
            ),
            register != EXI_STATUS && register != EXI_CONTROL ==> *final(memory) == *old(memory),
            !(register == EXI_STATUS || register == EXI_DMA_ADDRESS || register == EXI_DMA_LENGTH
                || register == EXI_CONTROL || register == EXI_IMM_DATA) ==> r
                == Err::<(), ExiError>(ExiError::UnmappedRegister(register)) && *final(self)
                == *old(self),
    {
        if register == EXI_STATUS {
            self.write_status(value)
        } else if register == EXI_DMA_ADDRESS {
            self.dma_address = value;
            Ok(())
        } else if register == EXI_DMA_LENGTH {
            self.dma_length = value;
            Ok(())
        } else if register == EXI_CONTROL {
            self.write_control(value, memory)
        } else if register == EXI_IMM_DATA {
            self.imm_data = value;
            Ok(())
        } else {
            Err(ExiError::UnmappedRegister(register))
        }
    }
}

} // verus!
