use rustcube_io::exi::channel::{
    Channel, Control, ExiError, Status, TransferMode, TransferType, EXI_CONTROL, EXI_DMA_ADDRESS,
    EXI_DMA_LENGTH, EXI_IMM_DATA, EXI_STATUS,
};
use rustcube_io::exi::device::{Device, DeviceDummy, DeviceError, Ram};

#[derive(Debug, Clone, PartialEq, Eq, Default)]
struct Probe {
    selected: u32,
    written: Vec<(u32, u8)>,
}

impl Device for Probe {
    fn device_select(&mut self) {
        self.selected += 1;
    }

    fn read_imm(&self, len: u8) -> Result<u32, DeviceError> {
        Ok(0xA0 + len as u32)
    }

    fn write_imm(&mut self, value: u32, len: u8) -> Result<(), DeviceError> {
        self.written.push((value, len));
        Ok(())
    }

    fn read_dma(&self, memory: &mut Ram, address: u32, length: u32) -> Result<(), DeviceError> {
        for i in 0..length {
            memory[(address + i) as usize] = 0x5A;
        }
        Ok(())
    }

    fn write_dma(&self, _memory: &mut Ram, _address: u32, _length: u32) -> Result<(), DeviceError> {
        Ok(())
    }
}

fn probes() -> Channel<Probe> {
    Channel::new([Probe::default(), Probe::default(), Probe::default()])
}

#[test]
fn status_device_patterns() {
    assert_eq!(Status::decode(0 << 7).unwrap().device_select, 0);
    assert_eq!(Status::decode(1 << 7).unwrap().device_select, 0);
    assert_eq!(Status::decode(2 << 7).unwrap().device_select, 1);
    assert_eq!(Status::decode(4 << 7).unwrap().device_select, 2);
    for p in [3u32, 5, 6, 7] {
        assert_eq!(Status::decode(p << 7), Err(ExiError::InvalidDeviceSelect(p)));
    }
}

#[test]
fn status_round_trip() {
    let raw = (1 << 13) | (1 << 12) | (4 << 7) | (5 << 4) | (1 << 3) | (1 << 1);
    let s = Status::decode(raw).unwrap();
    assert!(s.connected && s.ext_interrupt && s.tc_interrupt && s.exi_interrupt);
    assert_eq!(s.exi_frequency, 5);
    assert_eq!(s.device_select, 2);
    assert_eq!(s.as_u32(), raw);
    assert_eq!(Status::decode(s.as_u32()), Ok(s));
    assert_eq!(Status::new().as_u32(), 1 << 7);
}

#[test]
fn control_round_trip() {
    let c = Control::decode(0x3B).unwrap();
    assert_eq!(c.transfer_length, 3);
    assert_eq!(c.transfer_type, TransferType::READWRITE);
    assert_eq!(c.transfer_mode, TransferMode::DMA);
    assert!(c.transfer_start);
    assert_eq!(c.as_u32(), 0x3B);
    let w = Control::decode(0x04).unwrap();
    assert_eq!(w.transfer_type, TransferType::WRITE);
    assert_eq!(w.transfer_mode, TransferMode::IMM);
    assert_eq!(Control::decode(w.as_u32()), Ok(w));
    assert_eq!(Control::new().as_u32(), 0);
}

#[test]
fn control_rejects_transfer_type_three() {
    assert_eq!(Control::decode(0x0C), Err(ExiError::InvalidTransferType(0x0C)));
}

#[test]
fn device_index_out_of_range() {
    let mut ch = Channel::new([DeviceDummy::new(), DeviceDummy::new(), DeviceDummy::new()]);
    assert!(ch.get_device(2).is_ok());
    assert_eq!(ch.get_device(5).err(), Some(ExiError::DeviceOutOfRange(5)));
    assert_eq!(ch.get_device(3).err(), Some(ExiError::DeviceOutOfRange(3)));
    assert!(ch.get_device_mut(0).is_ok());
    assert_eq!(ch.get_device_mut(5).err(), Some(ExiError::DeviceOutOfRange(5)));
}

#[test]
fn get_device_mut_changes_only_that_slot() {
    let mut ch = probes();
    ch.get_device_mut(1).unwrap().selected = 9;
    assert_eq!(ch.devices[0].selected, 0);
    assert_eq!(ch.devices[1].selected, 9);
    assert_eq!(ch.devices[2].selected, 0);
    assert!(ch.get_device_mut(7).is_err());
    assert_eq!(ch.devices[1].selected, 9);
}

#[test]
fn selecting_a_device_tells_it_once() {
    let mut ch = probes();
    let mut mem: Ram = vec![0; 16];
    assert_eq!(ch.write_u32(EXI_STATUS, 2 << 7, &mut mem), Ok(()));
    assert_eq!(ch.write_u32(EXI_STATUS, 2 << 7, &mut mem), Ok(()));
    assert_eq!(ch.devices[1].selected, 1);
    assert_eq!(ch.write_u32(EXI_STATUS, 4 << 7, &mut mem), Ok(()));
    assert_eq!(ch.devices[2].selected, 1);
    assert_eq!(ch.devices[0].selected, 0);
    assert_eq!(ch.read_u32(EXI_STATUS), Ok(4 << 7));
    assert_eq!(ch.write_u32(EXI_STATUS, 3 << 7, &mut mem), Err(ExiError::InvalidDeviceSelect(3)));
    assert_eq!(ch.status.device_select, 2);
}

#[test]
fn immediate_transfers_clear_start() {
    let mut ch = probes();
    let mut mem: Ram = vec![0; 16];
    assert_eq!(ch.write_u32(EXI_IMM_DATA, 0xDEAD_BEEF, &mut mem), Ok(()));
    // write, two bytes, immediate, start
    assert_eq!(ch.write_u32(EXI_CONTROL, (1 << 4) | (1 << 2) | 1, &mut mem), Ok(()));
    assert_eq!(ch.devices[0].written, vec![(0xDEAD_BEEF, 2)]);
    assert!(!ch.control.transfer_start);
    assert_eq!(ch.read_u32(EXI_CONTROL), Ok((1 << 4) | (1 << 2)));
    // read, four bytes
    assert_eq!(ch.write_u32(EXI_CONTROL, (3 << 4) | 1, &mut mem), Ok(()));
    assert_eq!(ch.read_u32(EXI_IMM_DATA), Ok(0xA4));
    assert!(!ch.control.transfer_start);
}

#[test]
fn dma_transfer_fills_memory() {
    let mut ch = probes();
    let mut mem: Ram = vec![0; 16];
    assert_eq!(ch.write_u32(EXI_DMA_ADDRESS, 4, &mut mem), Ok(()));
    assert_eq!(ch.write_u32(EXI_DMA_LENGTH, 3, &mut mem), Ok(()));
    assert_eq!(ch.write_u32(EXI_CONTROL, (1 << 1) | 1, &mut mem), Ok(()));
    assert_eq!(mem[3], 0);
    assert_eq!(&mem[4..7], &[0x5A, 0x5A, 0x5A]);
    assert_eq!(mem[7], 0);
    assert!(!ch.control.transfer_start);
    assert_eq!(ch.read_u32(EXI_DMA_ADDRESS), Ok(4));
    assert_eq!(ch.read_u32(EXI_DMA_LENGTH), Ok(3));
}

#[test]
fn dummy_device_refuses_transfers() {
    let mut ch = Channel::new([DeviceDummy::new(), DeviceDummy::new(), DeviceDummy::new()]);
    let mut mem: Ram = vec![0; 16];
    assert_eq!(
        ch.write_u32(EXI_CONTROL, 1, &mut mem),
        Err(ExiError::Device(DeviceError::Unsupported))
    );
    assert!(!ch.control.transfer_start);
    assert_eq!(
        ch.write_u32(EXI_CONTROL, 3, &mut mem),
        Err(ExiError::Device(DeviceError::Unsupported))
    );
    assert!(!ch.control.transfer_start);
    assert_eq!(ch.write_u32(EXI_CONTROL, 2, &mut mem), Ok(()));
}

#[test]
fn unmapped_exi_register() {
    let mut ch = probes();
    let mut mem: Ram = vec![0; 4];
    assert_eq!(ch.write_u32(0x14, 1, &mut mem), Err(ExiError::UnmappedRegister(0x14)));
    assert_eq!(ch.read_u32(0x14), Err(ExiError::UnmappedRegister(0x14)));
}

#[test]
fn defaults_match_reset_values() {
    assert_eq!(Status::default(), Status::new());
    assert_eq!(Control::default(), Control::new());
    assert_eq!(TransferMode::default(), TransferMode::IMM);
    assert_eq!(TransferType::default(), TransferType::READ);
}

#[test]
fn get_device_returns_the_slot() {
    let mut ch = probes();
    ch.devices[2].selected = 4;
    assert_eq!(ch.get_device(2).unwrap().selected, 4);
    assert_eq!(ch.get_device(0).unwrap().selected, 0);
}

#[test]
fn readwrite_immediate_writes_then_reads() {
    let mut ch = probes();
    let mut mem: Ram = vec![0; 4];
    assert_eq!(ch.write_u32(EXI_STATUS, 2 << 7, &mut mem), Ok(()));
    assert_eq!(ch.write_u32(EXI_IMM_DATA, 0x77, &mut mem), Ok(()));
    // read-write, one byte, immediate, start
    assert_eq!(ch.write_u32(EXI_CONTROL, (1 << 3) | 1, &mut mem), Ok(()));
    assert_eq!(ch.devices[1].written, vec![(0x77, 1)]);
    assert_eq!(ch.imm_data, 0xA1);
    assert!(ch.devices[0].written.is_empty());
    assert!(!ch.control.transfer_start);
}

#[test]
fn dummy_dma_leaves_memory() {
    let mut ch = Channel::new([DeviceDummy::new(), DeviceDummy::new(), DeviceDummy::new()]);
    let mut mem: Ram = vec![7; 8];
    assert_eq!(ch.write_u32(EXI_DMA_LENGTH, 4, &mut mem), Ok(()));
    assert_eq!(
        ch.write_u32(EXI_CONTROL, 2 | 1, &mut mem),
        Err(ExiError::Device(DeviceError::Unsupported))
    );
    assert_eq!(mem, vec![7; 8]);
    assert_eq!(ch.imm_data, 0);
}
