use cardboard_lib::storage::{
    save_settings_to_flash, BlockFlash, FlashPartition, PartitionedFlashMemory,
};

struct MemFlash {
    data: Vec<u8>,
    block: usize,
    erased: Vec<(usize, usize)>,
}

impl BlockFlash for MemFlash {
    fn erase(&mut self, offset: usize, length: usize) -> Result<(), &'static str> {
        if offset + length > self.data.len() {
            return Err("out of range");
        }
        self.erased.push((offset, length));
        for b in &mut self.data[offset..offset + length] {
            *b = 0xFF;
        }
        Ok(())
    }

    fn write(&mut self, offset: usize, data: &[u8]) -> Result<(), &'static str> {
        if offset + data.len() > self.data.len() {
            return Err("out of range");
        }
        self.data[offset..offset + data.len()].copy_from_slice(data);
        Ok(())
    }

    fn length(&self) -> usize {
        self.data.len()
    }

    fn erase_block_size(&self) -> usize {
        self.block
    }
}

fn mem_flash(len: usize) -> MemFlash {
    MemFlash { data: vec![0; len], block: 4, erased: vec![] }
}

#[test]
fn settings_are_stored_behind_their_length() {
    let mut flash = mem_flash(16);
    save_settings_to_flash(&mut flash, &[7, 8, 9]).unwrap();
    assert_eq!(&flash.data[..5], &[3, 0, 7, 8, 9]);
    assert_eq!(flash.erased, vec![(0, 4)]);
}

#[test]
fn settings_that_do_not_fit_are_refused() {
    let mut flash = mem_flash(4);
    assert!(save_settings_to_flash(&mut flash, &[1, 2, 3]).is_err());
    assert_eq!(flash.data, vec![0; 4]);
    assert!(save_settings_to_flash(&mut flash, &[1, 2]).is_ok());
}

#[test]
fn partitions_shift_offsets() {
    let flash = mem_flash(32);
    let mut part = PartitionedFlashMemory::new(flash, FlashPartition::new(8, 16));
    assert_eq!(part.length(), 16);
    save_settings_to_flash(&mut part, &[5]).unwrap();
    assert_eq!(&part.flash.data[8..11], &[1, 0, 5]);
    assert_eq!(part.flash.erased, vec![(8, 4)]);
    assert!(part.write(usize::MAX, &[1]).is_err());
}
