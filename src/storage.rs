//! Flash partitions: a range of a flash device, addressed from its own start.
use vstd::prelude::*;

verus! {

/// A range of a flash device.
#[derive(Debug, Clone, Copy, PartialEq, Eq, Structural)]
pub struct FlashPartition {
    pub start: usize,
    pub length: usize,
}

impl FlashPartition {
    pub fn new(start: usize, length: usize) -> (r: FlashPartition)
        ensures
            r.start == start,
            r.length == length,
    {
        FlashPartition { start, length }
    }

    /// The device address of `offset` within the partition, if it fits in an address.
    pub fn address(&self, offset: usize) -> (r: Option<usize>)
        ensures
            r == if self.start + offset <= usize::MAX {
                Some((self.start + offset) as usize)
            } else {
                None::<usize>
            },
    {
        self.start.checked_add(offset)
    }
}

/// A flash device, erased and written in blocks.
pub trait BlockFlash {
    fn erase(&mut self, offset: usize, length: usize) -> Result<(), &'static str>;

    fn write(&mut self, offset: usize, data: &[u8]) -> Result<(), &'static str>;

    fn length(&self) -> usize;

    fn erase_block_size(&self) -> usize;
}

/// Erases at least `length` bytes from the start of `flash`, in whole blocks.
pub fn erase_at_least<F: BlockFlash>(flash: &mut F, length: usize) -> Result<(), &'static str> {
    let block = flash.erase_block_size();
    if block == 0 {
        return Err("erase block size is zero");
    }
    match erase_length(length, block) {
        Some(n) => flash.erase(0, n),
        None => Err("length out of range"),
    }
}

/// Stores `settings` at the start of `flash`, behind their length as a 16-bit value: the
/// blocks that hold them are erased first. Settings that do not fit in the device, or whose
/// length does not fit in 16 bits, are refused before the device is touched.
pub fn save_settings_to_flash<F: BlockFlash>(flash: &mut F, settings: &[u8]) -> (r: Result<
    (),
    &'static str,
>)
    ensures
        settings@.len() > u16::MAX ==> r is Err && *final(flash) == *old(flash),
{
    if settings.len() > u16::MAX as usize {
        return Err("Settings data exceeds the largest length that can be stored");
    }
    let total = flash.length();
    if settings.len() > total || total - settings.len() < 2 {
        return Err("Settings data exceeds flash memory length");
    }
    let length = settings.len();
    erase_at_least(flash, length)?;
    let prefix = vstd::bytes::u16_to_le_bytes(length as u16);
    flash.write(0, prefix.as_slice())?;
    flash.write(2, settings)?;
    Ok(())
}

/// The length to erase so that at least `length` bytes are erased in whole blocks of
/// `block`: `length` rounded up to a multiple of `block`, if that fits.
pub fn erase_length(length: usize, block: usize) -> (r: Option<usize>)
    requires
        block > 0,
    ensures
        r matches Some(n) ==> n % block == 0 && length <= n < length + block,
        r is None ==> (length + block - 1) / (block as int) * block > usize::MAX,
{
    let q = length / block;
    let rem = length % block;
    let ghost c = (length + block - 1) / (block as int);
    proof {
        assert(length == q * block + rem) by (nonlinear_arith)
            requires
                block > 0,
                q == length / block,
                rem == length % block,
        ;
        assert(c == q + if rem == 0 {
            0int
        } else {
            1int
        }) by (nonlinear_arith)
            requires
                block > 0,
                c == (length + block - 1) / (block as int),
                length == q * block + rem,
                0 <= rem < block,
        ;
        assert(c * block >= c) by (nonlinear_arith)
            requires
                block > 0,
                c >= 0,
        ;
    }
    let blocks = if rem == 0 {
        Some(q)
    } else {
        q.checked_add(1)
    };
    match blocks {
        Some(b) => match b.checked_mul(block) {
            Some(n) => {
                proof {
                    assert(n % block == 0) by (nonlinear_arith)
                        requires
                            n == b * block,
                            block > 0,
                    ;
                    assert(length <= n < length + block) by (nonlinear_arith)
                        requires
                            n == b * block,
                            block > 0,
                            b == q + if rem == 0 {
                                0int
                            } else {
                                1int
                            },
                            length == q * block + rem,
                            0 <= rem < block,
                    ;
                }
                Some(n)
            },
            None => None,
        },
        None => None,
    }
}

/// A partition of a flash device, seen as a device of its own.
pub struct PartitionedFlashMemory<F: BlockFlash> {
    pub flash: F,
    pub partition: FlashPartition,
}

impl<F: BlockFlash> PartitionedFlashMemory<F> {
    pub fn new(flash: F, partition: FlashPartition) -> (r: PartitionedFlashMemory<F>)
        ensures
            r.flash == flash,
            r.partition == partition,
    {
        PartitionedFlashMemory { flash, partition }
    }

    /// Erases `length` bytes from `offset` within the partition.
    pub fn erase(&mut self, offset: usize, length: usize) -> (r: Result<(), &'static str>)
        ensures
            old(self).partition.start + offset > usize::MAX ==> r is Err,
            final(self).partition == old(self).partition,
    {
        match self.partition.address(offset) {
            Some(start) => self.flash.erase(start, length),
            None => Err("offset out of range"),
        }
    }

    /// Writes `data` at `offset` within the partition.
    pub fn write(&mut self, offset: usize, data: &[u8]) -> (r: Result<(), &'static str>)
        ensures
            old(self).partition.start + offset > usize::MAX ==> r is Err,
            final(self).partition == old(self).partition,
    {
        match self.partition.address(offset) {
            Some(start) => self.flash.write(start, data),
            None => Err("offset out of range"),
        }
    }

    /// The length of the partition.
    pub fn length(&self) -> (r: usize)
        ensures
            r == self.partition.length,
    {
        self.partition.length
    }

}

impl<F: BlockFlash> BlockFlash for PartitionedFlashMemory<F> {
    fn erase(&mut self, offset: usize, length: usize) -> Result<(), &'static str> {
        PartitionedFlashMemory::erase(self, offset, length)
    }

    fn write(&mut self, offset: usize, data: &[u8]) -> Result<(), &'static str> {
        PartitionedFlashMemory::write(self, offset, data)
    }

    fn length(&self) -> usize {
        self.partition.length
    }

    fn erase_block_size(&self) -> usize {
        self.flash.erase_block_size()
    }
}

} // verus!
