use vstd::prelude::*;

verus! {

/// A failed access on one of the byte-addressable stores of the machine.
#[derive(Debug, Clone, Copy, PartialEq, Eq, Structural)]
pub enum MemoryError {
    /// A read inside a known region but outside its backing storage.
    ReadMemory(u16),
    /// A write inside a known region but outside its backing storage.
    WriteMemory(u16),
    /// An access to an address that no region maps.
    AddressOutOfRange(u16),
}

/// The little-endian word made of two bytes.
pub open spec fn word_of(low: u8, high: u8) -> u16 {
    (high as int * 256 + low as int) as u16
}

/// Combines two byte reads into a little-endian word read: the first error wins.
pub open spec fn word_read(
    low: Result<u8, MemoryError>,
    high: Result<u8, MemoryError>,
) -> Result<u16, MemoryError> {
    match low {
        Err(e) => Err(e),
        Ok(l) => match high {
            Err(e) => Err(e),
            Ok(h) => Ok(word_of(l, h)),
        },
    }
}

/// Builds the word `(high << 8) | low`.
pub fn make_word(low: u8, high: u8) -> (r: u16)
    ensures
        r == word_of(low, high),
{
    (high as u16) * 256 + low as u16
}

/// The low byte of a word.
pub open spec fn low_byte(w: u16) -> u8 {
    (w % 256) as u8
}

/// The high byte of a word.
pub open spec fn high_byte(w: u16) -> u8 {
    (w / 256) as u8
}

/// A byte-addressable store on a 16-bit address space.
///
/// `spec_read` says what a read yields; `spec_write` says which store a
/// write leaves behind and what it returns.
pub trait Memory: Sized {
    /// The store's own well-formedness.
    spec fn inv(&self) -> bool;

    /// What a read of `address` returns.
    spec fn spec_read(&self, address: u16) -> Result<u8, MemoryError>;

    /// What a write of `data` at `address` returns.
    spec fn spec_write_result(&self, address: u16, data: u8) -> Result<(), MemoryError>;

    /// Whether `after` is this store once `data` was written at `address`.
    spec fn spec_written(&self, address: u16, data: u8, after: &Self) -> bool;

    fn read(&self, address: u16) -> (r: Result<u8, MemoryError>)
        requires
            self.inv(),
        ensures
            r == self.spec_read(address),
    ;

    /// Reads a little-endian word; the address of the high byte wraps at the end of the space.
    fn read_word(&self, address: u16) -> (r: Result<u16, MemoryError>)
        requires
            self.inv(),
        ensures
            r == word_read(self.spec_read(address), self.spec_read(address.wrapping_add(1))),
    {
        let low = match self.read(address) {
            Ok(v) => v,
            Err(e) => return Err(e),
        };
        let high = match self.read(address.wrapping_add(1)) {
            Ok(v) => v,
            Err(e) => return Err(e),
        };
        Ok(make_word(low, high))
    }

    fn write(&mut self, address: u16, data: u8) -> (r: Result<(), MemoryError>)
        requires
            old(self).inv(),
        ensures
            final(self).inv(),
            r == old(self).spec_write_result(address, data),
            old(self).spec_written(address, data, final(self)),
    ;

    /// Writes a little-endian word, low byte first; stops at the first failed write.
    fn write_word(&mut self, address: u16, data: u16) -> (r: Result<(), MemoryError>)
        requires
            old(self).inv(),
        ensures
            final(self).inv(),
            match old(self).spec_write_result(address, low_byte(data)) {
                Err(e) => r == Err::<(), MemoryError>(e) && old(self).spec_written(
                    address,
                    low_byte(data),
                    final(self),
                ),
                Ok(_) => exists|mid: Self|
                    #![trigger mid.spec_write_result(address.wrapping_add(1), high_byte(data))]
                    old(self).spec_written(address, low_byte(data), &mid) && mid.inv() && r
                        == mid.spec_write_result(address.wrapping_add(1), high_byte(data))
                        && mid.spec_written(address.wrapping_add(1), high_byte(data), final(self)),
            },
    {
        let low = (data % 256) as u8;
        let high = (data / 256) as u8;
        match self.write(address, low) {
            Ok(()) => {},
            Err(e) => return Err(e),
        }
        let ghost mid = *self;
        let r = self.write(address.wrapping_add(1), high);
        assert(mid.spec_write_result(address.wrapping_add(1), high_byte(data)) == r);
        r
    }
}

} // verus!
