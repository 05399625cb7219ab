//! A temperature sensor model: the sample client carried alongside the
//! mesh interface, with its value codec.

use vstd::prelude::*;

verus! {

/// A decoded sensor property value was not recognized.
#[derive(Clone, Copy, Debug, PartialEq, Eq, Structural)]
pub enum ParseError {
    /// The property identifier names no value this sensor carries.
    InvalidValue,
}

/// An encode target had no room for the encoded value.
#[derive(Clone, Copy, Debug, PartialEq, Eq, Structural)]
pub struct InsufficientBuffer;

/// A byte buffer of fixed capacity; filling it past its capacity fails
/// rather than growing it.
#[derive(Clone, Debug)]
pub struct BoundedBuffer {
    /// The bytes written so far.
    pub data: Vec<u8>,
    /// The capacity: `data` never grows beyond it.
    pub cap: usize,
}

impl BoundedBuffer {
    /// The buffer never exceeds its capacity.
    pub open spec fn wf(&self) -> bool {
        self.data@.len() <= self.cap
    }

    /// An empty buffer of the given capacity.
    pub fn new(cap: usize) -> (r: Self)
        ensures
            r.wf(),
            r.data@.len() == 0,
            r.cap == cap,
    {
        BoundedBuffer { data: Vec::new(), cap }
    }

    /// Appends the slice whole, or fails without writing anything if it
    /// does not fit.
    pub fn extend_from_slice(&mut self, s: &[u8]) -> (r: Result<(), InsufficientBuffer>)
        requires
            old(self).wf(),
        ensures
            final(self).wf(),
            final(self).cap == old(self).cap,
            old(self).data@.len() + s@.len() <= old(self).cap ==> (r is Ok && final(self).data@
                == old(self).data@ + s@),
            old(self).data@.len() + s@.len() > old(self).cap ==> (r == Err::<
                (),
                InsufficientBuffer,
            >(InsufficientBuffer) && *final(self) == *old(self)),
    {
        if s.len() <= self.cap - self.data.len() {
            self.data.extend_from_slice(s);
            Ok(())
        } else {
            Err(InsufficientBuffer)
        }
    }
}

/// The sensor model: it carries a single temperature property.
#[derive(Clone, Copy, Debug, PartialEq, Eq, Structural)]
pub struct SensorModel;

/// The property identifier of the temperature value.
pub const TEMPERATURE_PROPERTY: u16 = 0x4F;

impl SensorModel {
    /// The sensor's property descriptors: one property identifier with
    /// the byte size of its value.
    pub fn descriptors() -> (r: Vec<(u16, usize)>)
        ensures
            r@ =~= seq![(0x4Fu16, 1usize)],
    {
        let mut v: Vec<(u16, usize)> = Vec::new();
        v.push((TEMPERATURE_PROPERTY, 1));
        v
    }
}

/// A temperature sample, in whole degrees.
#[derive(Clone, Copy, Debug, PartialEq, Eq, Structural)]
pub struct Temperature(pub i8);

impl Temperature {
    /// Decodes a received property value: the temperature property
    /// carries the reading in its first byte; any other property is
    /// rejected and the sample is left unchanged.
    pub fn decode(&mut self, id: u16, params: &[u8]) -> (r: Result<(), ParseError>)
        requires
            id == TEMPERATURE_PROPERTY ==> params@.len() >= 1,
        ensures
            id == TEMPERATURE_PROPERTY ==> (r is Ok && final(self).0 == params@[0] as i8),
            id != TEMPERATURE_PROPERTY ==> (r == Err::<(), ParseError>(ParseError::InvalidValue)
                && *final(self) == *old(self)),
    {
        if id == TEMPERATURE_PROPERTY {
            self.0 = params[0] as i8;
            Ok(())
        } else {
            Err(ParseError::InvalidValue)
        }
    }

    /// Encodes the reading: its single little-endian byte is appended to
    /// the transmit buffer, or the call fails if the buffer is full.
    pub fn encode(&self, xmit: &mut BoundedBuffer) -> (r: Result<(), InsufficientBuffer>)
        requires
            old(xmit).wf(),
        ensures
            final(xmit).wf(),
            final(xmit).cap == old(xmit).cap,
            old(xmit).data@.len() + 1 <= old(xmit).cap ==> (r is Ok && final(xmit).data@
                == old(xmit).data@.push(self.0 as u8)),
            old(xmit).data@.len() + 1 > old(xmit).cap ==> (r == Err::<(), InsufficientBuffer>(
                InsufficientBuffer,
            ) && *final(xmit) == *old(xmit)),
    {
        let b: [u8; 1] = [self.0 as u8];
        let r = xmit.extend_from_slice(&b);
        proof {
            if old(xmit).data@.len() + 1 <= old(xmit).cap {
                assert(xmit.data@ =~= old(xmit).data@.push(self.0 as u8));
            }
        }
        r
    }
}

} // verus!
