//! Views of an ICMP header over raw bytes.
//!
//! The relay forwards ICMP echo messages opaquely, so the parsed header data
//! carries no field: a view only pairs the raw bytes with that data.

use vstd::prelude::*;

verus! {

/// A read-only view of an ICMP header: the raw bytes and the parsed data.
#[derive(Debug)]
pub struct IcmpHeader<'a> {
    raw: &'a [u8],
    data: &'a IcmpHeaderData,
}

/// A mutable view of an ICMP header: the raw bytes and the parsed data.
#[derive(Debug)]
pub struct IcmpHeaderMut<'a> {
    raw: &'a mut [u8],
    data: &'a mut IcmpHeaderData,
}

/// Parsed ICMP header data (no field is interpreted by the relay).
#[derive(Clone, Debug)]
pub struct IcmpHeaderData {}

impl IcmpHeaderData {
    /// Parses the header data from raw bytes; no byte is interpreted.
    pub fn parse(raw: &[u8]) -> (r: Self)
        ensures
            r == (IcmpHeaderData {}),
    {
        IcmpHeaderData {}
    }

    /// Binds this data to `raw`, giving a read-only header view.
    pub fn bind<'c, 'a: 'c, 'b: 'c>(&'a self, raw: &'b [u8]) -> (r: IcmpHeader<'c>)
        ensures
            r.raw_bytes() == raw@,
            r.header_data() == *self,
    {
        IcmpHeader::new(raw, self)
    }

    /// Binds this data to `raw`, giving a mutable header view.
    pub fn bind_mut<'c, 'a: 'c, 'b: 'c>(&'a mut self, raw: &'b mut [u8]) -> (r: IcmpHeaderMut<'c>)
        ensures
            r.raw_bytes() == old(raw)@,
    {
        IcmpHeaderMut::new(raw, self)
    }
}

impl<'a> IcmpHeader<'a> {
    /// The bytes this view covers.
    pub closed spec fn raw_bytes(&self) -> Seq<u8> {
        self.raw@
    }

    /// The parsed data this view carries.
    pub closed spec fn header_data(&self) -> IcmpHeaderData {
        *self.data
    }

    /// Pairs raw bytes with parsed data.
    pub fn new(raw: &'a [u8], data: &'a IcmpHeaderData) -> (r: Self)
        ensures
            r.raw_bytes() == raw@,
            r.header_data() == *data,
    {
        IcmpHeader { raw, data }
    }

    /// The raw header bytes.
    pub fn raw(&self) -> (r: &[u8])
        ensures
            r@ == self.raw_bytes(),
    {
        self.raw
    }

    /// The parsed header data.
    pub fn data(&self) -> (r: &IcmpHeaderData)
        ensures
            *r == self.header_data(),
    {
        self.data
    }
}

impl<'a> IcmpHeaderMut<'a> {
    /// The bytes this view covers, as they are now.
    pub closed spec fn raw_bytes(&self) -> Seq<u8> {
        self.raw@
    }

    /// Pairs mutable raw bytes with mutable parsed data.
    pub fn new(raw: &'a mut [u8], data: &'a mut IcmpHeaderData) -> (r: Self)
        ensures
            r.raw_bytes() == old(raw)@,
    {
        IcmpHeaderMut { raw, data }
    }

    /// The raw header bytes.
    pub fn raw(&self) -> (r: &[u8])
        ensures
            r@ == self.raw_bytes(),
    {
        self.raw
    }

    /// The parsed header data.
    pub fn data(&self) -> (r: &IcmpHeaderData)
        ensures
            *r == (IcmpHeaderData {}),
    {
        self.data
    }

    /// The raw header bytes, for writing.
    pub fn raw_mut(&mut self) -> (r: &mut [u8])
        ensures
            r@ == old(self).raw_bytes(),
            final(self).raw_bytes() == final(r)@,
    {
        self.raw
    }

    /// The parsed header data, for writing.
    pub fn data_mut(&mut self) -> (r: &mut IcmpHeaderData)
        ensures
            final(self).raw_bytes() == old(self).raw_bytes(),
    {
        self.data
    }
}

} // verus!
