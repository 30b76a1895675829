//! A tablespace image: its first page's identity and flags, and its pages.
use vstd::prelude::*;

use crate::buf0buf::page_check;
use crate::error::Error;
use crate::fil0fil::{flags_valid, logical_size_of, physical_size_of};
use crate::mach::{be_u32, field};
use crate::page_buf::PageBuf;

verus! {

/// A tablespace image in spec terms.
pub struct TablespaceState {
    pub data: Seq<u8>,
    /// page size
    pub page: nat,
    pub order: nat,
    pub space_id: u32,
    pub flags: u32,
}

/// The space id and flags that the first page holds, or why they are unusable.
pub open spec fn first_page_flags(b: Seq<u8>, page: int) -> Result<(u32, u32), Error> {
    if b.len() < 42 {
        Err(Error::ShortRead)
    } else if be_u32(field(b, 34, 4)) != be_u32(field(b, 38, 4)) {
        Err(Error::InvalidData)
    } else if b.len() < 58 {
        Err(Error::ShortRead)
    } else if !flags_valid(be_u32(field(b, 54, 4)), be_u32(field(b, 34, 4)) != 0, page) {
        Err(Error::InvalidData)
    } else {
        Ok((be_u32(field(b, 34, 4)), be_u32(field(b, 54, 4))))
    }
}

/// The consistency verdict on the first page of a tablespace.
pub open spec fn first_page_check(s: TablespaceState) -> Result<(), Error> {
    let page = s.page as int;
    if s.order == 0 && first_page_flags(s.data, page) is Err {
        Err(first_page_flags(s.data, page)->Err_0)
    } else if s.order == 0 && first_page_flags(s.data, page)->Ok_0 != (s.space_id, s.flags) {
        Err(Error::InvalidData)
    } else if physical_size_of(s.flags, page) > page {
        Err(Error::InvalidData)
    } else if page > s.data.len() {
        Err(Error::ShortRead)
    } else if s.space_id == 0 && s.flags == 0 && (forall|i: int| 0 <= i < page ==> s.data[i] == 0) {
        Err(Error::InvalidData)
    } else if !flags_valid(s.flags, s.space_id != 0, page) {
        Err(Error::InvalidData)
    } else if page != logical_size_of(s.flags) || page < 38 {
        Err(Error::InvalidData)
    } else if be_u32(field(s.data, 4, 4)) != 0 {
        Err(Error::InvalidData)
    } else if s.space_id >= crate::fsp0types::SRV_SPACE_ID_UPPER_BOUND {
        Err(Error::InvalidData)
    } else {
        page_check(s.flags, s.data.subrange(0, page))
    }
}

/// Reads a tablespace image.
#[derive(Debug, Clone, Copy)]
pub struct TablespaceReader<'a> {
    buf: &'a [u8],
    /// page size, by default 16K.
    page: usize,
    /// The order of the datafile in the tablespace.
    order: usize,
    /// tablespace id
    space_id: u32,
    /// tablespace flags
    flags: u32,
}

impl<'a> View for TablespaceReader<'a> {
    type V = TablespaceState;

    closed spec fn view(&self) -> TablespaceState {
        TablespaceState {
            data: self.buf@,
            page: self.page as nat,
            order: self.order as nat,
            space_id: self.space_id,
            flags: self.flags,
        }
    }
}

impl<'a> TablespaceReader<'a> {
    pub fn new(buf: &'a [u8], page: usize) -> (r: TablespaceReader<'a>)
        ensures
            r@ == (TablespaceState {
                data: buf@,
                page: page as nat,
                order: 0,
                space_id: 0,
                flags: 0,
            }),
    {
        TablespaceReader { buf, page, order: 0, space_id: 0, flags: 0 }
    }

    /// Reads the space id and flags of the first page of the first datafile.
    pub fn parse_first_page(&mut self) -> (r: Result<(), Error>)
        ensures
            final(self)@.data == old(self)@.data,
            final(self)@.page == old(self)@.page,
            final(self)@.order == old(self)@.order,
            old(self)@.order == 0 && first_page_flags(old(self)@.data, old(self)@.page as int)
                is Err ==> r == Err::<(), Error>(
                first_page_flags(old(self)@.data, old(self)@.page as int)->Err_0,
            ),
            r is Ok ==> physical_size_of(final(self)@.flags, final(self)@.page as int)
                <= final(self)@.page,
            r is Ok && old(self)@.order == 0 ==> (final(self)@.space_id, final(self)@.flags)
                == first_page_flags(old(self)@.data, old(self)@.page as int)->Ok_0,
            old(self)@.order == 0 && first_page_flags(old(self)@.data, old(self)@.page as int) is Ok
                ==> (r is Ok <==> physical_size_of(
                first_page_flags(old(self)@.data, old(self)@.page as int)->Ok_0.1,
                old(self)@.page as int,
            ) <= old(self)@.page),
    {
        if self.order == 0 {
            let (space_id, flags) = self.read_first_page_flags()?;
            self.space_id = space_id;
            self.flags = flags;
        }
        if crate::fil0fil::physical_size(self.flags, self.page) > self.page {
            return Err(Error::InvalidData);
        }
        Ok(())
    }

    /// Reads and checks the space id and flags of the first page.
    pub fn read_first_page_flags(&self) -> (r: Result<(u32, u32), Error>)
        ensures
            r == first_page_flags(self@.data, self@.page as int),
    {
        let fil_page_space_id = self.read_4(crate::fil0fil::FIL_PAGE_SPACE_ID as usize)?;
        let fsp_header_space_id = self.read_4(
            (crate::fsp0fsp::FSP_HEADER_OFFSET + crate::fsp0fsp::FSP_SPACE_ID) as usize,
        )?;
        if fil_page_space_id != fsp_header_space_id {
            return Err(Error::InvalidData);
        }
        let flags = self.read_4(
            (crate::fsp0fsp::FSP_HEADER_OFFSET + crate::fsp0fsp::FSP_SPACE_FLAGS) as usize,
        )?;
        let space_id = fil_page_space_id;
        // is_ibd: an .ibd file, not the system tablespace.
        let is_ibd = space_id != 0;
        if !crate::fil0fil::is_valid_flags(flags, is_ibd, self.page) {
            return Err(Error::InvalidData);
        }
        Ok((space_id, flags))
    }

    /// Checks the consistency of the first page of a datafile.
    pub fn validate_first_page(&self) -> (r: Result<(), Error>)
        ensures
            r == first_page_check(self@),
    {
        if self.order == 0 {
            let (space_id, flags) = self.read_first_page_flags()?;
            if space_id != self.space_id || flags != self.flags {
                return Err(Error::InvalidData);
            }
        }
        if crate::fil0fil::physical_size(self.flags, self.page) > self.page {
            return Err(Error::InvalidData);
        }
        let first = self.block(0, self.page)?;
        if self.space_id == 0 && self.flags == 0 {
            // Check if the whole page is blank.
            let mut nonzero_bytes = self.page;
            while nonzero_bytes > 0 && first[nonzero_bytes - 1] == 0
                invariant
                    first@ == self@.data.subrange(0, self@.page as int),
                    self@.page <= self@.data.len(),
                    0 <= nonzero_bytes <= self@.page,
                    forall|i: int| nonzero_bytes <= i < self@.page ==> self@.data[i] == 0,
                decreases nonzero_bytes,
            {
                nonzero_bytes = nonzero_bytes - 1;
            }
            if nonzero_bytes == 0 {
                return Err(Error::InvalidData);
            }
            assert(first@[nonzero_bytes - 1] == self@.data[nonzero_bytes - 1]);
        }
        let is_ibd = self.space_id != 0;
        if !crate::fil0fil::is_valid_flags(self.flags, is_ibd, self.page) {
            return Err(Error::InvalidData);
        }
        let logical_size = crate::fil0fil::logical_size(self.flags);
        if self.page != logical_size || self.page < 38 {
            return Err(Error::InvalidData);
        }
        if crate::page0page::page_get_page_no(self.buf, 0, self.page) != 0 {
            return Err(Error::InvalidData);
        }
        if self.space_id >= crate::fsp0types::SRV_SPACE_ID_UPPER_BOUND {
            return Err(Error::InvalidData);
        }
        let page = PageBuf::new(self.flags, first);
        page.corrupted(None)
    }

    /// Checks that `[pos, pos + len)` lies in the image.
    pub fn ensure(&self, pos: usize, len: usize) -> (r: Result<(), Error>)
        ensures
            r == if pos + len <= self@.data.len() {
                Ok::<(), Error>(())
            } else {
                Err::<(), Error>(Error::ShortRead)
            },
    {
        let _n = self.buf.len();
        match pos.checked_add(len) {
            Some(end) => if end <= self.buf.len() {
                Ok(())
            } else {
                Err(Error::ShortRead)
            },
            None => Err(Error::ShortRead),
        }
    }

    /// The bytes `[pos, pos + len)`.
    pub fn block(&self, pos: usize, len: usize) -> (r: Result<&'a [u8], Error>)
        ensures
            pos + len <= self@.data.len() ==> r is Ok && r->Ok_0@ == self@.data.subrange(
                pos as int,
                pos + len,
            ),
            pos + len > self@.data.len() ==> r == Err::<&'a [u8], Error>(Error::ShortRead),
    {
        let _n = self.buf.len();
        self.ensure(pos, len)?;
        Ok(&self.buf[pos..pos + len])
    }

    /// The page `page_no`.
    pub fn page(&self, page_no: u32) -> (r: Result<PageBuf<'a>, Error>)
        requires
            self@.page >= 38,
        ensures
            page_no * self@.page + self@.page <= self@.data.len() ==> r is Ok && r->Ok_0@
                == self@.data.subrange(page_no * self@.page, page_no * self@.page + self@.page)
                && r->Ok_0.flags == self@.flags,
            page_no * self@.page + self@.page > self@.data.len() ==> r is Err,
    {
        let _n = self.buf.len();
        let pos = match (page_no as usize).checked_mul(self.page) {
            Some(p) => p,
            None => {
                return Err(Error::InvalidInput);
            },
        };
        let b = self.block(pos, self.page)?;
        Ok(PageBuf::new(self.flags, b))
    }

    /// The 32-bit big-endian integer at `pos`.
    pub fn read_4(&self, pos: usize) -> (r: Result<u32, Error>)
        ensures
            pos + 4 <= self@.data.len() ==> r == Ok::<u32, Error>(
                be_u32(field(self@.data, pos as int, 4)),
            ),
            pos + 4 > self@.data.len() ==> r == Err::<u32, Error>(Error::ShortRead),
    {
        let b = self.block(pos, 4)?;
        proof {
            assert(b@ =~= field(self@.data, pos as int, 4));
            assert(field(b@, 0, 4) =~= b@);
        }
        Ok(crate::mach::read_u32_at(b, 0))
    }

    pub fn order(&self) -> (r: usize)
        ensures
            r == self@.order,
    {
        self.order
    }

    pub fn space_id(&self) -> (r: u32)
        ensures
            r == self@.space_id,
    {
        self.space_id
    }

    pub fn flags(&self) -> (r: u32)
        ensures
            r == self@.flags,
    {
        self.flags
    }

    pub fn len(&self) -> (r: usize)
        ensures
            r == self@.data.len(),
    {
        self.buf.len()
    }
}

/// Writes pages of a tablespace image that it owns.
#[derive(Debug)]
pub struct TablespaceWriter {
    buf: Vec<u8>,
    /// page size, by default 16K.
    page_size: usize,
    /// tablespace id
    space_id: u32,
    /// tablespace flags
    flags: u32,
}

impl View for TablespaceWriter {
    type V = TablespaceState;

    closed spec fn view(&self) -> TablespaceState {
        TablespaceState {
            data: self.buf@,
            page: self.page_size as nat,
            order: 0,
            space_id: self.space_id,
            flags: self.flags,
        }
    }
}

impl TablespaceWriter {
    pub fn new(buf: Vec<u8>, page_size: usize, space_id: u32, flags: u32) -> (r: TablespaceWriter)
        ensures
            r@ == (TablespaceState {
                data: buf@,
                page: page_size as nat,
                order: 0,
                space_id,
                flags,
            }),
    {
        TablespaceWriter { buf, page_size, space_id, flags }
    }

    /// Writes `data` over the page `page_no`.
    pub fn page_buf(&mut self, page_no: u32, data: &[u8]) -> (r: Result<(), Error>)
        requires
            data@.len() == old(self)@.page,
        ensures
            page_no * old(self)@.page + old(self)@.page <= old(self)@.data.len() ==> r == Ok::<
                (),
                Error,
            >(()) && final(self)@ == (TablespaceState {
                data: crate::mach::overwrite(
                    old(self)@.data,
                    page_no * old(self)@.page,
                    data@,
                ),
                ..old(self)@
            }),
            page_no * old(self)@.page + old(self)@.page > old(self)@.data.len() ==> r is Err
                && final(self)@ == old(self)@,
    {
        let _n = self.buf.len();
        let pos = match (page_no as usize).checked_mul(self.page_size) {
            Some(p) => p,
            None => {
                return Err(Error::InvalidInput);
            },
        };
        match pos.checked_add(self.page_size) {
            Some(end) => if end > self.buf.len() {
                return Err(Error::ShortRead);
            },
            None => {
                return Err(Error::ShortRead);
            },
        }
        let ghost b0 = self.buf@;
        let n = data.len();
        let mut i: usize = 0;
        while i < n
            invariant
                pos + n <= self.buf@.len(),
                n == data@.len(),
                _n == b0.len(),
                self.buf@.len() == b0.len(),
                self.page_size == old(self).page_size,
                self.space_id == old(self).space_id,
                self.flags == old(self).flags,
                b0 == old(self).buf@,
                0 <= i <= n,
                forall|j: int| 0 <= j < b0.len() && !(pos <= j < pos + i) ==> #[trigger] self.buf@[j]
                    == b0[j],
                forall|j: int| 0 <= j < i ==> #[trigger] self.buf@[pos + j] == data@[j],
            decreases n - i,
        {
            self.buf.set(pos + i, data[i]);
            i = i + 1;
        }
        assert forall|j: int| 0 <= j < b0.len() implies self.buf@[j] == crate::mach::overwrite(
            b0,
            pos as int,
            data@,
        )[j] by {
            if pos <= j < pos + n {
                assert(self.buf@[pos + (j - pos)] == data@[j - pos]);
            }
        }
        assert(self.buf@ =~= crate::mach::overwrite(b0, pos as int, data@));
        Ok(())
    }

    /// The whole image.
    pub fn mmap_mut(&mut self) -> (r: &mut Vec<u8>)
        ensures
            r@ == old(self)@.data,
            final(self)@ == (TablespaceState { data: final(r)@, ..old(self)@ }),
    {
        &mut self.buf
    }

    pub fn page_size(&self) -> (r: usize)
        ensures
            r == self@.page,
    {
        self.page_size
    }

    pub fn space_id(&self) -> (r: u32)
        ensures
            r == self@.space_id,
    {
        self.space_id
    }

    pub fn flags(&self) -> (r: u32)
        ensures
            r == self@.flags,
    {
        self.flags
    }
}

} // verus!
