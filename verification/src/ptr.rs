//! The boundary between user addresses and kernel values.
//!
//! An address is checked against the caller's mappings each time it is used;
//! the types here hold what that check gave, so that the system calls can be
//! stated over values.

use vstd::prelude::*;
use vstd::utf8::{decode_utf8, valid_utf8};
use crate::errno::SysError;

verus! {

/// A user address that is read as a `T`.
pub enum UserConstPtr<T> {
    /// The null address.
    Null,
    /// An address that is not mapped, not readable or misaligned.
    Unmapped,
    /// A readable address, with the value that stands there.
    Mapped(T),
}

/// A user address that a `T` is written to.
pub enum UserPtr<T> {
    /// The null address.
    Null,
    /// An address that is not mapped, not writable or misaligned.
    Unmapped,
    /// A writable address, with the value that stands there.
    Mapped(T),
}

/// A user address that is read as a NUL-terminated string.
pub enum UserStr {
    /// The null address.
    Null,
    /// Some byte up to the terminator is not readable.
    Unmapped,
    /// The bytes are readable but are no valid text.
    Malformed,
    /// Readable, valid text.
    Text(String),
}

/// Whether `size` bytes at `addr` lie within the address space and `addr` is
/// a multiple of `align`.
pub open spec fn well_placed(addr: usize, size: usize, align: usize) -> bool {
    &&& align > 0
    &&& addr % align == 0
    &&& addr + size <= usize::MAX
}

fn is_well_placed(addr: usize, size: usize, align: usize) -> (b: bool)
    ensures
        b == well_placed(addr, size, align),
{
    align != 0 && addr % align == 0 && size <= usize::MAX - addr
}

impl<T> UserConstPtr<T> {
    /// What the address `addr` is for reading a value of `size` bytes aligned
    /// to `align`, where `found` is that value if the mappings let it be
    /// read: null for address 0; unmapped where the range is misaligned,
    /// runs past the end of the address space or cannot be read.
    pub fn from_address(addr: usize, size: usize, align: usize, found: Option<T>) -> (r: Self)
        ensures
            addr == 0 ==> r is Null,
            addr != 0 && well_placed(addr, size, align) && found is Some ==> r
                == UserConstPtr::Mapped(found.unwrap()),
            addr != 0 && !(well_placed(addr, size, align) && found is Some) ==> r is Unmapped,
    {
        if addr == 0 {
            return UserConstPtr::Null;
        }
        if !is_well_placed(addr, size, align) {
            return UserConstPtr::Unmapped;
        }
        match found {
            Some(v) => UserConstPtr::Mapped(v),
            None => UserConstPtr::Unmapped,
        }
    }

    /// Whether this is the null address.
    pub fn is_null(&self) -> (b: bool)
        ensures
            b == (self is Null),
    {
        match self {
            UserConstPtr::Null => true,
            _ => false,
        }
    }

    /// The value behind the address, or invalid-address where it cannot be
    /// read. The null address is never readable.
    pub fn get_as_ref(&self) -> (r: Result<&T, SysError>)
        ensures
            match *self {
                UserConstPtr::Mapped(v) => r == Ok::<&T, SysError>(&v),
                _ => r == Err::<&T, SysError>(SysError::InvalidAddress),
            },
    {
        match self {
            UserConstPtr::Mapped(v) => Ok(v),
            _ => Err(SysError::InvalidAddress),
        }
    }
}

impl<T> UserPtr<T> {
    /// What the address `addr` is for writing a value of `size` bytes aligned
    /// to `align`, where `found` is the value that stands there if the
    /// mappings let it be written: null for address 0; unmapped where the
    /// range is misaligned, runs past the end of the address space or cannot
    /// be written.
    pub fn from_address(addr: usize, size: usize, align: usize, found: Option<T>) -> (r: Self)
        ensures
            addr == 0 ==> r is Null,
            addr != 0 && well_placed(addr, size, align) && found is Some ==> r == UserPtr::Mapped(
                found.unwrap(),
            ),
            addr != 0 && !(well_placed(addr, size, align) && found is Some) ==> r is Unmapped,
    {
        if addr == 0 {
            return UserPtr::Null;
        }
        if !is_well_placed(addr, size, align) {
            return UserPtr::Unmapped;
        }
        match found {
            Some(v) => UserPtr::Mapped(v),
            None => UserPtr::Unmapped,
        }
    }

    /// Whether this is the null address.
    pub fn is_null(&self) -> (b: bool)
        ensures
            b == (self is Null),
    {
        match self {
            UserPtr::Null => true,
            _ => false,
        }
    }

    /// Whether a value can be written through the address.
    pub open spec fn writable(&self) -> bool {
        self is Mapped
    }

    /// Writes `value` through the address. Where the address is not writable
    /// nothing changes and invalid-address is returned.
    pub fn write(&mut self, value: T) -> (r: Result<(), SysError>)
        ensures
            old(self).writable() ==> r == Ok::<(), SysError>(()) && *final(self)
                == UserPtr::Mapped(value),
            !old(self).writable() ==> r == Err::<(), SysError>(SysError::InvalidAddress)
                && *final(self) == *old(self),
    {
        match self {
            UserPtr::Mapped(_) => {
                *self = UserPtr::Mapped(value);
                Ok(())
            },
            _ => Err(SysError::InvalidAddress),
        }
    }
}

/// The index of the first zero byte of `bytes` from `from` on.
pub open spec fn first_nul(bytes: Seq<u8>, from: int) -> Option<int>
    decreases bytes.len() - from,
{
    if from < 0 || from >= bytes.len() {
        None
    } else if bytes[from] == 0 {
        Some(from)
    } else {
        first_nul(bytes, from + 1)
    }
}

/// Calls `String::from_utf8`: the text that the bytes encode, and `None`
/// where they are not valid UTF-8.
#[verifier::external_body]
fn decode_text(bytes: Vec<u8>) -> (r: Option<String>)
    ensures
        valid_utf8(bytes@) ==> r.is_some() && r.unwrap()@ == decode_utf8(bytes@),
        !valid_utf8(bytes@) ==> r.is_none(),
{
    match String::from_utf8(bytes) {
        Ok(text) => Some(text),
        Err(_) => None,
    }
}

impl UserStr {
    /// Reads a NUL-terminated string from `window`: the bytes that are
    /// readable from the string's address on, or `None` for the null address.
    /// The string is unmapped where no terminator stands among the readable
    /// bytes, malformed where the bytes before the terminator are no valid
    /// UTF-8, and else the text that they encode.
    pub fn from_window(window: Option<&[u8]>) -> (r: UserStr)
        ensures
            match window {
                None => r is Null,
                Some(w) => match first_nul(w@, 0) {
                    None => r is Unmapped,
                    Some(n) => if valid_utf8(w@.subrange(0, n)) {
                        r is Text && r->Text_0@ == decode_utf8(w@.subrange(0, n))
                    } else {
                        r is Malformed
                    },
                },
            },
    {
        let w: &[u8] = match window {
            None => {
                return UserStr::Null;
            },
            Some(w) => w,
        };
        let mut bytes: Vec<u8> = Vec::new();
        let mut i: usize = 0;
        while i < w.len()
            invariant
                window == Some(w),
                i <= w@.len(),
                first_nul(w@, 0) == first_nul(w@, i as int),
                bytes@ =~= w@.subrange(0, i as int),
            decreases w@.len() - i,
        {
            let b: u8 = w[i];
            if b == 0 {
                assert(first_nul(w@, i as int) == Some(i as int));
                assert(bytes@ == w@.subrange(0, i as int));
                return match decode_text(bytes) {
                    Some(text) => UserStr::Text(text),
                    None => UserStr::Malformed,
                };
            }
            bytes.push(b);
            i = i + 1;
        }
        UserStr::Unmapped
    }

    /// What reading the string gives: the text, invalid-address for a null or
    /// unreadable address, invalid-encoding for bytes that are no text.
    pub open spec fn text(&self) -> Result<Seq<char>, SysError> {
        match self {
            UserStr::Text(s) => Ok(s@),
            UserStr::Malformed => Err(SysError::InvalidEncoding),
            _ => Err(SysError::InvalidAddress),
        }
    }

    /// As `text`, but the null address stands for a string that was not given.
    pub open spec fn nullable_text(&self) -> Result<Option<Seq<char>>, SysError> {
        match self {
            UserStr::Null => Ok(None),
            UserStr::Text(s) => Ok(Some(s@)),
            UserStr::Malformed => Err(SysError::InvalidEncoding),
            UserStr::Unmapped => Err(SysError::InvalidAddress),
        }
    }

    /// Reads the string.
    pub fn get_as_str(&self) -> (r: Result<&str, SysError>)
        ensures
            match r {
                Ok(s) => self.text() == Ok::<Seq<char>, SysError>(s@),
                Err(e) => self.text() == Err::<Seq<char>, SysError>(e),
            },
    {
        match self {
            UserStr::Text(s) => Ok(s.as_str()),
            UserStr::Malformed => Err(SysError::InvalidEncoding),
            _ => Err(SysError::InvalidAddress),
        }
    }

    /// Reads the string, taking the null address as "not given".
    pub fn nullable(&self) -> (r: Result<Option<&str>, SysError>)
        ensures
            match r {
                Ok(Some(s)) => self.nullable_text() == Ok::<Option<Seq<char>>, SysError>(Some(s@)),
                Ok(None) => self.nullable_text() == Ok::<Option<Seq<char>>, SysError>(None),
                Err(e) => self.nullable_text() == Err::<Option<Seq<char>>, SysError>(e),
            },
    {
        match self {
            UserStr::Null => Ok(None),
            UserStr::Text(s) => Ok(Some(s.as_str())),
            UserStr::Malformed => Err(SysError::InvalidEncoding),
            UserStr::Unmapped => Err(SysError::InvalidAddress),
        }
    }
}

/// How a result reaches the caller: a failure is returned and nothing is
/// written; a value is written through the buffer and 0 is returned, or,
/// where the buffer is not writable, invalid-address is returned and nothing
/// is written.
pub open spec fn delivered<T>(
    outcome: Result<T, SysError>,
    before: UserPtr<T>,
    after: UserPtr<T>,
    r: Result<isize, SysError>,
) -> bool {
    match outcome {
        Err(e) => r == Err::<isize, SysError>(e) && after == before,
        Ok(v) => if before.writable() {
            r == Ok::<isize, SysError>(0) && after == UserPtr::Mapped(v)
        } else {
            r == Err::<isize, SysError>(SysError::InvalidAddress) && after == before
        },
    }
}

pub(crate) fn deliver<T>(outcome: Result<T, SysError>, buf: &mut UserPtr<T>) -> (r: Result<isize, SysError>)
    ensures
        delivered(outcome, *old(buf), *final(buf), r),
{
    match outcome {
        Err(e) => Err(e),
        Ok(v) => match buf.write(v) {
            Ok(()) => Ok(0),
            Err(e) => Err(e),
        },
    }
}

/// A value that cannot be written because the buffer is not writable is
/// answered with invalid-address, and the buffer is left as it was.
pub proof fn unwritable_buffer_is_invalid_address<T>(
    outcome: Result<T, SysError>,
    before: UserPtr<T>,
    after: UserPtr<T>,
    r: Result<isize, SysError>,
)
    requires
        delivered(outcome, before, after, r),
        outcome is Ok,
        !before.writable(),
    ensures
        r == Err::<isize, SysError>(SysError::InvalidAddress),
        after == before,
{
}

} // verus!
