//! The domain entities this client delivers: block identifiers, block
//! dates, blocks and headers, each with its byte-level or textual format
//! and a verified parser for it.
use vstd::prelude::*;
use vstd::string::StrSliceExecFns;

use crate::error::{Error, ErrorKind};

verus! {

/// The largest number of bytes a block identifier may occupy.
pub const MAX_ID_BYTES: usize = 32;

/// A block identifier: an opaque byte sequence of bounded, positive length.
#[derive(Clone, Debug, PartialEq, Eq)]
pub struct BlockId {
    pub bytes: Vec<u8>,
}

impl View for BlockId {
    type V = Seq<u8>;

    open spec fn view(&self) -> Seq<u8> {
        self.bytes@
    }
}

/// Whether a byte sequence is a well-formed block identifier.
pub open spec fn id_bytes_wf(b: Seq<u8>) -> bool {
    1 <= b.len() <= MAX_ID_BYTES
}

/// What parsing identifier bytes yields: the bytes themselves when they
/// are well-formed, a `Format` failure otherwise.
pub open spec fn spec_parse_id(b: Seq<u8>) -> Result<Seq<u8>, ErrorKind> {
    if id_bytes_wf(b) {
        Ok(b)
    } else {
        Err(ErrorKind::Format)
    }
}

/// Copies `src[from..to]` into a fresh vector.
fn copy_bytes(src: &Vec<u8>, from: usize, to: usize) -> (v: Vec<u8>)
    requires
        from <= to <= src@.len(),
    ensures
        v@ == src@.subrange(from as int, to as int),
{
    let mut v: Vec<u8> = Vec::new();
    let mut i: usize = from;
    while i < to
        invariant
            from <= i <= to <= src@.len(),
            v@ == src@.subrange(from as int, i as int),
        decreases to - i,
    {
        v.push(src[i]);
        i = i + 1;
        proof {
            assert(v@ =~= src@.subrange(from as int, i as int));
        }
    }
    v
}

impl BlockId {
    /// Whether this identifier is well-formed.
    pub open spec fn wf(&self) -> bool {
        id_bytes_wf(self@)
    }

    /// The byte sequence this identifier serializes to: its own bytes,
    /// unchanged.
    pub open spec fn serialized(&self) -> Seq<u8> {
        self@
    }

    /// Builds an identifier from its bytes.
    pub fn new(bytes: Vec<u8>) -> (id: BlockId)
        requires
            id_bytes_wf(bytes@),
        ensures
            id@ == bytes@,
            id.wf(),
    {
        BlockId { bytes }
    }

    /// Serializes the identifier to bytes; the bytes are never mutated.
    pub fn serialize(&self) -> (v: Vec<u8>)
        ensures
            v@ == self.serialized(),
    {
        copy_bytes(&self.bytes, 0, self.bytes.len())
    }

    /// Parses an identifier from bytes, exactly as `spec_parse_id` says:
    /// well-formed bytes yield the identifier with those bytes, anything
    /// else a `Format` error.
    pub fn deserialize(buf: &Vec<u8>) -> (r: Result<BlockId, Error>)
        ensures
            (match spec_parse_id(buf@) {
                Ok(v) => r matches Ok(id) && id@ == v && id.wf(),
                Err(k) => r matches Err(e) && e.kind == k,
            }),
    {
        if buf.len() == 0 || buf.len() > MAX_ID_BYTES {
            Err(Error::new(ErrorKind::Format, "malformed block identifier bytes".to_owned()))
        } else {
            Ok(BlockId { bytes: copy_bytes(buf, 0, buf.len()) })
        }
    }
}

/// Law: identifier bytes survive a round trip. For a well-formed
/// identifier, serialization yields exactly the identifier's own bytes,
/// those bytes are well-formed, and parsing them back yields the same
/// byte sequence unchanged.
pub proof fn lemma_id_round_trip(id: BlockId)
    requires
        id.wf(),
    ensures
        id.serialized() == id@,
        spec_parse_id(id.serialized()) == Ok::<Seq<u8>, ErrorKind>(id@),
{
}

/// A block date: a calendar day, held as plain year, month and day.
#[derive(Clone, Copy, Debug, PartialEq, Eq, Structural)]
pub struct BlockDate {
    pub year: u32,
    pub month: u32,
    pub day: u32,
}

impl View for BlockDate {
    type V = BlockDate;

    open spec fn view(&self) -> BlockDate {
        *self
    }
}

/// Whether a year is a leap year under the Gregorian rule.
pub open spec fn spec_is_leap_year(y: int) -> bool {
    y % 4 == 0 && (y % 100 != 0 || y % 400 == 0)
}

/// How many days the given month of the given year has.
pub open spec fn spec_days_in_month(y: int, m: int) -> int {
    if m == 2 {
        if spec_is_leap_year(y) {
            29
        } else {
            28
        }
    } else if m == 4 || m == 6 || m == 9 || m == 11 {
        30
    } else {
        31
    }
}

impl BlockDate {
    /// Whether the fields form a real calendar day with a four-digit year.
    pub open spec fn wf(&self) -> bool {
        &&& self.year <= 9999
        &&& 1 <= self.month <= 12
        &&& 1 <= self.day <= spec_days_in_month(self.year as int, self.month as int)
    }
}

/// Whether a year is a leap year under the Gregorian rule.
pub fn is_leap_year(y: u32) -> (b: bool)
    ensures
        b == spec_is_leap_year(y as int),
{
    y % 4 == 0 && (y % 100 != 0 || y % 400 == 0)
}

/// How many days the given month of the given year has.
pub fn days_in_month(y: u32, m: u32) -> (d: u32)
    requires
        1 <= m <= 12,
    ensures
        d == spec_days_in_month(y as int, m as int),
{
    if m == 2 {
        if is_leap_year(y) {
            29
        } else {
            28
        }
    } else if m == 4 || m == 6 || m == 9 || m == 11 {
        30
    } else {
        31
    }
}

/// Whether a character is a decimal digit.
pub open spec fn spec_is_digit(c: char) -> bool {
    48 <= c as u32 <= 57
}

/// The numeric value of a decimal digit character.
pub open spec fn digit_val(c: char) -> int {
    c as u32 - 48
}

/// Whether the characters have the shape of a date: ten characters,
/// digits in the year, month and day positions, dashes between them.
pub open spec fn date_digits_ok(s: Seq<char>) -> bool {
    &&& s.len() == 10
    &&& spec_is_digit(s[0])
    &&& spec_is_digit(s[1])
    &&& spec_is_digit(s[2])
    &&& spec_is_digit(s[3])
    &&& s[4] == '-'
    &&& spec_is_digit(s[5])
    &&& spec_is_digit(s[6])
    &&& s[7] == '-'
    &&& spec_is_digit(s[8])
    &&& spec_is_digit(s[9])
}

/// The year the date characters denote.
pub open spec fn chars_year(s: Seq<char>) -> int {
    digit_val(s[0]) * 1000 + digit_val(s[1]) * 100 + digit_val(s[2]) * 10 + digit_val(s[3])
}

/// The month the date characters denote.
pub open spec fn chars_month(s: Seq<char>) -> int {
    digit_val(s[5]) * 10 + digit_val(s[6])
}

/// The day the date characters denote.
pub open spec fn chars_day(s: Seq<char>) -> int {
    digit_val(s[8]) * 10 + digit_val(s[9])
}

/// Whether the characters denote a well-formed date: the right shape, and
/// a month and day that exist in the calendar.
pub open spec fn date_chars_wf(s: Seq<char>) -> bool {
    &&& date_digits_ok(s)
    &&& 1 <= chars_month(s) <= 12
    &&& 1 <= chars_day(s) <= spec_days_in_month(chars_year(s), chars_month(s))
}

/// What parsing a date string yields: the denoted date when the string is
/// a well-formed date, a `Format` failure otherwise.
pub open spec fn spec_parse_date(s: Seq<char>) -> Result<BlockDate, ErrorKind> {
    if date_chars_wf(s) {
        Ok(BlockDate {
            year: chars_year(s) as u32,
            month: chars_month(s) as u32,
            day: chars_day(s) as u32,
        })
    } else {
        Err(ErrorKind::Format)
    }
}

/// Reads the decimal digit at position `i`, or rejects the string.
fn read_digit(s: &str, i: usize) -> (r: Result<u32, Error>)
    requires
        i < s@.len(),
    ensures
        (match r {
            Ok(v) => spec_is_digit(s@[i as int]) && v == digit_val(s@[i as int]),
            Err(e) => !spec_is_digit(s@[i as int]) && e.kind == ErrorKind::Format,
        }),
{
    let c = s.get_char(i);
    let v = c as u32;
    if v < 48 || v > 57 {
        Err(Error::new(ErrorKind::Format, "malformed block date string".to_owned()))
    } else {
        Ok(v - 48)
    }
}

/// Parses a textual block date, exactly as `spec_parse_date` says: a
/// malformed date string yields a `Format` error, never a panic and never
/// a substituted default date.
pub fn parse_date(s: &str) -> (r: Result<BlockDate, Error>)
    ensures
        (match spec_parse_date(s@) {
            Ok(d) => r matches Ok(pd) && pd == d && pd.wf(),
            Err(k) => r matches Err(e) && e.kind == k,
        }),
{
    if s.unicode_len() != 10 {
        return Err(Error::new(ErrorKind::Format, "malformed block date string".to_owned()));
    }
    if s.get_char(4) != '-' || s.get_char(7) != '-' {
        return Err(Error::new(ErrorKind::Format, "malformed block date string".to_owned()));
    }
    let d0 = read_digit(s, 0)?;
    let d1 = read_digit(s, 1)?;
    let d2 = read_digit(s, 2)?;
    let d3 = read_digit(s, 3)?;
    let d5 = read_digit(s, 5)?;
    let d6 = read_digit(s, 6)?;
    let d8 = read_digit(s, 8)?;
    let d9 = read_digit(s, 9)?;
    let year = d0 * 1000 + d1 * 100 + d2 * 10 + d3;
    let month = d5 * 10 + d6;
    let day = d8 * 10 + d9;
    if month < 1 || month > 12 {
        return Err(Error::new(ErrorKind::Format, "block date month out of range".to_owned()));
    }
    if day < 1 || day > days_in_month(year, month) {
        return Err(Error::new(ErrorKind::Format, "block date day out of range".to_owned()));
    }
    Ok(BlockDate { year, month, day })
}

/// The mathematical content of a block: its identifier bytes and its body
/// bytes.
#[verifier::ext_equal]
pub ghost struct BlockView {
    pub id: Seq<u8>,
    pub body: Seq<u8>,
}

/// A block: its identifier, and its body bytes.
#[derive(Clone, Debug, PartialEq, Eq)]
pub struct Block {
    pub id: BlockId,
    pub body: Vec<u8>,
}

impl View for Block {
    type V = BlockView;

    open spec fn view(&self) -> BlockView {
        BlockView { id: self.id@, body: self.body@ }
    }
}

/// Whether a byte sequence is a well-formed block payload: a leading
/// identifier length in range, the identifier bytes, then the body.
pub open spec fn block_bytes_wf(b: Seq<u8>) -> bool {
    &&& b.len() >= 1
    &&& 1 <= b[0] <= MAX_ID_BYTES
    &&& b.len() >= 1 + b[0]
}

/// What parsing block content bytes yields: the identifier and body when
/// the bytes are well-formed, a `Format` failure otherwise.
pub open spec fn spec_parse_block(b: Seq<u8>) -> Result<BlockView, ErrorKind> {
    if block_bytes_wf(b) {
        Ok(BlockView {
            id: b.subrange(1, 1 + b[0]),
            body: b.subrange(1 + b[0], b.len() as int),
        })
    } else {
        Err(ErrorKind::Format)
    }
}

impl Block {
    /// Whether this block is well-formed.
    pub open spec fn wf(&self) -> bool {
        self.id.wf()
    }

    /// Parses a block from its content bytes, exactly as
    /// `spec_parse_block` says.
    pub fn deserialize(buf: &Vec<u8>) -> (r: Result<Block, Error>)
        ensures
            (match spec_parse_block(buf@) {
                Ok(v) => r matches Ok(bl) && bl@ == v && bl.wf(),
                Err(k) => r matches Err(e) && e.kind == k,
            }),
    {
        if buf.len() == 0 {
            return Err(Error::new(ErrorKind::Format, "empty block content".to_owned()));
        }
        let n = buf[0] as usize;
        if n == 0 || n > MAX_ID_BYTES || buf.len() < 1 + n {
            return Err(Error::new(ErrorKind::Format, "malformed block content".to_owned()));
        }
        let id = BlockId { bytes: copy_bytes(buf, 1, 1 + n) };
        let body = copy_bytes(buf, 1 + n, buf.len());
        let bl = Block { id, body };
        proof {
            let v = spec_parse_block(buf@).unwrap();
            assert(bl@.id =~= v.id);
            assert(bl@.body =~= v.body);
            assert(bl@ =~= v);
        }
        Ok(bl)
    }
}

/// A header: the identifier of the block it heads.
#[derive(Clone, Debug, PartialEq, Eq)]
pub struct Header {
    pub id: BlockId,
}

impl View for Header {
    type V = Seq<u8>;

    open spec fn view(&self) -> Seq<u8> {
        self.id@
    }
}

/// Whether a byte sequence is a well-formed header payload: a leading
/// identifier length in range, then exactly the identifier bytes.
pub open spec fn header_bytes_wf(b: Seq<u8>) -> bool {
    &&& b.len() >= 1
    &&& 1 <= b[0] <= MAX_ID_BYTES
    &&& b.len() == 1 + b[0]
}

/// What parsing header content bytes yields: the identifier bytes when
/// the bytes are well-formed, a `Format` failure otherwise.
pub open spec fn spec_parse_header(b: Seq<u8>) -> Result<Seq<u8>, ErrorKind> {
    if header_bytes_wf(b) {
        Ok(b.subrange(1, b.len() as int))
    } else {
        Err(ErrorKind::Format)
    }
}

impl Header {
    /// Whether this header is well-formed.
    pub open spec fn wf(&self) -> bool {
        self.id.wf()
    }

    /// Parses a header from its content bytes, exactly as
    /// `spec_parse_header` says.
    pub fn deserialize(buf: &Vec<u8>) -> (r: Result<Header, Error>)
        ensures
            (match spec_parse_header(buf@) {
                Ok(v) => r matches Ok(h) && h@ == v && h.wf(),
                Err(k) => r matches Err(e) && e.kind == k,
            }),
    {
        if buf.len() == 0 {
            return Err(Error::new(ErrorKind::Format, "empty header content".to_owned()));
        }
        let n = buf[0] as usize;
        if n == 0 || n > MAX_ID_BYTES || buf.len() != 1 + n {
            return Err(Error::new(ErrorKind::Format, "malformed header content".to_owned()));
        }
        let h = Header { id: BlockId { bytes: copy_bytes(buf, 1, 1 + n) } };
        proof {
            assert(h@ =~= spec_parse_header(buf@).unwrap());
        }
        Ok(h)
    }
}

} // verus!
