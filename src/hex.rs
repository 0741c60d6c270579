use vstd::prelude::*;

use crate::error::LoaderError;

verus! {

/// The character that opens a record line.
pub const RECORD_MARK: u8 = 0x3A;

/// Record type of a data record.
pub const RECORD_DATA: u8 = 0x00;

/// Record type of the end-of-file record.
pub const RECORD_EOF: u8 = 0x01;

/// The value of a hexadecimal digit (either case), if `c` is one.
pub open spec fn hex_value(c: u8) -> Option<u8> {
    if 0x30 <= c <= 0x39 {
        Some((c - 0x30) as u8)
    } else if 0x41 <= c <= 0x46 {
        Some((c - 0x37) as u8)
    } else if 0x61 <= c <= 0x66 {
        Some((c - 0x57) as u8)
    } else {
        None
    }
}

/// An even number of hexadecimal digits.
pub open spec fn is_hex_text(s: Seq<u8>) -> bool {
    &&& s.len() % 2 == 0
    &&& forall|i: int| 0 <= i < s.len() ==> (#[trigger] hex_value(s[i])) is Some
}

/// The byte written by the digits at `2 * i` and `2 * i + 1`, high digit first.
pub open spec fn hex_pair(s: Seq<u8>, i: int) -> u8 {
    (hex_value(s[2 * i])->Some_0 * 16 + hex_value(s[2 * i + 1])->Some_0) as u8
}

/// The bytes that a string of hexadecimal digits spells, two digits each.
pub open spec fn hex_bytes(s: Seq<u8>) -> Seq<u8> {
    Seq::new(s.len() / 2, |i: int| hex_pair(s, i))
}

/// `s` without its leading record marks.
pub open spec fn strip_marker(s: Seq<u8>) -> Seq<u8>
    decreases s.len(),
{
    if s.len() > 0 && s[0] == RECORD_MARK {
        strip_marker(s.drop_first())
    } else {
        s
    }
}

/// What one line of the hex format holds: a data record (its load address
/// and data bytes), the end-of-file record, or an error. The byte count must
/// make the record `5 + count` bytes long; the checksum is not checked.
pub open spec fn parse_line_spec(line: Seq<u8>) -> Result<Option<(u16, Seq<u8>)>, LoaderError> {
    let body = strip_marker(line);
    if !is_hex_text(body) {
        Err(LoaderError::MalformedRecord)
    } else {
        let b = hex_bytes(body);
        if b.len() < 5 || b.len() != 5 + b[0] {
            Err(LoaderError::MalformedRecord)
        } else if b[3] == RECORD_DATA {
            Ok(Some(((b[1] * 256 + b[2]) as u16, b.subrange(4, b.len() - 1))))
        } else if b[3] == RECORD_EOF {
            Ok(None)
        } else {
            Err(LoaderError::UnsupportedRecordType)
        }
    }
}

/// A data record: where its bytes go in program memory, and the bytes.
pub struct HexRecord {
    pub address: u16,
    pub data: Vec<u8>,
    pub byte_count: u8,
}

/// `r` is the parse result `m`, record for record.
pub open spec fn parsed_as(
    r: Result<Option<HexRecord>, LoaderError>,
    m: Result<Option<(u16, Seq<u8>)>, LoaderError>,
) -> bool {
    match (r, m) {
        (Ok(Some(rec)), Ok(Some(expected))) => {
            &&& rec.address == expected.0
            &&& rec.data@ == expected.1
            &&& rec.byte_count == expected.1.len()
        },
        (Ok(None), Ok(None)) => true,
        (Err(e), Err(f)) => e == f,
        _ => false,
    }
}

/// The value of a hexadecimal digit.
pub fn hex_digit(c: u8) -> (r: Option<u8>)
    ensures
        r == hex_value(c),
{
    if 0x30 <= c && c <= 0x39 {
        Some(c - 0x30)
    } else if 0x41 <= c && c <= 0x46 {
        Some(c - 0x37)
    } else if 0x61 <= c && c <= 0x66 {
        Some(c - 0x57)
    } else {
        None
    }
}

/// The byte spelled by two hexadecimal digits, high digit first.
pub fn hex_byte(hi: u8, lo: u8) -> (r: Result<u8, LoaderError>)
    ensures
        match (hex_value(hi), hex_value(lo)) {
            (Some(a), Some(b)) => r == Ok::<u8, LoaderError>((a * 16 + b) as u8),
            _ => r == Err::<u8, LoaderError>(LoaderError::MalformedRecord),
        },
{
    match (hex_digit(hi), hex_digit(lo)) {
        (Some(a), Some(b)) => Ok(a * 16 + b),
        _ => Err(LoaderError::MalformedRecord),
    }
}

fn marker_len(line: &[u8]) -> (k: usize)
    ensures
        k <= line@.len(),
        strip_marker(line@) == line@.skip(k as int),
{
    let mut k: usize = 0;
    assert(line@.skip(0) =~= line@);
    while k < line.len() && line[k] == RECORD_MARK
        invariant
            k <= line@.len(),
            strip_marker(line@) == strip_marker(line@.skip(k as int)),
        decreases line@.len() - k,
    {
        assert(line@.skip(k as int).drop_first() =~= line@.skip(k + 1));
        k = k + 1;
    }
    k
}

/// Parses one line of the hex format: `Ok(Some(record))` for a data record,
/// `Ok(None)` for the end-of-file record.
pub fn parse_hex_line(line: &[u8]) -> (r: Result<Option<HexRecord>, LoaderError>)
    ensures
        parsed_as(r, parse_line_spec(line@)),
{
    let k = marker_len(line);
    let ghost body = line@.skip(k as int);
    let n = line.len() - k;
    if n % 2 != 0 {
        return Err(LoaderError::MalformedRecord);
    }
    let mut bytes: Vec<u8> = Vec::new();
    let mut j: usize = 0;
    while j < n / 2
        invariant
            body == line@.skip(k as int),
            strip_marker(line@) == body,
            k + n == line@.len(),
            line@.len() <= usize::MAX,
            n % 2 == 0,
            j <= n / 2,
            bytes@ == hex_bytes(body).take(j as int),
            forall|q: int| 0 <= q < 2 * j ==> (#[trigger] hex_value(body[q])) is Some,
        decreases n / 2 - j,
    {
        assert(2 * j + 2 <= n) by (nonlinear_arith)
            requires
                j < n / 2,
                n % 2 == 0,
        ;
        let p: usize = k + (j + j);
        assert(p + 1 < line@.len());
        assert(body[2 * j as int] == line@[p as int]);
        assert(body[2 * j + 1] == line@[p + 1]);
        let b = hex_byte(line[p], line[p + 1]);
        match b {
            Ok(v) => {
                bytes.push(v);
            },
            Err(e) => {
                assert(hex_value(body[2 * j as int]) is None || hex_value(body[2 * j + 1]) is None);
                assert(!is_hex_text(body));
                return Err(e);
            },
        }
        j = j + 1;
        assert(bytes@ =~= hex_bytes(body).take(j as int));
    }
    assert(is_hex_text(body));
    assert(bytes@ =~= hex_bytes(body));
    let len = bytes.len();
    if len < 5 {
        return Err(LoaderError::MalformedRecord);
    }
    let byte_count = bytes[0];
    if len != 5 + byte_count as usize {
        return Err(LoaderError::MalformedRecord);
    }
    let address: u16 = bytes[1] as u16 * 256 + bytes[2] as u16;
    let record_type = bytes[3];
    if record_type == RECORD_DATA {
        let mut data: Vec<u8> = Vec::new();
        let mut q: usize = 4;
        while q < len - 1
            invariant
                bytes@.len() == len,
                4 <= q <= len - 1,
                data@ == bytes@.subrange(4, q as int),
            decreases len - 1 - q,
        {
            data.push(bytes[q]);
            q = q + 1;
            assert(data@ =~= bytes@.subrange(4, q as int));
        }
        Ok(Some(HexRecord { address, data, byte_count }))
    } else if record_type == RECORD_EOF {
        Ok(None)
    } else {
        Err(LoaderError::UnsupportedRecordType)
    }
}

} // verus!
