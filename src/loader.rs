use vstd::prelude::*;
use vstd::string::StringSliceAdditionalSpecFns;

use crate::error::LoaderError;
use crate::hex::{parse_hex_line, parse_line_spec, HexRecord};
use crate::memory::{place, ATmemory, CpuState, FLASH_SIZE};

verus! {

/// Line feed, which ends a line of text.
pub const LF: u8 = 0x0A;

/// Carriage return, dropped when it comes right before a line feed.
pub const CR: u8 = 0x0D;

/// Program memory after one line of hex text, and whether loading stops
/// there (`Some` with the load's result) or goes on (`None`). A line that is
/// not a valid record is skipped; the end-of-file record stops the load; a
/// data record is written, and one that reaches past program memory stops
/// the load with an error once its bytes that fit are written.
pub open spec fn apply_line(flash: Seq<u8>, line: Seq<u8>) -> (Seq<u8>, Option<Result<(), LoaderError>>) {
    match parse_line_spec(line) {
        Err(_) => (flash, None),
        Ok(None) => (flash, Some(Ok(()))),
        Ok(Some(rec)) => {
            let placed = place(flash, rec.0 as int, rec.1);
            if rec.1.len() == 0 || rec.0 + rec.1.len() <= flash.len() {
                (placed, None)
            } else {
                (placed, Some(Err(LoaderError::AddressOutOfRange)))
            }
        },
    }
}

/// The text of a line that a line feed at `end` closes, without a carriage
/// return before it.
pub open spec fn line_text(t: Seq<u8>, start: int, end: int) -> Seq<u8> {
    let l = t.subrange(start, end);
    if l.len() > 0 && l.last() == CR {
        l.drop_last()
    } else {
        l
    }
}

/// Loading the hex text `t` into `flash`, where the current line starts at
/// `start` and the text before `i` holds no line feed after `start`.
pub open spec fn hex_load_from(flash: Seq<u8>, t: Seq<u8>, start: int, i: int) -> (
    Seq<u8>,
    Result<(), LoaderError>,
)
    decreases t.len() - i,
{
    if i >= t.len() {
        if 0 <= start < t.len() {
            let (f, outcome) = apply_line(flash, t.subrange(start, t.len() as int));
            match outcome {
                None => (f, Ok(())),
                Some(r) => (f, r),
            }
        } else {
            (flash, Ok(()))
        }
    } else if t[i] == LF {
        let (f, outcome) = apply_line(flash, line_text(t, start, i));
        match outcome {
            None => hex_load_from(f, t, i + 1, i + 1),
            Some(r) => (f, r),
        }
    } else {
        hex_load_from(flash, t, start, i + 1)
    }
}

/// Program memory after loading the hex text `t` line by line, and the result.
pub open spec fn load_hex_spec(flash: Seq<u8>, t: Seq<u8>) -> (Seq<u8>, Result<(), LoaderError>) {
    hex_load_from(flash, t, 0, 0)
}

/// `mem` with the bytes of `w` written at their addresses; addresses past
/// the end are dropped.
pub open spec fn overlay(mem: Seq<u8>, w: Map<int, u8>) -> Seq<u8> {
    Seq::new(mem.len(), |k: int| if w.contains_key(k) { w[k] } else { mem[k] })
}

/// The writes of a data record: `bytes` from address `at` on.
pub open spec fn record_writes(at: int, bytes: Seq<u8>) -> Map<int, u8> {
    Map::new(|k: int| at <= k < at + bytes.len(), |k: int| bytes[k - at])
}

/// What one line writes into a program memory of `n` bytes, and whether
/// loading stops there; see `apply_line`.
pub open spec fn line_writes(line: Seq<u8>, n: nat) -> (Map<int, u8>, Option<Result<(), LoaderError>>) {
    match parse_line_spec(line) {
        Err(_) => (Map::empty(), None),
        Ok(None) => (Map::empty(), Some(Ok(()))),
        Ok(Some(rec)) => (
            record_writes(rec.0 as int, rec.1),
            if rec.1.len() == 0 || rec.0 + rec.1.len() <= n {
                None
            } else {
                Some(Err(LoaderError::AddressOutOfRange))
            },
        ),
    }
}

/// Everything that loading hex text from `(start, i)` on writes into a
/// program memory of `n` bytes (later records win), and the load's result.
pub open spec fn load_writes(t: Seq<u8>, start: int, i: int, n: nat) -> (
    Map<int, u8>,
    Result<(), LoaderError>,
)
    decreases t.len() - i,
{
    if i >= t.len() {
        if 0 <= start < t.len() {
            let (w, outcome) = line_writes(t.subrange(start, t.len() as int), n);
            match outcome {
                None => (w, Ok(())),
                Some(r) => (w, r),
            }
        } else {
            (Map::empty(), Ok(()))
        }
    } else if t[i] == LF {
        let (w, outcome) = line_writes(line_text(t, start, i), n);
        match outcome {
            None => {
                let rest = load_writes(t, i + 1, i + 1, n);
                (w.union_prefer_right(rest.0), rest.1)
            },
            Some(r) => (w, r),
        }
    } else {
        load_writes(t, start, i + 1, n)
    }
}

proof fn lemma_overlay_twice(mem: Seq<u8>, a: Map<int, u8>, b: Map<int, u8>)
    ensures
        overlay(overlay(mem, a), b) == overlay(mem, a.union_prefer_right(b)),
{
    assert(overlay(overlay(mem, a), b) =~= overlay(mem, a.union_prefer_right(b)));
}

proof fn lemma_apply_line_overlay(flash: Seq<u8>, line: Seq<u8>)
    ensures
        apply_line(flash, line) == (
            overlay(flash, line_writes(line, flash.len()).0),
            line_writes(line, flash.len()).1,
        ),
{
    assert(overlay(flash, Map::empty()) =~= flash);
    match parse_line_spec(line) {
        Ok(Some(rec)) => {
            assert(place(flash, rec.0 as int, rec.1) =~= overlay(flash, record_writes(rec.0 as int, rec.1)));
        },
        _ => {},
    }
}

/// Loading overlays program memory with writes that depend on the text alone.
pub proof fn lemma_load_is_overlay(flash: Seq<u8>, t: Seq<u8>, start: int, i: int)
    ensures
        hex_load_from(flash, t, start, i) == (
            overlay(flash, load_writes(t, start, i, flash.len()).0),
            load_writes(t, start, i, flash.len()).1,
        ),
    decreases t.len() - i,
{
    if i >= t.len() {
        if 0 <= start < t.len() {
            lemma_apply_line_overlay(flash, t.subrange(start, t.len() as int));
        } else {
            assert(overlay(flash, Map::empty()) =~= flash);
        }
    } else if t[i] == LF {
        let line = line_text(t, start, i);
        lemma_apply_line_overlay(flash, line);
        let w = line_writes(line, flash.len()).0;
        if line_writes(line, flash.len()).1 is None {
            let f = overlay(flash, w);
            lemma_load_is_overlay(f, t, i + 1, i + 1);
            lemma_overlay_twice(flash, w, load_writes(t, i + 1, i + 1, flash.len()).0);
        }
    } else {
        lemma_load_is_overlay(flash, t, start, i + 1);
    }
}

fn copy_line(t: &[u8], start: usize, end: usize) -> (r: Vec<u8>)
    requires
        start <= end <= t@.len(),
    ensures
        r@ == t@.subrange(start as int, end as int),
{
    let mut r: Vec<u8> = Vec::new();
    let mut i: usize = start;
    while i < end
        invariant
            start <= i <= end <= t@.len(),
            r@ == t@.subrange(start as int, i as int),
        decreases end - i,
    {
        r.push(t[i]);
        i = i + 1;
        assert(r@ =~= t@.subrange(start as int, i as int));
    }
    r
}

impl ATmemory {
    /// Writes a data record into program memory; `false` when some of its
    /// bytes fall past the end (those that fit are written).
    fn place_record(&mut self, rec: &HexRecord) -> (ok: bool)
        requires
            old(self)@.well_formed(),
        ensures
            final(self)@.well_formed(),
            final(self)@ == (CpuState {
                flash: place(old(self)@.flash, rec.address as int, rec.data@),
                ..old(self)@
            }),
            ok == (rec.data@.len() == 0 || rec.address + rec.data@.len() <= FLASH_SIZE),
    {
        let ghost s0 = self@;
        let ghost a = rec.address as int;
        let ghost d = rec.data@;
        let mut k: usize = 0;
        assert(s0.flash =~= place(s0.flash, a, d.take(0)));
        while k < rec.data.len()
            invariant
                s0 == old(self)@,
                s0.well_formed(),
                d == rec.data@,
                a == rec.address,
                k <= d.len(),
                k > 0 ==> a + k <= FLASH_SIZE,
                self@ == (CpuState { flash: place(s0.flash, a, d.take(k as int)), ..s0 }),
            decreases d.len() - k,
        {
            let addr = rec.address as usize + k;
            if addr >= FLASH_SIZE {
                assert(place(s0.flash, a, d) =~= place(s0.flash, a, d.take(k as int)));
                return false;
            }
            self.set_flash_byte(addr, rec.data[k]);
            k = k + 1;
            assert(self@.flash =~= place(s0.flash, a, d.take(k as int)));
        }
        assert(d.take(k as int) =~= d);
        true
    }

    fn apply_hex_line(&mut self, line: &[u8]) -> (r: Option<Result<(), LoaderError>>)
        requires
            old(self)@.well_formed(),
        ensures
            final(self)@.well_formed(),
            final(self)@ == (CpuState { flash: final(self)@.flash, ..old(self)@ }),
            (final(self)@.flash, r) == apply_line(old(self)@.flash, line@),
    {
        match parse_hex_line(line) {
            Err(_) => None,
            Ok(None) => Some(Ok(())),
            Ok(Some(rec)) => {
                if self.place_record(&rec) {
                    None
                } else {
                    Some(Err(LoaderError::AddressOutOfRange))
                }
            },
        }
    }

    /// Loads hex text line by line (see `apply_line`). Lines end with a line
    /// feed, optionally preceded by a carriage return.
    pub fn load_hex(&mut self, text: &str) -> (r: Result<(), LoaderError>)
        requires
            old(self)@.well_formed(),
        ensures
            final(self)@.well_formed(),
            final(self)@ == (CpuState {
                flash: load_hex_spec(old(self)@.flash, text.spec_bytes()).0,
                ..old(self)@
            }),
            r == load_hex_spec(old(self)@.flash, text.spec_bytes()).1,
    {
        let t = text.as_bytes();
        let ghost s0 = self@;
        let mut start: usize = 0;
        let mut i: usize = 0;
        while i < t.len()
            invariant
                t@ == text.spec_bytes(),
                s0 == old(self)@,
                start <= i <= t@.len(),
                self@.well_formed(),
                self@ == (CpuState { flash: self@.flash, ..s0 }),
                hex_load_from(self@.flash, t@, start as int, i as int) == hex_load_from(
                    s0.flash,
                    t@,
                    0,
                    0,
                ),
            decreases t@.len() - i,
        {
            if t[i] == LF {
                let mut end = i;
                if end > start && t[end - 1] == CR {
                    end = end - 1;
                }
                let line = copy_line(t, start, end);
                assert(line@ =~= line_text(t@, start as int, i as int));
                match self.apply_hex_line(line.as_slice()) {
                    Some(r) => {
                        return r;
                    },
                    None => {},
                }
                start = i + 1;
            }
            i = i + 1;
        }
        if start < t.len() {
            let line = copy_line(t, start, t.len());
            match self.apply_hex_line(line.as_slice()) {
                Some(r) => {
                    return r;
                },
                None => {},
            }
        }
        Ok(())
    }
}

} // verus!
