//! File record access bodies (function codes 20 and 21).
//!
//! Every body here is a 1-byte length followed by exactly that many bytes of
//! sub-items. The length is carved out first and the sub-items are then parsed
//! within it, so a sub-item overrunning the region is caught against the
//! stated length rather than against whatever the caller happened to supply.

use vstd::prelude::*;

use crate::error::{Error, Result};
use crate::frame::value::{FileNumber, RecordLength, RecordNumber, RegisterValue};
use crate::frame::wire::{
    as_u32, be16, push_bytes, push_registers, push_u16, read_u16, regs_bytes, regs_from,
    registers_from, sat_u32, sat_usize, u16_at,
};

verus! {

/// The only reference type Modbus defines for file records.
pub const REFERENCE_TYPE: u8 = 6;

/// Highest record number a file may name.
pub const MAX_RECORD_NUMBER: u16 = 9999;

/// A Read File Record sub-request.
#[derive(Debug, Clone, Copy, PartialEq, Eq, Structural)]
pub struct FileRecordRead {
    /// File to read from; 1–65535.
    pub file_number: FileNumber,
    /// First record within the file; 0–9999.
    pub record_number: RecordNumber,
    /// Number of registers to read.
    pub record_length: RecordLength,
}

/// A Read File Record sub-response.
#[derive(Debug, Clone, PartialEq, Eq)]
pub struct FileRecordReadResponse {
    /// Record data read.
    pub values: Vec<RegisterValue>,
}

/// A Write File Record sub-request, echoed unchanged in the response.
#[derive(Debug, Clone, PartialEq, Eq)]
pub struct FileRecordWrite {
    /// File to write to; 1–65535.
    pub file_number: FileNumber,
    /// First record within the file; 0–9999.
    pub record_number: RecordNumber,
    /// Record data to write.
    pub values: Vec<RegisterValue>,
}

/// The mathematical content of a [`FileRecordWrite`].
pub struct FileRecordWriteModel {
    /// File to write to.
    pub file_number: FileNumber,
    /// First record within the file.
    pub record_number: RecordNumber,
    /// Record data.
    pub values: Seq<RegisterValue>,
}

impl View for FileRecordWrite {
    type V = FileRecordWriteModel;

    open spec fn view(&self) -> FileRecordWriteModel {
        FileRecordWriteModel {
            file_number: self.file_number,
            record_number: self.record_number,
            values: self.values@,
        }
    }
}

/// The models of a run of write records.
pub open spec fn writes_view(records: Seq<FileRecordWrite>) -> Seq<FileRecordWriteModel> {
    records.map_values(|r: FileRecordWrite| r@)
}

/// The register runs of a run of read sub-responses.
pub open spec fn read_responses_view(records: Seq<FileRecordReadResponse>) -> Seq<Seq<RegisterValue>> {
    records.map_values(|r: FileRecordReadResponse| r.values@)
}

/// The first range violation of a file number (1–65535) and a record number
/// (0–9999), if any.
pub open spec fn spec_check_numbers(file_number: u16, record_number: u16) -> Option<Error> {
    if file_number < 1 {
        Some(Error::OutOfRange { field: "file number", value: file_number as u32, min: 1, max: 65535 })
    } else if record_number > MAX_RECORD_NUMBER {
        Some(
            Error::OutOfRange {
                field: "record number",
                value: record_number as u32,
                min: 0,
                max: MAX_RECORD_NUMBER as u32,
            },
        )
    } else {
        None
    }
}

/// Check a file number and record number against their fixed ranges.
///
/// Applied on decode as well as encode, so a value the encoder rejects does
/// not decode either.
pub fn check_numbers(file_number: u16, record_number: u16) -> (r: Result<()>)
    ensures
        match spec_check_numbers(file_number, record_number) {
            Some(e) => r == Err::<(), Error>(e),
            None => r is Ok,
        },
{
    if file_number < 1 {
        return Err(Error::OutOfRange { field: "file number", value: file_number as u32, min: 1, max: 65535 });
    }
    if record_number > MAX_RECORD_NUMBER {
        return Err(
            Error::OutOfRange {
                field: "record number",
                value: record_number as u32,
                min: 0,
                max: MAX_RECORD_NUMBER as u32,
            },
        );
    }
    Ok(())
}

/// Reject `value` outside `min..=max`.
pub fn check_bounds(field: &'static str, value: u32, min: u32, max: u32) -> (r: Result<()>)
    ensures
        value < min || value > max ==> r == Err::<(), Error>(
            Error::OutOfRange { field, value, min, max },
        ),
        min <= value <= max ==> r is Ok,
{
    if value < min || value > max {
        return Err(Error::OutOfRange { field, value, min, max });
    }
    Ok(())
}

// ---------------------------------------------------------------------------
// Read File Record request (function code 20).

/// The 7 bytes of one read sub-request.
pub open spec fn read_request_bytes(r: FileRecordRead) -> Seq<u8> {
    seq![REFERENCE_TYPE] + be16(r.file_number.0) + be16(r.record_number.0) + be16(r.record_length.0)
}

/// The bytes of a run of read sub-requests, or the first range violation.
pub open spec fn spec_read_requests_data(records: Seq<FileRecordRead>) -> Result<Seq<u8>>
    decreases records.len(),
{
    if records.len() == 0 {
        Ok(seq![])
    } else {
        match spec_check_numbers(records[0].file_number.0, records[0].record_number.0) {
            Some(e) => Err(e),
            None => match spec_read_requests_data(records.drop_first()) {
                Err(e) => Err(e),
                Ok(rest) => Ok(read_request_bytes(records[0]) + rest),
            },
        }
    }
}

/// The body of a Read File Record request: byte count (7–245) then the
/// sub-requests.
pub open spec fn spec_encode_read_requests(records: Seq<FileRecordRead>) -> Result<Seq<u8>> {
    match spec_read_requests_data(records) {
        Err(e) => Err(e),
        Ok(data) => if data.len() < 7 || data.len() > 245 {
            Err(
                Error::OutOfRange {
                    field: "request byte count",
                    value: sat_u32(data.len() as int),
                    min: 7,
                    max: 245,
                },
            )
        } else {
            Ok(seq![data.len() as u8] + data)
        },
    }
}

/// What parsing read sub-requests from `pos` to the end of region `r` yields.
pub open spec fn spec_parse_read_requests(r: Seq<u8>, pos: int) -> Result<Seq<FileRecordRead>>
    decreases r.len() - pos,
{
    if pos < 0 || pos >= r.len() {
        Ok(seq![])
    } else if r[pos] != REFERENCE_TYPE {
        Err(Error::ReferenceType(r[pos]))
    } else if pos + 3 > r.len() {
        Err(Error::Truncated { expected: sat_usize(pos + 3), supplied: r.len() as usize })
    } else if pos + 5 > r.len() {
        Err(Error::Truncated { expected: sat_usize(pos + 5), supplied: r.len() as usize })
    } else if pos + 7 > r.len() {
        Err(Error::Truncated { expected: sat_usize(pos + 7), supplied: r.len() as usize })
    } else {
        let f = u16_at(r, pos + 1);
        let n = u16_at(r, pos + 3);
        let l = u16_at(r, pos + 5);
        match spec_check_numbers(f, n) {
            Some(e) => Err(e),
            None => match spec_parse_read_requests(r, pos + 7) {
                Err(e) => Err(e),
                Ok(rest) => Ok(
                    seq![
                        FileRecordRead {
                            file_number: FileNumber(f),
                            record_number: RecordNumber(n),
                            record_length: RecordLength(l),
                        },
                    ] + rest,
                ),
            },
        }
    }
}

/// What decoding a Read File Record request body yields: the byte count at
/// position 1 of the PDU, then its region. Trailing bytes after the region are
/// the caller's to reject.
pub open spec fn spec_decode_read_requests(p: Seq<u8>) -> Result<Seq<FileRecordRead>> {
    let n = p.len();
    if n < 2 {
        Err(Error::Truncated { expected: 2, supplied: n as usize })
    } else if p[1] < 7 || p[1] > 245 {
        Err(Error::OutOfRange { field: "request byte count", value: p[1] as u32, min: 7, max: 245 })
    } else if p[1] % 7 != 0 {
        Err(Error::IllegalValue { field: "request byte count", value: p[1] as u16 })
    } else if n < 2 + p[1] {
        Err(Error::Truncated { expected: (2 + p[1]) as usize, supplied: n as usize })
    } else {
        spec_parse_read_requests(p.subrange(2, 2 + p[1] as int), 0)
    }
}

// ---------------------------------------------------------------------------
// Read File Record response (function code 20).

/// The bytes of one read sub-response: its length (the reference type and the
/// data), the reference type, and the data; or the length's range violation.
pub open spec fn spec_read_response_bytes(values: Seq<RegisterValue>) -> Result<Seq<u8>> {
    let data = regs_bytes(values);
    if data.len() + 1 > 255 {
        Err(
            Error::OutOfRange {
                field: "file response length",
                value: sat_u32((data.len() + 1) as int),
                min: 1,
                max: 245,
            },
        )
    } else {
        Ok(seq![(data.len() + 1) as u8, REFERENCE_TYPE] + data)
    }
}

/// The bytes of a run of read sub-responses, or the first violation.
pub open spec fn spec_read_responses_data(records: Seq<Seq<RegisterValue>>) -> Result<Seq<u8>>
    decreases records.len(),
{
    if records.len() == 0 {
        Ok(seq![])
    } else {
        match spec_read_response_bytes(records[0]) {
            Err(e) => Err(e),
            Ok(first) => match spec_read_responses_data(records.drop_first()) {
                Err(e) => Err(e),
                Ok(rest) => Ok(first + rest),
            },
        }
    }
}

/// The body of a Read File Record response: data length (7–245) then the
/// sub-responses.
pub open spec fn spec_encode_read_responses(records: Seq<Seq<RegisterValue>>) -> Result<Seq<u8>> {
    match spec_read_responses_data(records) {
        Err(e) => Err(e),
        Ok(data) => if data.len() < 7 || data.len() > 245 {
            Err(
                Error::OutOfRange {
                    field: "response data length",
                    value: sat_u32(data.len() as int),
                    min: 7,
                    max: 245,
                },
            )
        } else {
            Ok(seq![data.len() as u8] + data)
        },
    }
}

/// What parsing read sub-responses from `pos` to the end of region `r`
/// yields.
pub open spec fn spec_parse_read_responses(r: Seq<u8>, pos: int) -> Result<Seq<Seq<RegisterValue>>>
    decreases r.len() - pos,
{
    if pos < 0 || pos >= r.len() {
        Ok(seq![])
    } else if r[pos] == 0 || r[pos] % 2 == 0 {
        Err(Error::IllegalValue { field: "file response length", value: r[pos] as u16 })
    } else if pos + 2 > r.len() {
        Err(Error::Truncated { expected: sat_usize(pos + 2), supplied: r.len() as usize })
    } else if r[pos + 1] != REFERENCE_TYPE {
        Err(Error::ReferenceType(r[pos + 1]))
    } else if pos + 1 + r[pos] > r.len() {
        Err(Error::Truncated { expected: sat_usize(pos + 1 + r[pos]), supplied: r.len() as usize })
    } else {
        match spec_parse_read_responses(r, pos + 1 + r[pos]) {
            Err(e) => Err(e),
            Ok(rest) => Ok(seq![regs_from(r.subrange(pos + 2, pos + 1 + r[pos]))] + rest),
        }
    }
}

/// What decoding a Read File Record response body yields.
pub open spec fn spec_decode_read_responses(p: Seq<u8>) -> Result<Seq<Seq<RegisterValue>>> {
    let n = p.len();
    if n < 2 {
        Err(Error::Truncated { expected: 2, supplied: n as usize })
    } else if p[1] < 7 || p[1] > 245 {
        Err(Error::OutOfRange { field: "response data length", value: p[1] as u32, min: 7, max: 245 })
    } else if n < 2 + p[1] {
        Err(Error::Truncated { expected: (2 + p[1]) as usize, supplied: n as usize })
    } else {
        spec_parse_read_responses(p.subrange(2, 2 + p[1] as int), 0)
    }
}

// ---------------------------------------------------------------------------
// Write File Record request and response (function code 21).

/// The bytes of one write record, or its violation.
pub open spec fn spec_write_record_bytes(r: FileRecordWriteModel) -> Result<Seq<u8>> {
    match spec_check_numbers(r.file_number.0, r.record_number.0) {
        Some(e) => Err(e),
        None => if r.values.len() > 65535 {
            Err(
                Error::OutOfRange {
                    field: "record length",
                    value: sat_u32(r.values.len() as int),
                    min: 0,
                    max: 251,
                },
            )
        } else {
            Ok(
                seq![REFERENCE_TYPE] + be16(r.file_number.0) + be16(r.record_number.0) + be16(
                    r.values.len() as u16,
                ) + regs_bytes(r.values),
            )
        },
    }
}

/// The bytes of a run of write records, or the first violation.
pub open spec fn spec_write_records_data(records: Seq<FileRecordWriteModel>) -> Result<Seq<u8>>
    decreases records.len(),
{
    if records.len() == 0 {
        Ok(seq![])
    } else {
        match spec_write_record_bytes(records[0]) {
            Err(e) => Err(e),
            Ok(first) => match spec_write_records_data(records.drop_first()) {
                Err(e) => Err(e),
                Ok(rest) => Ok(first + rest),
            },
        }
    }
}

/// The body of a Write File Record request or response: data length
/// (9–251) then the records.
pub open spec fn spec_encode_write_records(records: Seq<FileRecordWriteModel>) -> Result<Seq<u8>> {
    match spec_write_records_data(records) {
        Err(e) => Err(e),
        Ok(data) => if data.len() < 9 || data.len() > 251 {
            Err(
                Error::OutOfRange {
                    field: "request data length",
                    value: sat_u32(data.len() as int),
                    min: 9,
                    max: 251,
                },
            )
        } else {
            Ok(seq![data.len() as u8] + data)
        },
    }
}

/// What parsing write records from `pos` to the end of region `r` yields.
pub open spec fn spec_parse_write_records(r: Seq<u8>, pos: int) -> Result<Seq<FileRecordWriteModel>>
    decreases r.len() - pos,
{
    if pos < 0 || pos >= r.len() {
        Ok(seq![])
    } else if r[pos] != REFERENCE_TYPE {
        Err(Error::ReferenceType(r[pos]))
    } else if pos + 3 > r.len() {
        Err(Error::Truncated { expected: sat_usize(pos + 3), supplied: r.len() as usize })
    } else if pos + 5 > r.len() {
        Err(Error::Truncated { expected: sat_usize(pos + 5), supplied: r.len() as usize })
    } else if pos + 7 > r.len() {
        Err(Error::Truncated { expected: sat_usize(pos + 7), supplied: r.len() as usize })
    } else {
        let f = u16_at(r, pos + 1);
        let n = u16_at(r, pos + 3);
        let l = u16_at(r, pos + 5) as int;
        match spec_check_numbers(f, n) {
            Some(e) => Err(e),
            None => if pos + 7 + 2 * l > r.len() {
                Err(Error::Truncated { expected: sat_usize(pos + 7 + 2 * l), supplied: r.len() as usize })
            } else {
                match spec_parse_write_records(r, pos + 7 + 2 * l) {
                    Err(e) => Err(e),
                    Ok(rest) => Ok(
                        seq![
                            FileRecordWriteModel {
                                file_number: FileNumber(f),
                                record_number: RecordNumber(n),
                                values: regs_from(r.subrange(pos + 7, pos + 7 + 2 * l)),
                            },
                        ] + rest,
                    ),
                }
            },
        }
    }
}

/// What decoding a Write File Record body yields.
pub open spec fn spec_decode_write_records(p: Seq<u8>) -> Result<Seq<FileRecordWriteModel>> {
    let n = p.len();
    if n < 2 {
        Err(Error::Truncated { expected: 2, supplied: n as usize })
    } else if p[1] < 9 || p[1] > 251 {
        Err(Error::OutOfRange { field: "request data length", value: p[1] as u32, min: 9, max: 251 })
    } else if n < 2 + p[1] {
        Err(Error::Truncated { expected: (2 + p[1]) as usize, supplied: n as usize })
    } else {
        spec_parse_write_records(p.subrange(2, 2 + p[1] as int), 0)
    }
}

// ---------------------------------------------------------------------------
// Executable encoders.

/// Append the body of a Read File Record request, byte count included.
pub fn encode_read_requests(records: &[FileRecordRead], out: &mut Vec<u8>) -> (r: Result<()>)
    ensures
        final(out)@.len() >= old(out)@.len(),
        final(out)@.subrange(0, old(out)@.len() as int) == old(out)@,
        match r {
            Ok(()) => spec_encode_read_requests(records@) matches Ok(b) && final(out)@ == old(out)@ + b,
            Err(e) => spec_encode_read_requests(records@) == Err::<Seq<u8>, Error>(e),
        },
{
    let mut data: Vec<u8> = Vec::new();
    let mut k: usize = 0;
    proof {
        assert(records@.skip(0) =~= records@);
    }
    while k < records.len()
        invariant
            k <= records@.len(),
            match spec_read_requests_data(records@) {
                Ok(all) => spec_read_requests_data(records@.skip(k as int)) matches Ok(rest) && all
                    == data@ + rest,
                Err(e) => spec_read_requests_data(records@.skip(k as int)) == Err::<Seq<u8>, Error>(e),
            },
        decreases records@.len() - k,
    {
        let record = records[k];
        proof {
            assert(records@.skip(k as int).drop_first() =~= records@.skip(k + 1));
            assert(records@.skip(k as int)[0] == record);
        }
        match check_numbers(record.file_number.0, record.record_number.0) {
            Ok(()) => {},
            Err(e) => return Err(e),
        }
        let ghost before = data@;
        data.push(REFERENCE_TYPE);
        push_u16(&mut data, record.file_number.0);
        push_u16(&mut data, record.record_number.0);
        push_u16(&mut data, record.record_length.0);
        proof {
            assert(data@ =~= before + read_request_bytes(record));
        }
        k = k + 1;
    }
    proof {
        assert(records@.skip(k as int) =~= Seq::<FileRecordRead>::empty());
        assert(data@ + Seq::<u8>::empty() =~= data@);
    }
    match check_bounds("request byte count", as_u32(data.len()), 7, 245) {
        Ok(()) => {},
        Err(e) => return Err(e),
    }
    out.push(data.len() as u8);
    push_bytes(out, data.as_slice());
    proof {
        assert(final(out)@ =~= old(out)@ + (seq![data@.len() as u8] + data@));
    }
    Ok(())
}

/// Append the body of a Read File Record response, data length included.
pub fn encode_read_responses(records: &[FileRecordReadResponse], out: &mut Vec<u8>) -> (r: Result<()>)
    ensures
        final(out)@.len() >= old(out)@.len(),
        final(out)@.subrange(0, old(out)@.len() as int) == old(out)@,
        match r {
            Ok(()) => spec_encode_read_responses(read_responses_view(records@)) matches Ok(b) && final(out)@
                == old(out)@ + b,
            Err(e) => spec_encode_read_responses(read_responses_view(records@)) == Err::<Seq<u8>, Error>(e),
        },
{
    let ghost models = read_responses_view(records@);
    let mut data: Vec<u8> = Vec::new();
    let mut k: usize = 0;
    proof {
        assert(models.skip(0) =~= models);
    }
    while k < records.len()
        invariant
            k <= records@.len(),
            models == read_responses_view(records@),
            match spec_read_responses_data(models) {
                Ok(all) => spec_read_responses_data(models.skip(k as int)) matches Ok(rest) && all
                    == data@ + rest,
                Err(e) => spec_read_responses_data(models.skip(k as int)) == Err::<Seq<u8>, Error>(e),
            },
        decreases records@.len() - k,
    {
        let values = records[k].values.as_slice();
        proof {
            assert(models.skip(k as int).drop_first() =~= models.skip(k + 1));
            assert(models.skip(k as int)[0] == values@);
        }
        if values.len() > 127 {
            let e = Error::OutOfRange {
                field: "file response length",
                value: double_plus_one(values.len()),
                min: 1,
                max: 245,
            };
            proof {
                assert(regs_bytes(values@).len() == 2 * values@.len());
                assert(sat_u32((regs_bytes(values@).len() + 1) as int) == as_u32_spec_double_plus_one(values@.len() as int));
            }
            return Err(e);
        }
        let ghost before = data@;
        let length = (2 * values.len() + 1) as u8;
        data.push(length);
        data.push(REFERENCE_TYPE);
        push_registers(&mut data, values);
        proof {
            assert(data@ =~= before + (seq![length, REFERENCE_TYPE] + regs_bytes(values@)));
        }
        k = k + 1;
    }
    proof {
        assert(models.skip(k as int) =~= Seq::<Seq<RegisterValue>>::empty());
        assert(data@ + Seq::<u8>::empty() =~= data@);
    }
    match check_bounds("response data length", as_u32(data.len()), 7, 245) {
        Ok(()) => {},
        Err(e) => return Err(e),
    }
    out.push(data.len() as u8);
    push_bytes(out, data.as_slice());
    proof {
        assert(final(out)@ =~= old(out)@ + (seq![data@.len() as u8] + data@));
    }
    Ok(())
}

/// `2n + 1` widened to 32 bits, saturating.
fn double_plus_one(n: usize) -> (r: u32)
    ensures
        r == as_u32_spec_double_plus_one(n as int),
{
    if n >= 0x7FFF_FFFF {
        0xFFFF_FFFF
    } else {
        (2 * n + 1) as u32
    }
}

/// `2n + 1` widened to 32 bits, saturating.
pub open spec fn as_u32_spec_double_plus_one(n: int) -> u32 {
    sat_u32(2 * n + 1)
}

/// Append the body of a Write File Record request or response, data length
/// included.
pub fn encode_write_records(records: &[FileRecordWrite], out: &mut Vec<u8>) -> (r: Result<()>)
    ensures
        final(out)@.len() >= old(out)@.len(),
        final(out)@.subrange(0, old(out)@.len() as int) == old(out)@,
        match r {
            Ok(()) => spec_encode_write_records(writes_view(records@)) matches Ok(b) && final(out)@
                == old(out)@ + b,
            Err(e) => spec_encode_write_records(writes_view(records@)) == Err::<Seq<u8>, Error>(e),
        },
{
    let ghost models = writes_view(records@);
    let mut data: Vec<u8> = Vec::new();
    let mut k: usize = 0;
    proof {
        assert(models.skip(0) =~= models);
    }
    while k < records.len()
        invariant
            k <= records@.len(),
            models == writes_view(records@),
            match spec_write_records_data(models) {
                Ok(all) => spec_write_records_data(models.skip(k as int)) matches Ok(rest) && all
                    == data@ + rest,
                Err(e) => spec_write_records_data(models.skip(k as int)) == Err::<Seq<u8>, Error>(e),
            },
        decreases records@.len() - k,
    {
        let record = &records[k];
        proof {
            assert(models.skip(k as int).drop_first() =~= models.skip(k + 1));
            assert(models.skip(k as int)[0] == record@);
        }
        match check_numbers(record.file_number.0, record.record_number.0) {
            Ok(()) => {},
            Err(e) => return Err(e),
        }
        if record.values.len() > 65535 {
            return Err(
                Error::OutOfRange {
                    field: "record length",
                    value: as_u32(record.values.len()),
                    min: 0,
                    max: 251,
                },
            );
        }
        let ghost before = data@;
        data.push(REFERENCE_TYPE);
        push_u16(&mut data, record.file_number.0);
        push_u16(&mut data, record.record_number.0);
        push_u16(&mut data, record.values.len() as u16);
        push_registers(&mut data, record.values.as_slice());
        proof {
            assert(data@ =~= before + (seq![REFERENCE_TYPE] + be16(record.file_number.0) + be16(
                record.record_number.0,
            ) + be16(record.values@.len() as u16) + regs_bytes(record.values@)));
        }
        k = k + 1;
    }
    proof {
        assert(models.skip(k as int) =~= Seq::<FileRecordWriteModel>::empty());
        assert(data@ + Seq::<u8>::empty() =~= data@);
    }
    match check_bounds("request data length", as_u32(data.len()), 9, 251) {
        Ok(()) => {},
        Err(e) => return Err(e),
    }
    out.push(data.len() as u8);
    push_bytes(out, data.as_slice());
    proof {
        assert(final(out)@ =~= old(out)@ + (seq![data@.len() as u8] + data@));
    }
    Ok(())
}

// ---------------------------------------------------------------------------
// Executable decoders.

/// Parse read sub-requests from the whole of region `r`.
fn parse_read_requests(r: &[u8]) -> (res: Result<Vec<FileRecordRead>>)
    ensures
        match res {
            Ok(v) => spec_parse_read_requests(r@, 0) == Ok::<Seq<FileRecordRead>, Error>(v@),
            Err(e) => spec_parse_read_requests(r@, 0) == Err::<Seq<FileRecordRead>, Error>(e),
        },
{
    let n = r.len();
    let mut items: Vec<FileRecordRead> = Vec::new();
    let mut pos: usize = 0;
    while pos < n
        invariant
            n == r@.len(),
            pos <= n,
            match spec_parse_read_requests(r@, 0) {
                Ok(all) => spec_parse_read_requests(r@, pos as int) matches Ok(rest) && all == items@ + rest,
                Err(e) => spec_parse_read_requests(r@, pos as int) == Err::<Seq<FileRecordRead>, Error>(e),
            },
        decreases n - pos,
    {
        if r[pos] != REFERENCE_TYPE {
            return Err(Error::ReferenceType(r[pos]));
        }
        if n - pos < 3 {
            return Err(Error::Truncated { expected: pos.saturating_add(3), supplied: n });
        }
        if n - pos < 5 {
            return Err(Error::Truncated { expected: pos.saturating_add(5), supplied: n });
        }
        if n - pos < 7 {
            return Err(Error::Truncated { expected: pos.saturating_add(7), supplied: n });
        }
        let f = read_u16(r, pos + 1);
        let num = read_u16(r, pos + 3);
        let l = read_u16(r, pos + 5);
        match check_numbers(f, num) {
            Ok(()) => {},
            Err(e) => return Err(e),
        }
        let item = FileRecordRead {
            file_number: FileNumber(f),
            record_number: RecordNumber(num),
            record_length: RecordLength(l),
        };
        let ghost old_items = items@;
        items.push(item);
        proof {
            assert(items@ =~= old_items + seq![item]);
            assert(old_items + (seq![item] + spec_parse_read_requests(r@, pos + 7)->Ok_0) =~= items@
                + spec_parse_read_requests(r@, pos + 7)->Ok_0);
        }
        pos = pos + 7;
    }
    proof {
        assert(items@ + Seq::<FileRecordRead>::empty() =~= items@);
    }
    Ok(items)
}

/// Decode a Read File Record request body (the bytes from position 1 of the
/// PDU), returning the sub-requests and the PDU length the body ends at.
pub fn decode_read_requests(p: &[u8]) -> (res: Result<(Vec<FileRecordRead>, usize)>)
    ensures
        match res {
            Ok((v, end)) => spec_decode_read_requests(p@) == Ok::<Seq<FileRecordRead>, Error>(v@)
                && end == 2 + p@[1] && end <= p@.len(),
            Err(e) => spec_decode_read_requests(p@) == Err::<Seq<FileRecordRead>, Error>(e),
        },
{
    let n = p.len();
    if n < 2 {
        return Err(Error::Truncated { expected: 2, supplied: n });
    }
    let count = p[1];
    if count < 7 || count > 245 {
        return Err(Error::OutOfRange { field: "request byte count", value: count as u32, min: 7, max: 245 });
    }
    if count % 7 != 0 {
        return Err(Error::IllegalValue { field: "request byte count", value: count as u16 });
    }
    let end = 2 + count as usize;
    if n < end {
        return Err(Error::Truncated { expected: end, supplied: n });
    }
    match parse_read_requests(&p[2..end]) {
        Ok(v) => Ok((v, end)),
        Err(e) => Err(e),
    }
}

/// Parse read sub-responses from the whole of region `r`.
fn parse_read_responses(r: &[u8]) -> (res: Result<Vec<FileRecordReadResponse>>)
    ensures
        match res {
            Ok(v) => spec_parse_read_responses(r@, 0) == Ok::<Seq<Seq<RegisterValue>>, Error>(read_responses_view(v@)),
            Err(e) => spec_parse_read_responses(r@, 0) == Err::<Seq<Seq<RegisterValue>>, Error>(e),
        },
{
    let n = r.len();
    let mut items: Vec<FileRecordReadResponse> = Vec::new();
    let mut pos: usize = 0;
    while pos < n
        invariant
            n == r@.len(),
            pos <= n,
            match spec_parse_read_responses(r@, 0) {
                Ok(all) => spec_parse_read_responses(r@, pos as int) matches Ok(rest) && all
                    == read_responses_view(items@) + rest,
                Err(e) => spec_parse_read_responses(r@, pos as int) == Err::<Seq<Seq<RegisterValue>>, Error>(e),
            },
        decreases n - pos,
    {
        let length = r[pos];
        if length == 0 || length % 2 == 0 {
            return Err(Error::IllegalValue { field: "file response length", value: length as u16 });
        }
        if n - pos < 2 {
            return Err(Error::Truncated { expected: pos.saturating_add(2), supplied: n });
        }
        if r[pos + 1] != REFERENCE_TYPE {
            return Err(Error::ReferenceType(r[pos + 1]));
        }
        if n - pos - 1 < length as usize {
            return Err(Error::Truncated { expected: (pos + 1).saturating_add(length as usize), supplied: n });
        }
        let next = pos + 1 + length as usize;
        let values = registers_from(&r[pos + 2..next]);
        let ghost old_items = items@;
        items.push(FileRecordReadResponse { values });
        proof {
            assert(read_responses_view(items@) =~= read_responses_view(old_items) + seq![
                regs_from(r@.subrange(pos + 2, next as int)),
            ]);
        }
        pos = next;
    }
    proof {
        assert(read_responses_view(items@) + Seq::<Seq<RegisterValue>>::empty() =~= read_responses_view(items@));
    }
    Ok(items)
}

/// Decode a Read File Record response body, returning the sub-responses and
/// the PDU length the body ends at.
pub fn decode_read_responses(p: &[u8]) -> (res: Result<(Vec<FileRecordReadResponse>, usize)>)
    ensures
        match res {
            Ok((v, end)) => spec_decode_read_responses(p@) == Ok::<Seq<Seq<RegisterValue>>, Error>(
                read_responses_view(v@),
            ) && end == 2 + p@[1] && end <= p@.len(),
            Err(e) => spec_decode_read_responses(p@) == Err::<Seq<Seq<RegisterValue>>, Error>(e),
        },
{
    let n = p.len();
    if n < 2 {
        return Err(Error::Truncated { expected: 2, supplied: n });
    }
    let length = p[1];
    if length < 7 || length > 245 {
        return Err(Error::OutOfRange { field: "response data length", value: length as u32, min: 7, max: 245 });
    }
    let end = 2 + length as usize;
    if n < end {
        return Err(Error::Truncated { expected: end, supplied: n });
    }
    match parse_read_responses(&p[2..end]) {
        Ok(v) => Ok((v, end)),
        Err(e) => Err(e),
    }
}

/// Parse write records from the whole of region `r`.
fn parse_write_records(r: &[u8]) -> (res: Result<Vec<FileRecordWrite>>)
    ensures
        match res {
            Ok(v) => spec_parse_write_records(r@, 0) == Ok::<Seq<FileRecordWriteModel>, Error>(writes_view(v@)),
            Err(e) => spec_parse_write_records(r@, 0) == Err::<Seq<FileRecordWriteModel>, Error>(e),
        },
{
    let n = r.len();
    let mut items: Vec<FileRecordWrite> = Vec::new();
    let mut pos: usize = 0;
    while pos < n
        invariant
            n == r@.len(),
            pos <= n,
            match spec_parse_write_records(r@, 0) {
                Ok(all) => spec_parse_write_records(r@, pos as int) matches Ok(rest) && all
                    == writes_view(items@) + rest,
                Err(e) => spec_parse_write_records(r@, pos as int) == Err::<Seq<FileRecordWriteModel>, Error>(e),
            },
        decreases n - pos,
    {
        if r[pos] != REFERENCE_TYPE {
            return Err(Error::ReferenceType(r[pos]));
        }
        if n - pos < 3 {
            return Err(Error::Truncated { expected: pos.saturating_add(3), supplied: n });
        }
        if n - pos < 5 {
            return Err(Error::Truncated { expected: pos.saturating_add(5), supplied: n });
        }
        if n - pos < 7 {
            return Err(Error::Truncated { expected: pos.saturating_add(7), supplied: n });
        }
        let f = read_u16(r, pos + 1);
        let num = read_u16(r, pos + 3);
        let l = read_u16(r, pos + 5) as usize;
        match check_numbers(f, num) {
            Ok(()) => {},
            Err(e) => return Err(e),
        }
        if n - pos - 7 < 2 * l {
            return Err(Error::Truncated { expected: (pos + 7).saturating_add(2 * l), supplied: n });
        }
        let next = pos + 7 + 2 * l;
        let values = registers_from(&r[pos + 7..next]);
        let ghost old_items = items@;
        items.push(FileRecordWrite { file_number: FileNumber(f), record_number: RecordNumber(num), values });
        proof {
            assert(writes_view(items@) =~= writes_view(old_items) + seq![
                FileRecordWriteModel {
                    file_number: FileNumber(f),
                    record_number: RecordNumber(num),
                    values: regs_from(r@.subrange(pos + 7, next as int)),
                },
            ]);
        }
        pos = next;
    }
    proof {
        assert(writes_view(items@) + Seq::<FileRecordWriteModel>::empty() =~= writes_view(items@));
    }
    Ok(items)
}

/// Decode a Write File Record body, returning the records and the PDU length
/// the body ends at.
pub fn decode_write_records(p: &[u8]) -> (res: Result<(Vec<FileRecordWrite>, usize)>)
    ensures
        match res {
            Ok((v, end)) => spec_decode_write_records(p@) == Ok::<Seq<FileRecordWriteModel>, Error>(
                writes_view(v@),
            ) && end == 2 + p@[1] && end <= p@.len(),
            Err(e) => spec_decode_write_records(p@) == Err::<Seq<FileRecordWriteModel>, Error>(e),
        },
{
    let n = p.len();
    if n < 2 {
        return Err(Error::Truncated { expected: 2, supplied: n });
    }
    let length = p[1];
    if length < 9 || length > 251 {
        return Err(Error::OutOfRange { field: "request data length", value: length as u32, min: 9, max: 251 });
    }
    let end = 2 + length as usize;
    if n < end {
        return Err(Error::Truncated { expected: end, supplied: n });
    }
    match parse_write_records(&p[2..end]) {
        Ok(v) => Ok((v, end)),
        Err(e) => Err(e),
    }
}

} // verus!
