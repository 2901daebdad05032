//! Encapsulated Interface Transport bodies.
//!
//! Function code 43 is a container: a 1-byte MEI type selects a body the crate
//! either knows (Read Device Identification) or carries whole (CANopen, and
//! anything unnamed).

use vstd::prelude::*;
use vstd::slice::slice_to_vec;

use crate::error::{Error, Result};
use crate::frame::wire::{as_u32, push_bytes, sat_u32, sat_usize};

verus! {

/// MEI type 13 — CANopen General Reference.
pub const MEI_CANOPEN: u8 = 13;

/// MEI type 14 — Read Device Identification.
pub const MEI_READ_DEVICE_ID: u8 = 14;

/// Which conformity class of device identification to read.
#[derive(Debug, Clone, Copy, PartialEq, Eq, Structural)]
pub enum ReadDeviceIdCode {
    /// 1 — the basic identification objects, streamed.
    Basic,
    /// 2 — the regular identification objects, streamed.
    Regular,
    /// 3 — the extended identification objects, streamed.
    Extended,
    /// 4 — one specific identification object.
    Individual,
}

impl ReadDeviceIdCode {
    /// What decoding a read device id code byte yields.
    pub open spec fn spec_decode(raw: u8) -> Result<ReadDeviceIdCode> {
        if raw == 1 {
            Ok(ReadDeviceIdCode::Basic)
        } else if raw == 2 {
            Ok(ReadDeviceIdCode::Regular)
        } else if raw == 3 {
            Ok(ReadDeviceIdCode::Extended)
        } else if raw == 4 {
            Ok(ReadDeviceIdCode::Individual)
        } else {
            Err(Error::OutOfRange { field: "read device id code", value: raw as u32, min: 1, max: 4 })
        }
    }

    /// The code's wire byte.
    pub open spec fn spec_encode(self) -> u8 {
        match self {
            ReadDeviceIdCode::Basic => 1,
            ReadDeviceIdCode::Regular => 2,
            ReadDeviceIdCode::Extended => 3,
            ReadDeviceIdCode::Individual => 4,
        }
    }

    /// Decode a read device id code.
    pub fn decode(raw: u8) -> (r: Result<Self>)
        ensures
            r == Self::spec_decode(raw),
    {
        match raw {
            1 => Ok(ReadDeviceIdCode::Basic),
            2 => Ok(ReadDeviceIdCode::Regular),
            3 => Ok(ReadDeviceIdCode::Extended),
            4 => Ok(ReadDeviceIdCode::Individual),
            other => Err(
                Error::OutOfRange {
                    field: "read device id code",
                    value: other as u32,
                    min: 1,
                    max: 4,
                },
            ),
        }
    }

    /// The code's wire byte.
    pub fn encode(self) -> (r: u8)
        ensures
            r == self.spec_encode(),
    {
        match self {
            ReadDeviceIdCode::Basic => 1,
            ReadDeviceIdCode::Regular => 2,
            ReadDeviceIdCode::Extended => 3,
            ReadDeviceIdCode::Individual => 4,
        }
    }
}

/// One device identification object.
#[derive(Debug, Clone, PartialEq, Eq)]
pub struct DeviceIdObject {
    /// Object identifier.
    pub id: u8,
    /// Object value; its length is carried on the wire, not fixed.
    pub value: Vec<u8>,
}

/// The mathematical content of a [`DeviceIdObject`].
pub struct DeviceIdObjectModel {
    /// Object identifier.
    pub id: u8,
    /// Object value.
    pub value: Seq<u8>,
}

impl View for DeviceIdObject {
    type V = DeviceIdObjectModel;

    open spec fn view(&self) -> DeviceIdObjectModel {
        DeviceIdObjectModel { id: self.id, value: self.value@ }
    }
}

/// The models of a run of objects.
pub open spec fn objects_view(objects: Seq<DeviceIdObject>) -> Seq<DeviceIdObjectModel> {
    objects.map_values(|o: DeviceIdObject| o@)
}

/// The body of an Encapsulated Interface Transport request.
#[derive(Debug, Clone, PartialEq, Eq)]
pub enum MeiRequest {
    /// MEI 13 — CANopen General Reference, carried whole.
    CanOpen {
        /// Every remaining PDU byte.
        data: Vec<u8>,
    },
    /// MEI 14 — Read Device Identification.
    ReadDeviceIdentification {
        /// Which conformity class to read.
        read_device_id_code: ReadDeviceIdCode,
        /// First object to return.
        object_id: u8,
    },
    /// Any MEI type the crate does not name, carried whole.
    Other {
        /// The raw MEI type byte.
        mei_type: u8,
        /// Every remaining PDU byte.
        data: Vec<u8>,
    },
}

/// The mathematical content of a [`MeiRequest`].
pub enum MeiRequestModel {
    /// MEI 13, carried whole.
    CanOpen { data: Seq<u8> },
    /// MEI 14.
    ReadDeviceIdentification { read_device_id_code: ReadDeviceIdCode, object_id: u8 },
    /// Any other MEI type, carried whole.
    Other { mei_type: u8, data: Seq<u8> },
}

impl View for MeiRequest {
    type V = MeiRequestModel;

    open spec fn view(&self) -> MeiRequestModel {
        match self {
            MeiRequest::CanOpen { data } => MeiRequestModel::CanOpen { data: data@ },
            MeiRequest::ReadDeviceIdentification { read_device_id_code, object_id } =>
                MeiRequestModel::ReadDeviceIdentification {
                read_device_id_code: *read_device_id_code,
                object_id: *object_id,
            },
            MeiRequest::Other { mei_type, data } => MeiRequestModel::Other {
                mei_type: *mei_type,
                data: data@,
            },
        }
    }
}

/// The body of an Encapsulated Interface Transport response.
#[derive(Debug, Clone, PartialEq, Eq)]
pub enum MeiResponse {
    /// MEI 13 — CANopen General Reference, carried whole.
    CanOpen {
        /// Every remaining PDU byte.
        data: Vec<u8>,
    },
    /// MEI 14 — Read Device Identification.
    ReadDeviceIdentification {
        /// The conformity class read.
        read_device_id_code: ReadDeviceIdCode,
        /// Conformity level the device reports.
        conformity_level: u8,
        /// Whether a further request is needed to read the rest.
        more_follows: bool,
        /// Object id to ask for next when `more_follows` is set.
        next_object_id: u8,
        /// The objects returned.
        objects: Vec<DeviceIdObject>,
    },
    /// Any MEI type the crate does not name, carried whole.
    Other {
        /// The raw MEI type byte.
        mei_type: u8,
        /// Every remaining PDU byte.
        data: Vec<u8>,
    },
}

/// The mathematical content of a [`MeiResponse`].
pub enum MeiResponseModel {
    /// MEI 13, carried whole.
    CanOpen { data: Seq<u8> },
    /// MEI 14.
    ReadDeviceIdentification {
        read_device_id_code: ReadDeviceIdCode,
        conformity_level: u8,
        more_follows: bool,
        next_object_id: u8,
        objects: Seq<DeviceIdObjectModel>,
    },
    /// Any other MEI type, carried whole.
    Other { mei_type: u8, data: Seq<u8> },
}

impl View for MeiResponse {
    type V = MeiResponseModel;

    open spec fn view(&self) -> MeiResponseModel {
        match self {
            MeiResponse::CanOpen { data } => MeiResponseModel::CanOpen { data: data@ },
            MeiResponse::ReadDeviceIdentification {
                read_device_id_code,
                conformity_level,
                more_follows,
                next_object_id,
                objects,
            } => MeiResponseModel::ReadDeviceIdentification {
                read_device_id_code: *read_device_id_code,
                conformity_level: *conformity_level,
                more_follows: *more_follows,
                next_object_id: *next_object_id,
                objects: objects_view(objects@),
            },
            MeiResponse::Other { mei_type, data } => MeiResponseModel::Other {
                mei_type: *mei_type,
                data: data@,
            },
        }
    }
}

/// Wire value of the more-follows indicator meaning "no more".
pub const MORE_FOLLOWS_NO: u8 = 0x00;

/// Wire value of the more-follows indicator meaning "partial".
pub const MORE_FOLLOWS_YES: u8 = 0xFF;

/// The bytes of an MEI request body, MEI type first.
pub open spec fn spec_encode_mei_request(m: MeiRequestModel) -> Seq<u8> {
    match m {
        MeiRequestModel::CanOpen { data } => seq![MEI_CANOPEN] + data,
        MeiRequestModel::ReadDeviceIdentification { read_device_id_code, object_id } => seq![
            MEI_READ_DEVICE_ID,
            read_device_id_code.spec_encode(),
            object_id,
        ],
        MeiRequestModel::Other { mei_type, data } => seq![mei_type] + data,
    }
}

/// What decoding the MEI body of a PDU yields. The body starts after the
/// function code, and positions in errors count from the PDU's first byte.
pub open spec fn spec_decode_mei_request(p: Seq<u8>) -> Result<MeiRequestModel> {
    let n = p.len();
    if n < 2 {
        Err(Error::Truncated { expected: 2, supplied: n as usize })
    } else if p[1] == MEI_CANOPEN {
        Ok(MeiRequestModel::CanOpen { data: p.skip(2) })
    } else if p[1] == MEI_READ_DEVICE_ID {
        if n < 3 {
            Err(Error::Truncated { expected: 3, supplied: n as usize })
        } else {
            match ReadDeviceIdCode::spec_decode(p[2]) {
                Err(e) => Err(e),
                Ok(code) => if n < 4 {
                    Err(Error::Truncated { expected: 4, supplied: n as usize })
                } else if n > 4 {
                    Err(Error::TrailingBytes { extra: (n - 4) as usize })
                } else {
                    Ok(
                        MeiRequestModel::ReadDeviceIdentification {
                            read_device_id_code: code,
                            object_id: p[3],
                        },
                    )
                },
            }
        }
    } else {
        Ok(MeiRequestModel::Other { mei_type: p[1], data: p.skip(2) })
    }
}

/// The bytes of a run of identification objects: each id, its length and its
/// value. An object whose value does not fit a length byte cannot be encoded.
pub open spec fn spec_encode_objects(objects: Seq<DeviceIdObjectModel>) -> Result<Seq<u8>>
    decreases objects.len(),
{
    if objects.len() == 0 {
        Ok(seq![])
    } else {
        let first = objects[0];
        if first.value.len() > 255 {
            Err(
                Error::OutOfRange {
                    field: "object length",
                    value: sat_u32(first.value.len() as int),
                    min: 0,
                    max: 255,
                },
            )
        } else {
            match spec_encode_objects(objects.drop_first()) {
                Err(e) => Err(e),
                Ok(rest) => Ok(seq![first.id, first.value.len() as u8] + first.value + rest),
            }
        }
    }
}

/// The bytes of an MEI response body, MEI type first.
pub open spec fn spec_encode_mei_response(m: MeiResponseModel) -> Result<Seq<u8>> {
    match m {
        MeiResponseModel::CanOpen { data } => Ok(seq![MEI_CANOPEN] + data),
        MeiResponseModel::ReadDeviceIdentification {
            read_device_id_code,
            conformity_level,
            more_follows,
            next_object_id,
            objects,
        } => if objects.len() > 255 {
            Err(
                Error::OutOfRange {
                    field: "object count",
                    value: sat_u32(objects.len() as int),
                    min: 0,
                    max: 255,
                },
            )
        } else {
            match spec_encode_objects(objects) {
                Err(e) => Err(e),
                Ok(body) => Ok(
                    seq![
                        MEI_READ_DEVICE_ID,
                        read_device_id_code.spec_encode(),
                        conformity_level,
                        if more_follows { MORE_FOLLOWS_YES } else { MORE_FOLLOWS_NO },
                        next_object_id,
                        objects.len() as u8,
                    ] + body,
                ),
            }
        },
        MeiResponseModel::Other { mei_type, data } => Ok(seq![mei_type] + data),
    }
}

/// What parsing identification objects from `pos` to the end of `r` yields.
/// Errors count positions within `r`, and report `r`'s length as supplied.
pub open spec fn spec_parse_objects(r: Seq<u8>, pos: int) -> Result<Seq<DeviceIdObjectModel>>
    decreases r.len() - pos,
{
    if pos < 0 || pos >= r.len() {
        Ok(seq![])
    } else if pos + 2 > r.len() {
        Err(Error::Truncated { expected: sat_usize(pos + 2), supplied: r.len() as usize })
    } else {
        let len = r[pos + 1] as int;
        if pos + 2 + len > r.len() {
            Err(Error::Truncated { expected: sat_usize(pos + 2 + len), supplied: r.len() as usize })
        } else {
            match spec_parse_objects(r, pos + 2 + len) {
                Err(e) => Err(e),
                Ok(rest) => Ok(
                    seq![DeviceIdObjectModel { id: r[pos], value: r.subrange(pos + 2, pos + 2 + len) }]
                        + rest,
                ),
            }
        }
    }
}

/// What decoding the MEI body of a response PDU yields. Positions count from
/// the PDU's first byte.
pub open spec fn spec_decode_mei_response(p: Seq<u8>) -> Result<MeiResponseModel> {
    let n = p.len();
    if n < 2 {
        Err(Error::Truncated { expected: 2, supplied: n as usize })
    } else if p[1] == MEI_CANOPEN {
        Ok(MeiResponseModel::CanOpen { data: p.skip(2) })
    } else if p[1] == MEI_READ_DEVICE_ID {
        if n < 3 {
            Err(Error::Truncated { expected: 3, supplied: n as usize })
        } else {
            match ReadDeviceIdCode::spec_decode(p[2]) {
                Err(e) => Err(e),
                Ok(code) => if n < 4 {
                    Err(Error::Truncated { expected: 4, supplied: n as usize })
                } else if n < 5 {
                    Err(Error::Truncated { expected: 5, supplied: n as usize })
                } else if p[4] != MORE_FOLLOWS_NO && p[4] != MORE_FOLLOWS_YES {
                    Err(Error::IllegalValue { field: "more follows", value: p[4] as u16 })
                } else if n < 6 {
                    Err(Error::Truncated { expected: 6, supplied: n as usize })
                } else if n < 7 {
                    Err(Error::Truncated { expected: 7, supplied: n as usize })
                } else {
                    match spec_parse_objects(p.skip(7), 0) {
                        Err(e) => Err(e),
                        Ok(objects) => if objects.len() != p[6] as int {
                            Err(
                                Error::ByteCountMismatch {
                                    expected: p[6] as usize,
                                    actual: objects.len() as usize,
                                },
                            )
                        } else {
                            Ok(
                                MeiResponseModel::ReadDeviceIdentification {
                                    read_device_id_code: code,
                                    conformity_level: p[3],
                                    more_follows: p[4] == MORE_FOLLOWS_YES,
                                    next_object_id: p[5],
                                    objects,
                                },
                            )
                        },
                    }
                },
            }
        }
    } else {
        Ok(MeiResponseModel::Other { mei_type: p[1], data: p.skip(2) })
    }
}

/// Decode the MEI body of a request PDU. `p` is the whole PDU, function
/// code 43 first; the body starts at its second byte.
pub fn decode_request(p: &[u8]) -> (r: Result<MeiRequest>)
    ensures
        match r {
            Ok(m) => spec_decode_mei_request(p@) == Ok::<MeiRequestModel, Error>(m@),
            Err(e) => spec_decode_mei_request(p@) == Err::<MeiRequestModel, Error>(e),
        },
{
    let n = p.len();
    if n < 2 {
        return Err(Error::Truncated { expected: 2, supplied: n });
    }
    let mei_type = p[1];
    if mei_type == MEI_CANOPEN {
        let data = slice_to_vec(&p[2..n]);
        proof {
            assert(data@ =~= p@.skip(2));
        }
        return Ok(MeiRequest::CanOpen { data });
    }
    if mei_type == MEI_READ_DEVICE_ID {
        if n < 3 {
            return Err(Error::Truncated { expected: 3, supplied: n });
        }
        let code = match ReadDeviceIdCode::decode(p[2]) {
            Ok(code) => code,
            Err(e) => return Err(e),
        };
        if n < 4 {
            return Err(Error::Truncated { expected: 4, supplied: n });
        }
        if n > 4 {
            return Err(Error::TrailingBytes { extra: n - 4 });
        }
        return Ok(MeiRequest::ReadDeviceIdentification { read_device_id_code: code, object_id: p[3] });
    }
    let data = slice_to_vec(&p[2..n]);
    proof {
        assert(data@ =~= p@.skip(2));
    }
    Ok(MeiRequest::Other { mei_type, data })
}

/// Append the MEI body of a request, MEI type first.
pub fn encode_request(request: &MeiRequest, out: &mut Vec<u8>)
    ensures
        final(out)@ == old(out)@ + spec_encode_mei_request(request@),
{
    match request {
        MeiRequest::CanOpen { data } => {
            out.push(MEI_CANOPEN);
            push_bytes(out, data.as_slice());
        },
        MeiRequest::ReadDeviceIdentification { read_device_id_code, object_id } => {
            out.push(MEI_READ_DEVICE_ID);
            out.push(read_device_id_code.encode());
            out.push(*object_id);
        },
        MeiRequest::Other { mei_type, data } => {
            out.push(*mei_type);
            push_bytes(out, data.as_slice());
        },
    }
    proof {
        assert(final(out)@ =~= old(out)@ + spec_encode_mei_request(request@));
    }
}

proof fn lemma_encode_objects_step(objects: Seq<DeviceIdObjectModel>, k: int)
    requires
        0 <= k < objects.len(),
    ensures
        objects.skip(k).drop_first() =~= objects.skip(k + 1),
        objects.skip(k)[0] == objects[k],
        objects.skip(k).len() > 0,
{
}

/// Append a run of identification objects. On failure `out` may hold part of
/// the run after its original contents.
pub fn encode_objects(objects: &[DeviceIdObject], out: &mut Vec<u8>) -> (r: Result<()>)
    ensures
        final(out)@.len() >= old(out)@.len(),
        final(out)@.subrange(0, old(out)@.len() as int) == old(out)@,
        match r {
            Ok(()) => spec_encode_objects(objects_view(objects@)) matches Ok(b) && final(out)@
                == old(out)@ + b,
            Err(e) => spec_encode_objects(objects_view(objects@)) == Err::<Seq<u8>, Error>(e),
        },
{
    let ghost models = objects_view(objects@);
    let ghost body_start = out@;
    proof {
        assert(models.skip(0) =~= models);
        assert(out@.skip(body_start.len() as int) =~= Seq::<u8>::empty());
        assert(out@.subrange(0, body_start.len() as int) =~= body_start);
    }
    let mut k: usize = 0;
    while k < objects.len()
        invariant
            models == objects_view(objects@),
            body_start == old(out)@,
            k <= objects@.len(),
            out@.len() >= body_start.len(),
            out@.subrange(0, body_start.len() as int) == body_start,
            match spec_encode_objects(models) {
                Ok(all) => spec_encode_objects(models.skip(k as int)) matches Ok(rest) && all
                    == out@.skip(body_start.len() as int) + rest,
                Err(e) => spec_encode_objects(models.skip(k as int)) == Err::<Seq<u8>, Error>(e),
            },
        decreases objects@.len() - k,
    {
        proof {
            lemma_encode_objects_step(models, k as int);
        }
        let object = &objects[k];
        proof {
            assert(models[k as int] == object@);
        }
        if object.value.len() > 255 {
            let e = Error::OutOfRange {
                field: "object length",
                value: as_u32(object.value.len()),
                min: 0,
                max: 255,
            };
            proof {
                let tail = models.skip(k as int);
                assert(tail[0].value.len() > 255);
                assert(spec_encode_objects(tail) == Err::<Seq<u8>, Error>(e));
            }
            return Err(e);
        }
        let ghost before = out@;
        out.push(object.id);
        out.push(object.value.len() as u8);
        push_bytes(out, object.value.as_slice());
        proof {
            assert(out@ =~= before + (seq![object.id, object.value@.len() as u8] + object.value@));
            assert(out@.subrange(0, body_start.len() as int) =~= body_start);
            assert(out@.skip(body_start.len() as int) =~= before.skip(body_start.len() as int) + (
            seq![object.id, object.value@.len() as u8] + object.value@));
        }
        k = k + 1;
    }
    proof {
        assert(models.skip(k as int) =~= Seq::<DeviceIdObjectModel>::empty());
        assert(out@ =~= body_start + out@.skip(body_start.len() as int));
    }
    Ok(())
}

/// Append the MEI body of a response, MEI type first. On failure `out` may
/// hold a partial body after its original contents; the caller restores it.
pub fn encode_response(response: &MeiResponse, out: &mut Vec<u8>) -> (r: Result<()>)
    ensures
        final(out)@.len() >= old(out)@.len(),
        final(out)@.subrange(0, old(out)@.len() as int) == old(out)@,
        match r {
            Ok(()) => spec_encode_mei_response(response@) matches Ok(b) && final(out)@
                == old(out)@ + b,
            Err(e) => spec_encode_mei_response(response@) == Err::<Seq<u8>, Error>(e),
        },
{
    match response {
        MeiResponse::CanOpen { data } => {
            out.push(MEI_CANOPEN);
            push_bytes(out, data.as_slice());
            proof {
                assert(final(out)@ =~= old(out)@ + (seq![MEI_CANOPEN] + data@));
                assert(final(out)@.subrange(0, old(out)@.len() as int) =~= old(out)@);
            }
            Ok(())
        },
        MeiResponse::Other { mei_type, data } => {
            out.push(*mei_type);
            push_bytes(out, data.as_slice());
            proof {
                assert(final(out)@ =~= old(out)@ + (seq![*mei_type] + data@));
                assert(final(out)@.subrange(0, old(out)@.len() as int) =~= old(out)@);
            }
            Ok(())
        },
        MeiResponse::ReadDeviceIdentification {
            read_device_id_code,
            conformity_level,
            more_follows,
            next_object_id,
            objects,
        } => {
            if objects.len() > 255 {
                return Err(
                    Error::OutOfRange {
                        field: "object count",
                        value: as_u32(objects.len()),
                        min: 0,
                        max: 255,
                    },
                );
            }
            let ghost start = out@;
            let header_more = if *more_follows {
                MORE_FOLLOWS_YES
            } else {
                MORE_FOLLOWS_NO
            };
            out.push(MEI_READ_DEVICE_ID);
            out.push(read_device_id_code.encode());
            out.push(*conformity_level);
            out.push(header_more);
            out.push(*next_object_id);
            out.push(objects.len() as u8);
            let ghost header = seq![
                MEI_READ_DEVICE_ID,
                read_device_id_code.spec_encode(),
                *conformity_level,
                header_more,
                *next_object_id,
                objects@.len() as u8,
            ];
            proof {
                assert(out@ =~= start + header);
            }
            let ghost mid = out@;
            let result = encode_objects(objects.as_slice(), out);
            proof {
                assert(objects_view(objects@).len() == objects@.len());
                assert(mid.subrange(0, start.len() as int) =~= start);
                assert(out@.subrange(0, start.len() as int) =~= out@.subrange(0, mid.len() as int).subrange(0, start.len() as int));
                if result is Ok {
                    let b = spec_encode_objects(objects_view(objects@))->Ok_0;
                    assert(out@ =~= start + (header + b));
                }
            }
            result
        },
    }
}

/// Parse identification objects from the whole of `r`.
pub fn parse_objects(r: &[u8]) -> (res: Result<Vec<DeviceIdObject>>)
    ensures
        match res {
            Ok(v) => spec_parse_objects(r@, 0) == Ok::<Seq<DeviceIdObjectModel>, Error>(objects_view(v@)),
            Err(e) => spec_parse_objects(r@, 0) == Err::<Seq<DeviceIdObjectModel>, Error>(e),
        },
{
    let n = r.len();
    let mut items: Vec<DeviceIdObject> = Vec::new();
    let mut pos: usize = 0;
    while pos < n
        invariant
            n == r@.len(),
            pos <= n,
            match spec_parse_objects(r@, 0) {
                Ok(all) => spec_parse_objects(r@, pos as int) matches Ok(rest) && all
                    == objects_view(items@) + rest,
                Err(e) => spec_parse_objects(r@, pos as int) == Err::<Seq<DeviceIdObjectModel>, Error>(e),
            },
        decreases n - pos,
    {
        if n - pos < 2 {
            return Err(Error::Truncated { expected: pos.saturating_add(2), supplied: n });
        }
        let len = r[pos + 1] as usize;
        if n - pos - 2 < len {
            return Err(Error::Truncated { expected: (pos + 2).saturating_add(len), supplied: n });
        }
        let value = slice_to_vec(&r[pos + 2..pos + 2 + len]);
        let ghost old_items = items@;
        items.push(DeviceIdObject { id: r[pos], value });
        proof {
            assert(objects_view(items@) =~= objects_view(old_items) + seq![
                DeviceIdObjectModel { id: r@[pos as int], value: r@.subrange(pos + 2, pos + 2 + len) },
            ]);
        }
        pos = pos + 2 + len;
    }
    proof {
        assert(objects_view(items@) + Seq::<DeviceIdObjectModel>::empty() =~= objects_view(items@));
    }
    Ok(items)
}

/// Decode the MEI body of a response PDU. `p` is the whole PDU, function
/// code 43 first; the body starts at its second byte.
pub fn decode_response(p: &[u8]) -> (r: Result<MeiResponse>)
    ensures
        match r {
            Ok(m) => spec_decode_mei_response(p@) == Ok::<MeiResponseModel, Error>(m@),
            Err(e) => spec_decode_mei_response(p@) == Err::<MeiResponseModel, Error>(e),
        },
{
    let n = p.len();
    if n < 2 {
        return Err(Error::Truncated { expected: 2, supplied: n });
    }
    let mei_type = p[1];
    if mei_type == MEI_CANOPEN {
        let data = slice_to_vec(&p[2..n]);
        proof {
            assert(data@ =~= p@.skip(2));
        }
        return Ok(MeiResponse::CanOpen { data });
    }
    if mei_type != MEI_READ_DEVICE_ID {
        let data = slice_to_vec(&p[2..n]);
        proof {
            assert(data@ =~= p@.skip(2));
        }
        return Ok(MeiResponse::Other { mei_type, data });
    }
    if n < 3 {
        return Err(Error::Truncated { expected: 3, supplied: n });
    }
    let code = match ReadDeviceIdCode::decode(p[2]) {
        Ok(code) => code,
        Err(e) => return Err(e),
    };
    if n < 4 {
        return Err(Error::Truncated { expected: 4, supplied: n });
    }
    if n < 5 {
        return Err(Error::Truncated { expected: 5, supplied: n });
    }
    let more = p[4];
    if more != MORE_FOLLOWS_NO && more != MORE_FOLLOWS_YES {
        return Err(Error::IllegalValue { field: "more follows", value: more as u16 });
    }
    if n < 6 {
        return Err(Error::Truncated { expected: 6, supplied: n });
    }
    if n < 7 {
        return Err(Error::Truncated { expected: 7, supplied: n });
    }
    let region = &p[7..n];
    proof {
        assert(region@ =~= p@.skip(7));
    }
    let objects = match parse_objects(region) {
        Ok(objects) => objects,
        Err(e) => return Err(e),
    };
    let count = p[6];
    if objects.len() != count as usize {
        return Err(Error::ByteCountMismatch { expected: count as usize, actual: objects.len() });
    }
    Ok(
        MeiResponse::ReadDeviceIdentification {
            read_device_id_code: code,
            conformity_level: p[3],
            more_follows: more == MORE_FOLLOWS_YES,
            next_object_id: p[5],
            objects,
        },
    )
}

/// The read device id code table: 1 basic, 2 regular, 3 extended,
/// 4 individual, each read back from its byte; every other byte is out of
/// range.
pub proof fn lemma_read_device_id_code_table(raw: u8)
    ensures
        ReadDeviceIdCode::Basic.spec_encode() == 1,
        ReadDeviceIdCode::Regular.spec_encode() == 2,
        ReadDeviceIdCode::Extended.spec_encode() == 3,
        ReadDeviceIdCode::Individual.spec_encode() == 4,
        ReadDeviceIdCode::spec_decode(1) == Ok::<ReadDeviceIdCode, Error>(ReadDeviceIdCode::Basic),
        ReadDeviceIdCode::spec_decode(2) == Ok::<ReadDeviceIdCode, Error>(ReadDeviceIdCode::Regular),
        ReadDeviceIdCode::spec_decode(3) == Ok::<ReadDeviceIdCode, Error>(ReadDeviceIdCode::Extended),
        ReadDeviceIdCode::spec_decode(4) == Ok::<ReadDeviceIdCode, Error>(ReadDeviceIdCode::Individual),
        (raw == 0 || raw > 4) ==> ReadDeviceIdCode::spec_decode(raw) == Err::<ReadDeviceIdCode, Error>(
            Error::OutOfRange { field: "read device id code", value: raw as u32, min: 1, max: 4 },
        ),
{
}

/// The MEI type bytes: CANopen General Reference is 13 and Read Device
/// Identification is 14, whose request body is the type, the read device id
/// code and the object id.
pub proof fn lemma_mei_request_bytes(code: ReadDeviceIdCode, object_id: u8, data: Seq<u8>)
    ensures
        spec_encode_mei_request(MeiRequestModel::ReadDeviceIdentification { read_device_id_code: code, object_id })
            == seq![14u8, code.spec_encode(), object_id],
        spec_encode_mei_request(MeiRequestModel::CanOpen { data }) == seq![13u8] + data,
{
}

} // verus!
