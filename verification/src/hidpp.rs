//! HID++ 2.0 frame codec for the Logitech BLE-HID++ pipe.

use vstd::prelude::*;

verus! {

/// The three frame layouts a device may expect on the vendor characteristic.
#[derive(Clone, Copy, Debug, PartialEq, Eq, Structural)]
pub enum FrameShape {
    NoDevIdx18,
    WithDevIdx19,
    WithReportId20,
}

/// Length in bytes of a frame of the given shape.
pub open spec fn spec_frame_len(shape: FrameShape) -> nat {
    match shape {
        FrameShape::NoDevIdx18 => 18,
        FrameShape::WithDevIdx19 => 19,
        FrameShape::WithReportId20 => 20,
    }
}

/// Offset of the feature-index byte within a frame of the given shape.
pub open spec fn spec_featidx_off(shape: FrameShape) -> nat {
    match shape {
        FrameShape::NoDevIdx18 => 0,
        FrameShape::WithDevIdx19 => 1,
        FrameShape::WithReportId20 => 2,
    }
}

impl FrameShape {
    pub fn frame_len(self) -> (n: usize)
        ensures
            n == spec_frame_len(self),
    {
        match self {
            FrameShape::NoDevIdx18 => 18,
            FrameShape::WithDevIdx19 => 19,
            FrameShape::WithReportId20 => 20,
        }
    }

    pub fn featidx_off(self) -> (n: usize)
        ensures
            n == spec_featidx_off(self),
    {
        match self {
            FrameShape::NoDevIdx18 => 0,
            FrameShape::WithDevIdx19 => 1,
            FrameShape::WithReportId20 => 2,
        }
    }
}

pub const ROOT_FEATURE_INDEX: u8 = 0x00;
pub const FN_GET_FEATURE: u8 = 0x00;
pub const FN_GET_BATTERY_LEVEL_STATUS: u8 = 0x00;
pub const FEATURE_BATTERY_STATUS: u16 = 0x1000;
pub const FEATURE_UNIFIED_BATTERY: u16 = 0x1004;

/// A decoded HID++ frame.
#[derive(Clone, Debug, PartialEq, Eq)]
pub struct HidppFrame {
    pub feature_index: u8,
    pub function: u8,
    pub swid: u8,
    pub params: Vec<u8>,
}

impl HidppFrame {
    /// A frame with software id 0 is an unsolicited event from the device.
    pub fn is_event(&self) -> (b: bool)
        ensures
            b == (self.swid == 0),
    {
        self.swid == 0
    }
}

/// The byte holding the function number (high nibble) and software id (low nibble).
pub open spec fn fn_swid_byte(function: u8, swid: u8) -> u8 {
    ((function << 4u8) | (swid & 0x0Fu8)) as u8
}

/// The bytes of a request frame: header at the shape's offset, then two
/// parameter bytes, zero elsewhere.
pub open spec fn spec_request_frame(
    shape: FrameShape,
    feature_index: u8,
    function: u8,
    swid: u8,
    p0: u8,
    p1: u8,
) -> Seq<u8> {
    let off = spec_featidx_off(shape) as int;
    Seq::new(
        spec_frame_len(shape),
        |i: int|
            if shape == FrameShape::WithReportId20 && i == 0 {
                0x11u8
            } else if shape != FrameShape::NoDevIdx18 && i == off - 1 {
                0xFFu8
            } else if i == off {
                feature_index
            } else if i == off + 1 {
                fn_swid_byte(function, swid)
            } else if i == off + 2 {
                p0
            } else if i == off + 3 {
                p1
            } else {
                0u8
            },
    )
}

fn put_header(buf: &mut Vec<u8>, shape: FrameShape, feature_index: u8, function: u8, swid: u8)
    requires
        old(buf)@ == Seq::new(spec_frame_len(shape), |i: int| 0u8),
    ensures
        final(buf)@ == spec_request_frame(shape, feature_index, function, swid, 0, 0),
{
    let off = shape.featidx_off();
    if shape == FrameShape::WithReportId20 {
        buf.set(0, 0x11);
    }
    if shape != FrameShape::NoDevIdx18 {
        buf.set(off - 1, 0xFF);
    }
    buf.set(off, feature_index);
    let b: u8 = (function << 4u8) | (swid & 0x0F);
    buf.set(off + 1, b);
    assert(buf@ =~= spec_request_frame(shape, feature_index, function, swid, 0, 0));
}

/// Builds a root-feature GetFeature request for `feature_id`.
pub fn encode_get_feature(shape: FrameShape, feature_id: u16, swid: u8) -> (f: Vec<u8>)
    ensures
        f@ == spec_request_frame(
            shape,
            ROOT_FEATURE_INDEX,
            FN_GET_FEATURE,
            swid,
            (feature_id >> 8u16) as u8,
            (feature_id & 0xFFu16) as u8,
        ),
{
    let mut buf = vec![0u8; shape.frame_len()];
    assert(buf@ =~= Seq::new(spec_frame_len(shape), |i: int| 0u8));
    put_header(&mut buf, shape, ROOT_FEATURE_INDEX, FN_GET_FEATURE, swid);
    let off = shape.featidx_off();
    let hi: u8 = (feature_id >> 8u16) as u8;
    let lo: u8 = (feature_id & 0xFFu16) as u8;
    buf.set(off + 2, hi);
    buf.set(off + 3, lo);
    assert(buf@ =~= spec_request_frame(
        shape,
        ROOT_FEATURE_INDEX,
        FN_GET_FEATURE,
        swid,
        (feature_id >> 8u16) as u8,
        (feature_id & 0xFFu16) as u8,
    ));
    buf
}

/// Builds a GetBatteryLevelStatus request addressed to `feature_index`.
pub fn encode_get_battery_level_status(shape: FrameShape, feature_index: u8, swid: u8) -> (f: Vec<
    u8,
>)
    ensures
        f@ == spec_request_frame(shape, feature_index, FN_GET_BATTERY_LEVEL_STATUS, swid, 0, 0),
{
    let mut buf = vec![0u8; shape.frame_len()];
    assert(buf@ =~= Seq::new(spec_frame_len(shape), |i: int| 0u8));
    put_header(&mut buf, shape, feature_index, FN_GET_BATTERY_LEVEL_STATUS, swid);
    buf
}

/// What `decode` yields for a buffer: `None` when it is too short to hold the
/// header, otherwise the header fields and every byte after them.
pub open spec fn spec_decode(shape: FrameShape, buf: Seq<u8>) -> Option<(u8, u8, u8, Seq<u8>)> {
    let off = spec_featidx_off(shape) as int;
    if buf.len() < off + 2 {
        None
    } else {
        Some((buf[off], (buf[off + 1] >> 4u8) as u8, (buf[off + 1] & 0x0Fu8) as u8, buf.subrange(off + 2, buf.len() as int)))
    }
}

pub fn decode(shape: FrameShape, buf: &[u8]) -> (r: Option<HidppFrame>)
    ensures
        match spec_decode(shape, buf@) {
            None => r is None,
            Some((fi, func, swid, params)) => r matches Some(f) && f.feature_index == fi
                && f.function == func && f.swid == swid && f.params@ == params,
        },
{
    let off = shape.featidx_off();
    if buf.len() < off + 2 {
        return None;
    }
    let feature_index = buf[off];
    let fn_swid = buf[off + 1];
    let function = fn_swid >> 4u8;
    let swid = fn_swid & 0x0F;
    let mut params: Vec<u8> = Vec::new();
    let mut i = off + 2;
    while i < buf.len()
        invariant
            off + 2 <= i <= buf.len(),
            params@ == buf@.subrange(off + 2, i as int),
        decreases buf.len() - i,
    {
        params.push(buf[i]);
        i = i + 1;
        assert(params@ =~= buf@.subrange(off + 2, i as int));
    }
    Some(HidppFrame { feature_index, function, swid, params })
}

/// Charging-state byte of the battery-status feature (0x1000).
#[derive(Clone, Copy, Debug, PartialEq, Eq, Structural)]
pub enum ChargingStateRaw {
    Discharging,
    Recharging,
    ChargeInFinalState,
    ChargeComplete,
    Other(u8),
}

pub open spec fn spec_charging_from_byte(b: u8) -> ChargingStateRaw {
    if b == 0 {
        ChargingStateRaw::Discharging
    } else if b == 1 {
        ChargingStateRaw::Recharging
    } else if b == 2 {
        ChargingStateRaw::ChargeInFinalState
    } else if b == 3 {
        ChargingStateRaw::ChargeComplete
    } else {
        ChargingStateRaw::Other(b)
    }
}

impl ChargingStateRaw {
    pub fn from_byte(b: u8) -> (s: Self)
        ensures
            s == spec_charging_from_byte(b),
    {
        match b {
            0 => Self::Discharging,
            1 => Self::Recharging,
            2 => Self::ChargeInFinalState,
            3 => Self::ChargeComplete,
            other => Self::Other(other),
        }
    }
}

/// The (level, next level, charging state) triple at the start of a battery
/// status payload, or `None` when fewer than three bytes are present.
pub open spec fn spec_decode_battery_status(params: Seq<u8>) -> Option<(u8, u8, ChargingStateRaw)> {
    if params.len() < 3 {
        None
    } else {
        Some((params[0], params[1], spec_charging_from_byte(params[2])))
    }
}

pub fn decode_battery_status(params: &[u8]) -> (r: Option<(u8, u8, ChargingStateRaw)>)
    ensures
        r == spec_decode_battery_status(params@),
{
    if params.len() < 3 {
        return None;
    }
    Some((params[0], params[1], ChargingStateRaw::from_byte(params[2])))
}


proof fn lemma_header_byte(function: u8, swid: u8)
    requires
        function < 16,
    ensures
        (fn_swid_byte(function, swid) >> 4u8) as u8 == function,
        (fn_swid_byte(function, swid) & 0x0Fu8) as u8 == (swid & 0x0Fu8) as u8,
{
    assert((((function << 4u8) | (swid & 0x0Fu8)) as u8 >> 4u8) as u8 == function) by (bit_vector)
        requires
            function < 16,
    ;
    assert((((function << 4u8) | (swid & 0x0Fu8)) as u8 & 0x0Fu8) as u8 == (swid & 0x0Fu8) as u8)
        by (bit_vector);
}

/// Decoding an encoded request gives back its header: the feature index, the
/// function (any function below 16 fits its nibble) and the low nibble of the
/// software id; the parameters start with the two parameter bytes and are
/// zero after them.
pub proof fn request_frame_round_trip(
    shape: FrameShape,
    feature_index: u8,
    function: u8,
    swid: u8,
    p0: u8,
    p1: u8,
)
    requires
        function < 16,
    ensures
        ({
            let frame = spec_request_frame(shape, feature_index, function, swid, p0, p1);
            let off = spec_featidx_off(shape) as int;
            &&& spec_decode(shape, frame) == Some(
                (feature_index, function, (swid & 0x0Fu8) as u8, frame.subrange(off + 2, frame.len() as int)),
            )
            &&& frame.subrange(off + 2, frame.len() as int).len() == spec_frame_len(shape) - off - 2
            &&& frame.subrange(off + 2, frame.len() as int)[0] == p0
            &&& frame.subrange(off + 2, frame.len() as int)[1] == p1
            &&& forall|i: int|
                2 <= i < spec_frame_len(shape) - off - 2 ==> #[trigger] frame.subrange(
                    off + 2,
                    frame.len() as int,
                )[i] == 0
        }),
{
    lemma_header_byte(function, swid);
}

} // verus!
