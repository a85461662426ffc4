//! Where each field of a request and of a response stands, byte by byte.
use super::wire::{
    VirtioRtcConfig, VirtioRtcReqClockCap, VirtioRtcReqCrossCap, VirtioRtcReqHead,
    VirtioRtcReqRead, VirtioRtcReqReadCross, VirtioRtcRespCfg, VirtioRtcRespClockCap,
    VirtioRtcRespCrossCap, VirtioRtcRespHead, VirtioRtcRespRead, VirtioRtcRespReadCross,
};
use crate::le;
use vstd::prelude::*;

verus! {

/// The number in two bytes, the least significant one first.
pub open spec fn u16_at(bytes: Seq<u8>, at: int) -> int {
    bytes[at] + 0x100 * bytes[at + 1]
}

/// The number in four bytes, the least significant one first.
pub open spec fn u32_at(bytes: Seq<u8>, at: int) -> int {
    u16_at(bytes, at) + 0x1_0000 * u16_at(bytes, at + 2)
}

/// The number in eight bytes, the least significant one first.
pub open spec fn u64_at(bytes: Seq<u8>, at: int) -> int {
    u32_at(bytes, at) + 0x1_0000_0000 * u32_at(bytes, at + 4)
}

/// The bytes of a number, one byte more.
proof fn lemma_next_byte(value: nat, width: nat)
    requires
        width > 0,
    ensures
        le::le_bytes(value, width).len() == width,
        le::le_bytes(value, width)[0] == value % 256,
        forall|i: int|
            1 <= i < width ==> #[trigger] le::le_bytes(value, width)[i] == le::le_bytes(
                value / 256,
                (width - 1) as nat,
            )[i - 1],
{
    le::lemma_le_bytes_len(value, width);
    le::lemma_le_bytes_len(value / 256, (width - 1) as nat);
}

proof fn lemma_u16(value: nat)
    requires
        value < 0x1_0000,
    ensures
        le::le_bytes(value, 2).len() == 2,
        u16_at(le::le_bytes(value, 2), 0) == value,
{
    lemma_next_byte(value, 2);
    lemma_next_byte(value / 256, 1);
    assert(le::le_bytes(value, 2)[1] == le::le_bytes(value / 256, 1)[0]);
}

proof fn lemma_u32(value: nat)
    requires
        value < 0x1_0000_0000,
    ensures
        le::le_bytes(value, 4).len() == 4,
        u32_at(le::le_bytes(value, 4), 0) == value,
{
    let v1 = value / 256;
    let v2 = v1 / 256;
    lemma_next_byte(value, 4);
    lemma_next_byte(v1, 3);
    lemma_u16(v2);
    let b = le::le_bytes(value, 4);
    assert(b[1] == le::le_bytes(v1, 3)[0]);
    assert(b[2] == le::le_bytes(v1, 3)[1] && le::le_bytes(v1, 3)[1] == le::le_bytes(v2, 2)[0]);
    assert(b[3] == le::le_bytes(v1, 3)[2] && le::le_bytes(v1, 3)[2] == le::le_bytes(v2, 2)[1]);
}

proof fn lemma_u64(value: nat)
    requires
        value < 0x1_0000_0000_0000_0000,
    ensures
        le::le_bytes(value, 8).len() == 8,
        u64_at(le::le_bytes(value, 8), 0) == value,
{
    let v1 = value / 256;
    let v2 = v1 / 256;
    let v3 = v2 / 256;
    let v4 = v3 / 256;
    lemma_next_byte(value, 8);
    lemma_next_byte(v1, 7);
    lemma_next_byte(v2, 6);
    lemma_next_byte(v3, 5);
    lemma_u32(v4);
    let b = le::le_bytes(value, 8);
    let b1 = le::le_bytes(v1, 7);
    let b2 = le::le_bytes(v2, 6);
    let b3 = le::le_bytes(v3, 5);
    let b4 = le::le_bytes(v4, 4);
    assert(b[1] == b1[0]);
    assert(b[2] == b1[1] && b1[1] == b2[0]);
    assert(b[3] == b1[2] && b1[2] == b2[1] && b2[1] == b3[0]);
    assert forall|i: int| 0 <= i < 4 implies b[i + 4] == #[trigger] b4[i] by {
        assert(b[i + 4] == b1[i + 3] && b1[i + 3] == b2[i + 2] && b2[i + 2] == b3[i + 1]);
        assert(b3[i + 1] == b4[i]);
    }
    assert(b[4] == b4[0] && b[5] == b4[1] && b[6] == b4[2] && b[7] == b4[3]);
}

/// A request starts with its message type in two bytes and six reserved ones. The clock
/// follows in bytes 8 and 9, then the hardware counter in byte 10 where the request has
/// one, and reserved bytes up to 16.
pub proof fn law_layout_of_requests(
    head: VirtioRtcReqHead,
    read: VirtioRtcReqRead,
    read_cross: VirtioRtcReqReadCross,
    clock_cap: VirtioRtcReqClockCap,
    cross_cap: VirtioRtcReqCrossCap,
)
    ensures
        ({
            let b = head.wire();
            b.len() == 8 && u16_at(b, 0) == head.msg_type && b.subrange(2, 8) == head.reserved@
        }),
        ({
            let b = read.wire();
            b.len() == 16 && b.subrange(0, 8) == read.head.wire() && u16_at(b, 8) == read.clock_id
                && b.subrange(10, 16) == read.reserved@
        }),
        ({
            let b = clock_cap.wire();
            b.len() == 16 && b.subrange(0, 8) == clock_cap.head.wire() && u16_at(b, 8)
                == clock_cap.clock_id && b.subrange(10, 16) == clock_cap.reserved@
        }),
        ({
            let b = read_cross.wire();
            b.len() == 16 && b.subrange(0, 8) == read_cross.head.wire() && u16_at(b, 8)
                == read_cross.clock_id && b[10] == read_cross.hw_counter && b.subrange(11, 16)
                == read_cross.reserved@
        }),
        ({
            let b = cross_cap.wire();
            b.len() == 16 && b.subrange(0, 8) == cross_cap.head.wire() && u16_at(b, 8)
                == cross_cap.clock_id && b[10] == cross_cap.hw_counter && b.subrange(11, 16)
                == cross_cap.reserved@
        }),
{
    lemma_u16(head.msg_type as nat);
    lemma_u16(read.head.msg_type as nat);
    lemma_u16(clock_cap.head.msg_type as nat);
    lemma_u16(read_cross.head.msg_type as nat);
    lemma_u16(cross_cap.head.msg_type as nat);
    lemma_u16(read.clock_id as nat);
    lemma_u16(clock_cap.clock_id as nat);
    lemma_u16(read_cross.clock_id as nat);
    lemma_u16(cross_cap.clock_id as nat);
    assert(head.wire().subrange(2, 8) =~= head.reserved@);
    assert(read.wire().subrange(0, 8) =~= read.head.wire());
    assert(read.wire().subrange(10, 16) =~= read.reserved@);
    assert(clock_cap.wire().subrange(0, 8) =~= clock_cap.head.wire());
    assert(clock_cap.wire().subrange(10, 16) =~= clock_cap.reserved@);
    assert(read_cross.wire().subrange(0, 8) =~= read_cross.head.wire());
    assert(read_cross.wire().subrange(11, 16) =~= read_cross.reserved@);
    assert(cross_cap.wire().subrange(0, 8) =~= cross_cap.head.wire());
    assert(cross_cap.wire().subrange(11, 16) =~= cross_cap.reserved@);
}

/// Where the reading stands in a response to a clock reading.
pub proof fn lemma_read_response(resp: VirtioRtcRespRead)
    ensures
        resp.wire().len() == 16,
        u64_at(resp.wire(), 8) == resp.clock_reading,
{
    lemma_u64(resp.clock_reading as nat);
    let b = resp.wire();
    let n = le::le_bytes(resp.clock_reading as nat, 8);
    lemma_moved(b, 8, n);
}

/// Where the readings stand in a response to a clock reading together with a counter.
pub proof fn lemma_cross_response(resp: VirtioRtcRespReadCross)
    ensures
        resp.wire().len() == 24,
        u64_at(resp.wire(), 8) == resp.clock_reading,
        u64_at(resp.wire(), 16) == resp.counter_cycles,
{
    lemma_u64(resp.clock_reading as nat);
    lemma_u64(resp.counter_cycles as nat);
    lemma_moved(resp.wire(), 8, le::le_bytes(resp.clock_reading as nat, 8));
    lemma_moved(resp.wire(), 16, le::le_bytes(resp.counter_cycles as nat, 8));
}

/// A number in the midst of other bytes.
proof fn lemma_moved(bytes: Seq<u8>, at: int, number: Seq<u8>)
    requires
        number.len() == 8,
        0 <= at,
        at + 8 <= bytes.len(),
        forall|i: int| 0 <= i < 8 ==> bytes[at + i] == #[trigger] number[i],
    ensures
        u64_at(bytes, at) == u64_at(number, 0),
{
    assert(bytes[at + 0] == number[0] && bytes[at + 1] == number[1] && bytes[at + 2] == number[2]
        && bytes[at + 3] == number[3] && bytes[at + 4] == number[4] && bytes[at + 5] == number[5]
        && bytes[at + 6] == number[6] && bytes[at + 7] == number[7]);
}

/// A response starts with its status in one byte and seven reserved ones. Readings
/// follow in eight bytes each, the number of clocks in two, and what a clock is or can
/// do in single bytes.
pub proof fn law_layout_of_responses(
    head: VirtioRtcRespHead,
    read: VirtioRtcRespRead,
    read_cross: VirtioRtcRespReadCross,
    cfg: VirtioRtcRespCfg,
    clock_cap: VirtioRtcRespClockCap,
    cross_cap: VirtioRtcRespCrossCap,
    config: VirtioRtcConfig,
)
    ensures
        ({
            let b = head.wire();
            b.len() == 8 && b[0] == head.status && b.subrange(1, 8) == head.reserved@
        }),
        ({
            let b = read.wire();
            b.len() == 16 && b.subrange(0, 8) == read.head.wire() && u64_at(b, 8)
                == read.clock_reading
        }),
        ({
            let b = read_cross.wire();
            b.len() == 24 && b.subrange(0, 8) == read_cross.head.wire() && u64_at(b, 8)
                == read_cross.clock_reading && u64_at(b, 16) == read_cross.counter_cycles
        }),
        ({
            let b = cfg.wire();
            b.len() == 16 && b.subrange(0, 8) == cfg.head.wire() && u16_at(b, 8) == cfg.num_clocks
                && b.subrange(10, 16) == cfg.reserved@
        }),
        ({
            let b = clock_cap.wire();
            b.len() == 16 && b.subrange(0, 8) == clock_cap.head.wire() && b[8]
                == clock_cap.clock_type && b[9] == clock_cap.leap_second_smearing && b[10]
                == clock_cap.flags && b.subrange(11, 16) == clock_cap.reserved@
        }),
        ({
            let b = cross_cap.wire();
            b.len() == 16 && b.subrange(0, 8) == cross_cap.head.wire() && b[8] == cross_cap.flags
                && b.subrange(9, 16) == cross_cap.reserved@
        }),
        config.wire().len() == 4,
        u32_at(config.wire(), 0) == config.num_clocks,
{
    lemma_read_response(read);
    lemma_cross_response(read_cross);
    lemma_u16(cfg.num_clocks as nat);
    lemma_u32(config.num_clocks as nat);
    assert(head.wire().subrange(1, 8) =~= head.reserved@);
    assert(read.wire().subrange(0, 8) =~= read.head.wire());
    assert(read_cross.wire().subrange(0, 8) =~= read_cross.head.wire());
    assert(cfg.wire().subrange(0, 8) =~= cfg.head.wire());
    assert(cfg.wire().subrange(10, 16) =~= cfg.reserved@);
    assert(clock_cap.wire().subrange(0, 8) =~= clock_cap.head.wire());
    assert(clock_cap.wire().subrange(11, 16) =~= clock_cap.reserved@);
    assert(cross_cap.wire().subrange(0, 8) =~= cross_cap.head.wire());
    assert(cross_cap.wire().subrange(9, 16) =~= cross_cap.reserved@);
}

/// The number that the device finds in two bytes of a request.
pub proof fn lemma_u16_found(bytes: Seq<u8>, at: int)
    requires
        0 <= at,
        at + 2 <= bytes.len(),
    ensures
        le::le_value(bytes.subrange(at, at + 2)) == u16_at(bytes, at),
{
    let part = bytes.subrange(at, at + 2);
    reveal_with_fuel(le::le_value, 3);
    assert(part.drop_first().drop_first().len() == 0);
}

} // verus!
