use vstd::prelude::*;

verus! {

/// Synchronization events: mark the end of a group of changes.
pub const EV_SYN: u16 = 0x00;

/// Key and button events.
pub const EV_KEY: u16 = 0x01;

/// Absolute axis events.
pub const EV_ABS: u16 = 0x03;

/// The code of the synchronization event that ends a report.
pub const SYN_REPORT: u16 = 0;

/// Size in bytes of one encoded `input_event` on a 64-bit Linux target:
/// a zero `timeval` (two 8-byte longs), then type, code and value.
pub const EVENT_SIZE: usize = 24;

/// One input event as the kernel reads it from a uinput device. The
/// timestamp is not kept: Linux ignores timestamps written through uinput,
/// so it is always written as zero.
#[derive(Clone, Copy, Debug, PartialEq, Eq, Structural)]
pub struct InputEvent {
    pub event_type: u16,
    pub code: u16,
    pub value: i32,
}

/// Little-endian bytes of a 16-bit value.
pub open spec fn le_bytes_u16(v: u16) -> Seq<u8> {
    seq![(v % 0x100) as u8, (v / 0x100) as u8]
}

/// Little-endian bytes of a 32-bit value.
pub open spec fn le_bytes_u32(v: u32) -> Seq<u8> {
    seq![
        (v % 0x100) as u8,
        ((v / 0x100) % 0x100) as u8,
        ((v / 0x1_0000) % 0x100) as u8,
        (v / 0x100_0000) as u8,
    ]
}

/// Little-endian bytes of a signed 32-bit value, in two's complement.
pub open spec fn le_bytes_i32(v: i32) -> Seq<u8> {
    le_bytes_u32(v as u32)
}

/// `n` zero bytes.
pub open spec fn zero_bytes(n: nat) -> Seq<u8> {
    Seq::new(n, |i: int| 0u8)
}

/// The bytes of one event: a zero timestamp, then type, code and value.
pub open spec fn event_bytes(e: InputEvent) -> Seq<u8> {
    zero_bytes(16) + le_bytes_u16(e.event_type) + le_bytes_u16(e.code) + le_bytes_i32(e.value)
}

/// The event that ends a report.
pub open spec fn syn_report_event() -> InputEvent {
    InputEvent { event_type: EV_SYN, code: SYN_REPORT, value: 0 }
}

/// The bytes written for one change: the event, then a synchronization
/// report, so that the change takes effect at once.
pub open spec fn synced_report_bytes(event_type: u16, code: u16, value: i32) -> Seq<u8> {
    event_bytes(InputEvent { event_type, code, value }) + event_bytes(syn_report_event())
}

/// The value of a key or button event: 1 for pressed, 0 for released.
pub open spec fn key_value(pressed: bool) -> i32 {
    if pressed {
        1
    } else {
        0
    }
}

/// The number that little-endian bytes stand for.
pub open spec fn le_value(bytes: Seq<u8>) -> int
    decreases bytes.len(),
{
    if bytes.len() == 0 {
        0
    } else {
        bytes[0] + 0x100 * le_value(bytes.drop_first())
    }
}

/// Reading the little-endian bytes of a value gives the value back, least
/// significant byte first.
pub proof fn lemma_le_bytes_read_back(a: u16, b: u32)
    ensures
        le_bytes_u16(a).len() == 2,
        le_value(le_bytes_u16(a)) == a,
        le_bytes_u32(b).len() == 4,
        le_value(le_bytes_u32(b)) == b,
{
    let s = le_bytes_u16(a);
    assert(s.drop_first().drop_first() =~= Seq::<u8>::empty());
    assert(le_value(s.drop_first()) == s[1] + 0x100 * le_value(s.drop_first().drop_first()));
    let t = le_bytes_u32(b);
    let t1 = t.drop_first();
    let t2 = t1.drop_first();
    let t3 = t2.drop_first();
    assert(t3.drop_first() =~= Seq::<u8>::empty());
    assert(le_value(t3) == t3[0] + 0x100 * le_value(t3.drop_first()));
    assert(le_value(t2) == t2[0] + 0x100 * le_value(t3));
    assert(le_value(t1) == t1[0] + 0x100 * le_value(t2));
}

/// An event's bytes hold a zero time, then its type, code and value, each
/// readable back from its place.
pub proof fn lemma_event_fields_read_back(e: InputEvent)
    ensures
        event_bytes(e).len() == EVENT_SIZE,
        forall|i: int| 0 <= i < 16 ==> #[trigger] event_bytes(e)[i] == 0,
        le_value(event_bytes(e).subrange(16, 18)) == e.event_type,
        le_value(event_bytes(e).subrange(18, 20)) == e.code,
        le_value(event_bytes(e).subrange(20, 24)) == e.value as u32,
        (e.value as u32) as i32 == e.value,
{
    lemma_le_bytes_read_back(e.event_type, e.value as u32);
    lemma_le_bytes_read_back(e.code, 0);
    let b = event_bytes(e);
    assert(b.subrange(16, 18) =~= le_bytes_u16(e.event_type));
    assert(b.subrange(18, 20) =~= le_bytes_u16(e.code));
    assert(b.subrange(20, 24) =~= le_bytes_u32(e.value as u32));
    let v = e.value;
    assert((v as u32) as i32 == v) by (bit_vector);
}

/// Appends the little-endian bytes of a 16-bit value.
pub fn push_le_u16(out: &mut Vec<u8>, v: u16)
    ensures
        final(out)@ == old(out)@ + le_bytes_u16(v),
{
    let lo = (v & 0xff) as u8;
    let hi = (v >> 8u16) as u8;
    assert(v & 0xff == v % 0x100 && v >> 8u16 == v / 0x100) by (bit_vector);
    out.push(lo);
    out.push(hi);
    assert(out@ =~= old(out)@ + le_bytes_u16(v));
}

/// Appends the little-endian bytes of a 32-bit value.
pub fn push_le_u32(out: &mut Vec<u8>, v: u32)
    ensures
        final(out)@ == old(out)@ + le_bytes_u32(v),
{
    let b0 = (v & 0xff) as u8;
    let b1 = ((v >> 8u32) & 0xff) as u8;
    let b2 = ((v >> 16u32) & 0xff) as u8;
    let b3 = (v >> 24u32) as u8;
    assert(v & 0xff == v % 0x100 && (v >> 8u32) & 0xff == (v / 0x100) % 0x100 && (v >> 16u32)
        & 0xff == (v / 0x1_0000) % 0x100 && v >> 24u32 == v / 0x100_0000) by (bit_vector);
    out.push(b0);
    out.push(b1);
    out.push(b2);
    out.push(b3);
    assert(out@ =~= old(out)@ + le_bytes_u32(v));
}

impl InputEvent {
    /// An event of the given type, code and value.
    pub fn new(event_type: u16, code: u16, value: i32) -> (e: InputEvent)
        ensures
            e == (InputEvent { event_type, code, value }),
    {
        InputEvent { event_type, code, value }
    }

    /// Appends this event's bytes as the kernel reads them.
    pub fn encode_into(&self, out: &mut Vec<u8>)
        ensures
            final(out)@ == old(out)@ + event_bytes(*self),
    {
        let mut i: usize = 0;
        while i < 16
            invariant
                i <= 16,
                out@ == old(out)@ + zero_bytes(i as nat),
            decreases 16 - i,
        {
            out.push(0u8);
            i = i + 1;
            assert(out@ =~= old(out)@ + zero_bytes(i as nat));
        }
        push_le_u16(out, self.event_type);
        push_le_u16(out, self.code);
        push_le_u32(out, self.value as u32);
        assert(out@ =~= old(out)@ + event_bytes(*self));
    }

    /// This event's bytes.
    pub fn to_bytes(&self) -> (bytes: Vec<u8>)
        ensures
            bytes@ == event_bytes(*self),
            bytes@.len() == EVENT_SIZE,
    {
        let mut out: Vec<u8> = Vec::new();
        self.encode_into(&mut out);
        assert(out@ =~= event_bytes(*self));
        out
    }
}

/// The bytes to write for one change of one control: the event followed by
/// a synchronization report.
pub fn synced_report(event_type: u16, code: u16, value: i32) -> (bytes: Vec<u8>)
    ensures
        bytes@ == synced_report_bytes(event_type, code, value),
        bytes@.len() == 2 * EVENT_SIZE,
        bytes@.subrange(EVENT_SIZE as int, 2 * EVENT_SIZE as int) == event_bytes(
            syn_report_event(),
        ),
{
    let mut out: Vec<u8> = Vec::new();
    InputEvent::new(event_type, code, value).encode_into(&mut out);
    InputEvent::new(EV_SYN, SYN_REPORT, 0).encode_into(&mut out);
    assert(out@ =~= synced_report_bytes(event_type, code, value));
    assert(out@.subrange(EVENT_SIZE as int, 2 * EVENT_SIZE as int) =~= event_bytes(
        syn_report_event(),
    ));
    out
}

/// The report that presses (`pressed`) or releases a key or button.
pub fn key_report(code: u16, pressed: bool) -> (bytes: Vec<u8>)
    ensures
        bytes@ == synced_report_bytes(EV_KEY, code, key_value(pressed)),
{
    synced_report(EV_KEY, code, if pressed { 1 } else { 0 })
}

/// The report that moves an absolute axis to `value`.
pub fn axis_report(code: u16, value: i32) -> (bytes: Vec<u8>)
    ensures
        bytes@ == synced_report_bytes(EV_ABS, code, value),
{
    synced_report(EV_ABS, code, value)
}

} // verus!
