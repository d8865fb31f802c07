//! Trunking message fields: talkgroups, channels, channel parameters and the
//! fixed-size channel parameter table, together with the decoders that read
//! them out of trunking control block payloads.

use vstd::prelude::*;

verus! {

/// Traffic group selector carried by trunking messages: either the
/// default/unassigned group or a concrete numeric group identifier.
#[derive(Clone, Copy, PartialEq, Eq, Structural, Debug)]
pub enum TalkGroup {
    /// No concrete group assigned; the state when parked on the control channel.
    Default,
    /// A concrete numeric group identifier.
    Other(u16),
}

impl TalkGroup {
    /// Meaning of a raw 16-bit group field: zero selects the default group.
    pub open spec fn spec_from_raw(raw: u16) -> TalkGroup {
        if raw == 0 {
            TalkGroup::Default
        } else {
            TalkGroup::Other(raw)
        }
    }

    /// Decode a raw 16-bit group field.
    pub fn from_raw(raw: u16) -> (tg: TalkGroup)
        ensures
            tg == TalkGroup::spec_from_raw(raw),
    {
        if raw == 0 {
            TalkGroup::Default
        } else {
            TalkGroup::Other(raw)
        }
    }
}

/// A logical channel reference: a 4-bit parameter-table index and a 12-bit
/// channel number, packed into one 16-bit field.
#[derive(Clone, Copy, PartialEq, Eq, Structural, Debug)]
pub struct Channel(pub u16);

impl Channel {
    /// Table index selecting the channel's parameter entry (upper 4 bits).
    pub open spec fn spec_id(self) -> u16 {
        self.0 >> 12
    }

    /// Channel number within the parameter entry's band (lower 12 bits).
    pub open spec fn spec_number(self) -> u16 {
        self.0 & 0xFFF
    }

    pub fn id(self) -> (id: u16)
        ensures
            id == self.spec_id(),
            id < 16,
    {
        proof {
            lemma_channel_bounds(self);
        }
        self.0 >> 12
    }

    pub fn number(self) -> (number: u16)
        ensures
            number == self.spec_number(),
            number < 4096,
    {
        proof {
            lemma_channel_bounds(self);
        }
        self.0 & 0xFFF
    }
}

/// The table index is 4 bits and the channel number 12 bits.
pub proof fn lemma_channel_bounds(ch: Channel)
    ensures
        ch.spec_id() < 16,
        ch.spec_number() < 4096,
{
    let raw = ch.0;
    assert(raw >> 12 < 16) by (bit_vector);
    assert(raw & 0xFFF < 4096) by (bit_vector);
}

/// Frequency-computation parameters for one table entry: a base frequency and
/// an inter-channel spacing, both in the receiver's frequency units.
#[derive(Clone, Copy, PartialEq, Eq, Structural, Debug)]
pub struct ChannelParams {
    pub base: u32,
    pub spacing: u32,
}

impl ChannelParams {
    /// Well-formed parameters keep every computable channel frequency (the
    /// channel number is at most 4095) within the 32-bit frequency type.
    pub open spec fn wf(self) -> bool {
        self.base + self.spacing * 4095 <= u32::MAX
    }

    /// The receive frequency implied by these parameters for a channel number.
    pub open spec fn spec_rx_freq(self, number: u16) -> u32 {
        (self.base + self.spacing * number) as u32
    }

    pub fn rx_freq(self, number: u16) -> (freq: u32)
        requires
            self.wf(),
            number < 4096,
        ensures
            freq == self.spec_rx_freq(number),
            freq == self.base + self.spacing * number,
    {
        proof {
            assert(self.spacing * number <= self.spacing * 4095) by (nonlinear_arith)
                requires
                    number < 4096,
            ;
        }
        self.base + self.spacing * (number as u32)
    }
}

/// Fixed-size table mapping 4-bit channel identifiers to their frequency
/// parameters. Entries start absent and are only ever overwritten, never
/// removed, once learned from a channel parameters update.
pub struct ChannelParamsMap {
    pub entries: Vec<Option<ChannelParams>>,
}

impl ChannelParamsMap {
    /// The table always has one entry slot per 4-bit identifier, and every
    /// learned entry is well formed.
    pub open spec fn wf(self) -> bool {
        &&& self.entries@.len() == 16
        &&& forall|i: int|
            0 <= i < 16 ==> (#[trigger] self.entries@[i] matches Some(p) ==> p.wf())
    }

    /// The frequency the table implies for a channel: present exactly when the
    /// channel's identifier has a learned entry.
    pub open spec fn spec_lookup(self, ch: Channel) -> Option<u32> {
        match self.entries@[ch.spec_id() as int] {
            Some(p) => Some(p.spec_rx_freq(ch.spec_number())),
            None => None,
        }
    }

    /// An empty table: every identifier is unknown.
    pub fn new() -> (m: ChannelParamsMap)
        ensures
            m.wf(),
            forall|i: int| 0 <= i < 16 ==> #[trigger] m.entries@[i] is None,
    {
        let mut entries: Vec<Option<ChannelParams>> = Vec::new();
        let mut i: usize = 0;
        while i < 16
            invariant
                i <= 16,
                entries@.len() == i,
                forall|j: int| 0 <= j < i ==> #[trigger] entries@[j] is None,
            decreases 16 - i,
        {
            entries.push(None);
            i = i + 1;
        }
        ChannelParamsMap { entries }
    }

    /// Overwrite the entry at `id`. An identifier outside the fixed range is a
    /// caller contract violation, not a runtime error.
    pub fn set(&mut self, id: u16, params: ChannelParams)
        requires
            old(self).wf(),
            id < 16,
            params.wf(),
        ensures
            final(self).wf(),
            final(self).entries@ == old(self).entries@.update(id as int, Some(params)),
    {
        self.entries[id as usize] = Some(params);
    }

    /// The computed receive frequency for a channel, if and only if the
    /// channel's identifier has a learned entry.
    pub fn lookup_frequency(&self, ch: Channel) -> (freq: Option<u32>)
        requires
            self.wf(),
        ensures
            freq == self.spec_lookup(ch),
    {
        let id = ch.id();
        match &self.entries[id as usize] {
            Some(p) => Some(p.rx_freq(ch.number())),
            None => None,
        }
    }
}

/// Law: the table answers exactly for learned identifiers. After learning
/// `(id, p)`, a channel with identifier `id` resolves to the frequency implied
/// by `p` and the channel's number; other identifiers resolve as before.
pub proof fn lemma_lookup_after_set(
    m: ChannelParamsMap,
    m2: ChannelParamsMap,
    id: u16,
    p: ChannelParams,
    ch: Channel,
)
    requires
        m.wf(),
        id < 16,
        p.wf(),
        m2.entries@ == m.entries@.update(id as int, Some(p)),
    ensures
        ch.spec_id() == id ==> m2.spec_lookup(ch) == Some(p.spec_rx_freq(ch.spec_number())),
        ch.spec_id() != id ==> m2.spec_lookup(ch) == m.spec_lookup(ch),
{
    lemma_channel_bounds(ch);
}

/// Law: a channel whose identifier has no learned entry cannot resolve: the
/// lookup fails.
pub proof fn lemma_lookup_unlearned(m: ChannelParamsMap, ch: Channel)
    requires
        m.wf(),
        m.entries@[ch.spec_id() as int] is None,
    ensures
        m.spec_lookup(ch) is None,
{
}

/// The 16-bit big-endian field starting at byte `i` of a payload.
pub open spec fn spec_be16(b: Seq<u8>, i: int) -> int {
    b[i] * 256 + b[i + 1]
}

/// Read the 16-bit big-endian field starting at byte `i` of a payload.
pub fn read_be16(b: &Vec<u8>, i: usize) -> (r: u16)
    requires
        i + 1 < b@.len(),
    ensures
        r == spec_be16(b@, i as int),
{
    let n = b.len();
    assert(i + 1 < n);
    (b[i] as u16) * 256 + (b[i + 1] as u16)
}

/// A group traffic update lists exactly two (channel, talkgroup) pairs, each a
/// pair of 16-bit big-endian fields, in the order the network sent them.
pub fn decode_group_traffic(payload: &Vec<u8>) -> (updates: Vec<(Channel, TalkGroup)>)
    requires
        payload@.len() == 8,
    ensures
        updates@.len() == 2,
        updates@[0].0 == Channel(spec_be16(payload@, 0) as u16),
        updates@[0].1 == TalkGroup::spec_from_raw(spec_be16(payload@, 2) as u16),
        updates@[1].0 == Channel(spec_be16(payload@, 4) as u16),
        updates@[1].1 == TalkGroup::spec_from_raw(spec_be16(payload@, 6) as u16),
{
    let mut updates: Vec<(Channel, TalkGroup)> = Vec::new();
    updates.push((Channel(read_be16(payload, 0)), TalkGroup::from_raw(read_be16(payload, 2))));
    updates.push((Channel(read_be16(payload, 4)), TalkGroup::from_raw(read_be16(payload, 6))));
    updates
}

/// The table identifier field of a channel parameters update: the top 4 bits.
pub open spec fn spec_id_field(b: Seq<u8>) -> u16 {
    (b[0] >> 4) as u16
}

/// The raw channel spacing field: 10 bits ending at bit 32, in units of 125.
pub open spec fn spec_spacing_field(b: Seq<u8>) -> int {
    (b[2] & 3) * 256 + b[3]
}

/// The raw base frequency field: the last 32 bits, big endian, in units of 5.
pub open spec fn spec_base_field(b: Seq<u8>) -> int {
    b[4] * 0x1000000 + b[5] * 0x10000 + b[6] * 256 + b[7]
}

/// Whether the scaled parameters of an update keep every computable channel
/// frequency within the 32-bit frequency type.
pub open spec fn spec_params_fit(b: Seq<u8>) -> bool {
    spec_base_field(b) * 5 + spec_spacing_field(b) * 125 * 4095 <= u32::MAX
}

/// The well-formed parameters implied by an update whose fields fit.
pub open spec fn spec_decoded_params(b: Seq<u8>) -> ChannelParams {
    ChannelParams {
        base: (spec_base_field(b) * 5) as u32,
        spacing: (spec_spacing_field(b) * 125) as u32,
    }
}

/// A channel parameters update carries a 4-bit table identifier, a 10-bit
/// channel spacing in 125-unit steps and a 32-bit base frequency in 5-unit
/// steps. An update whose scaled fields could overflow the 32-bit frequency
/// type on some channel number is rejected as malformed.
pub fn decode_channel_params(payload: &Vec<u8>) -> (r: Option<(u16, ChannelParams)>)
    requires
        payload@.len() == 8,
    ensures
        match r {
            Some(dec) => {
                &&& spec_params_fit(payload@)
                &&& dec.0 == spec_id_field(payload@)
                &&& dec.0 < 16
                &&& dec.1 == spec_decoded_params(payload@)
                &&& dec.1.wf()
            },
            None => !spec_params_fit(payload@),
        },
{
    let b0 = payload[0];
    let id = b0 >> 4;
    assert(b0 >> 4 < 16) by (bit_vector);
    let spacing_raw = ((payload[2] & 3) as u32) * 256 + (payload[3] as u32);
    let base_raw = (payload[4] as u32) * 0x1000000 + (payload[5] as u32) * 0x10000 + (payload[6]
        as u32) * 256 + (payload[7] as u32);
    let base = (base_raw as u64) * 5;
    let spacing = (spacing_raw as u64) * 125;
    if base + spacing * 4095 <= u32::MAX as u64 {
        let params = ChannelParams { base: base as u32, spacing: spacing as u32 };
        Some((id as u16, params))
    } else {
        None
    }
}

} // verus!
