//! Decoded message events handed to the core by the physical-layer decoder,
//! and the typed actions the core emits toward the tuner, status display,
//! audio output and decoder in return.

use vstd::prelude::*;

use crate::fields::TalkGroup;

verus! {

/// Data-unit tag carried by a packet boundary marker.
#[derive(Clone, Copy, PartialEq, Eq, Structural, Debug)]
pub enum DataUnit {
    VoiceHeader,
    VoiceSimpleTerminator,
    VoiceLCFrameGroup,
    VoiceCCFrameGroup,
    VoiceLCTerminator,
    TrunkingSignaling,
    DataPacket,
}

impl DataUnit {
    /// Both terminator sub-types mark the end of a voice transmission.
    pub open spec fn spec_is_voice_end(self) -> bool {
        self == DataUnit::VoiceSimpleTerminator || self == DataUnit::VoiceLCTerminator
    }

    pub fn is_voice_end(self) -> (r: bool)
        ensures
            r == self.spec_is_voice_end(),
    {
        match self {
            DataUnit::VoiceSimpleTerminator | DataUnit::VoiceLCTerminator => true,
            _ => false,
        }
    }
}

/// Crypto algorithm tag carried inside voice headers and crypto control
/// blocks; anything other than `Unencrypted` marks encrypted traffic.
#[derive(Clone, Copy, PartialEq, Eq, Structural, Debug)]
pub enum CryptoAlgorithm {
    Unencrypted,
    Des,
    TripleDes,
    Aes,
    Other(u8),
}

/// Trunking signaling opcodes the core recognizes. Only the group traffic
/// update and the channel parameters update are acted on; the rest are
/// recognized and ignored.
#[derive(Clone, Copy, PartialEq, Eq, Structural, Debug)]
pub enum TsbkOpcode {
    GroupVoiceGrant,
    GroupVoiceUpdate,
    UnitVoiceGrant,
    RfssStatusBroadcast,
    NetworkStatusBroadcast,
    AdjacentSite,
    ChannelParamsUpdate,
}

/// Meaning of a raw 6-bit opcode field: `None` for unrecognized values.
pub open spec fn spec_opcode_from(raw: u8) -> Option<TsbkOpcode> {
    if raw == 0x00 {
        Some(TsbkOpcode::GroupVoiceGrant)
    } else if raw == 0x02 {
        Some(TsbkOpcode::GroupVoiceUpdate)
    } else if raw == 0x04 {
        Some(TsbkOpcode::UnitVoiceGrant)
    } else if raw == 0x3A {
        Some(TsbkOpcode::RfssStatusBroadcast)
    } else if raw == 0x3B {
        Some(TsbkOpcode::NetworkStatusBroadcast)
    } else if raw == 0x3C {
        Some(TsbkOpcode::AdjacentSite)
    } else if raw == 0x3D {
        Some(TsbkOpcode::ChannelParamsUpdate)
    } else {
        None
    }
}

/// Decode a raw opcode field.
pub fn opcode_from(raw: u8) -> (r: Option<TsbkOpcode>)
    ensures
        r == spec_opcode_from(raw),
{
    if raw == 0x00 {
        Some(TsbkOpcode::GroupVoiceGrant)
    } else if raw == 0x02 {
        Some(TsbkOpcode::GroupVoiceUpdate)
    } else if raw == 0x04 {
        Some(TsbkOpcode::UnitVoiceGrant)
    } else if raw == 0x3A {
        Some(TsbkOpcode::RfssStatusBroadcast)
    } else if raw == 0x3B {
        Some(TsbkOpcode::NetworkStatusBroadcast)
    } else if raw == 0x3C {
        Some(TsbkOpcode::AdjacentSite)
    } else if raw == 0x3D {
        Some(TsbkOpcode::ChannelParamsUpdate)
    } else {
        None
    }
}

/// A trunking signaling block as delivered by the decoder: manufacturer code,
/// the physical layer's integrity verdict, the raw opcode and the 8 payload
/// bytes.
pub struct TsbkFields {
    pub mfg: u8,
    pub crc_ok: bool,
    pub opcode: u8,
    pub payload: Vec<u8>,
}

impl TsbkFields {
    /// The decoder always delivers an 8-byte payload.
    pub open spec fn wf(self) -> bool {
        self.payload@.len() == 8
    }
}

/// One decoded message event, produced by the physical-layer decoder for at
/// most one sample each.
pub enum MessageEvent {
    /// A decode-local error: recovered silently.
    Error,
    /// A packet boundary marker tagged with its data unit.
    PacketNid(DataUnit),
    /// A voice header carrying a crypto algorithm field.
    VoiceHeader(CryptoAlgorithm),
    /// A link control word: ignored by the core.
    LinkControl,
    /// A crypto control block carrying a crypto algorithm field.
    CryptoControl(CryptoAlgorithm),
    /// A low-speed data fragment: ignored by the core.
    LowSpeedDataFragment,
    /// A playable voice frame, forwarded verbatim to the audio subsystem.
    VoiceFrame,
    /// A trunking signaling block.
    TrunkingControl(TsbkFields),
    /// A voice terminator on the non-"voice ended" path: ignored by the core.
    VoiceTerm,
}

impl MessageEvent {
    pub open spec fn wf(self) -> bool {
        match self {
            MessageEvent::TrunkingControl(tsbk) => tsbk.wf(),
            _ => true,
        }
    }
}

/// One outbound notification or decoder directive, emitted in delivery order.
#[derive(Clone, Copy, PartialEq, Eq, Structural, Debug)]
pub enum Action {
    /// Show the new receive frequency on the status display.
    UiSetFreq(u32),
    /// Show the newly followed talkgroup on the status display.
    UiSetTalkGroup(TalkGroup),
    /// Retune the radio hardware.
    SdrSetFreq(u32),
    /// Hand the voice frame that produced this event to the audio output.
    AudioVoiceFrame,
    /// Tell the audio output that the transmission ended.
    AudioEndTransmission,
    /// Force the decoder to resynchronize after a retune.
    Resync,
}

} // verus!
