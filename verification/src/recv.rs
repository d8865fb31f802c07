//! The trunking state machine: holds the control frequency, the channel
//! parameter table, the followed talkgroup and the encrypted-group set, and
//! turns each decoded message event into the actions the surrounding process
//! must deliver to the tuner, status display, audio output and decoder.

use vstd::prelude::*;

use std::collections::HashSet;

use crate::fields::{Channel, ChannelParamsMap, TalkGroup};
use crate::fields::{
    spec_be16, spec_decoded_params, spec_id_field, spec_params_fit, decode_channel_params,
    decode_group_traffic,
};
use crate::message::{Action, CryptoAlgorithm, MessageEvent, TsbkFields, TsbkOpcode};
use crate::message::{opcode_from, spec_opcode_from};

verus! {

broadcast use vstd::std_specs::hash::group_hash_axioms;

/// The two notifications every retune sends: the status display first, then
/// the radio hardware, both targeting the same frequency.
pub open spec fn retune_actions(freq: u32) -> Seq<Action> {
    seq![Action::UiSetFreq(freq), Action::SdrSetFreq(freq)]
}

/// The actions of the return-to-control transition taken for a "voice ended"
/// terminator: retune to the stored control frequency, notify the audio
/// output once that the transmission ended, and resynchronize the decoder.
pub open spec fn voice_ended_actions(control_freq: u32) -> Seq<Action> {
    retune_actions(control_freq) + seq![Action::AudioEndTransmission, Action::Resync]
}

/// A concrete group is blocked once its identifier is in the encrypted set;
/// the default group is never blocked.
pub open spec fn tg_blocked(encrypted: Set<u16>, tg: TalkGroup) -> bool {
    match tg {
        TalkGroup::Other(x) => encrypted.contains(x),
        TalkGroup::Default => false,
    }
}

/// Diagnostic sink that discards the sample batches handed to it; the default
/// when no diagnostic output was requested.
pub struct NopExtra;

/// State of the diagnostic sink that serializes each processed sample batch
/// verbatim to an output stream.
pub struct WriteSamples<W> {
    /// The output stream the raw sample bytes are written to.
    pub stream: W,
}

impl<W> WriteSamples<W> {
    /// Wrap an output stream as a diagnostic sink.
    pub fn new(stream: W) -> (r: WriteSamples<W>)
        ensures
            r.stream == stream,
    {
        WriteSamples { stream }
    }
}

/// Receiver session state, mutated only through the transitions below.
pub struct P25Receiver {
    /// Last-known control channel frequency; 0 until first set.
    pub control_freq: u32,
    /// The channel parameter table learned from control messages.
    pub channels: ChannelParamsMap,
    /// The group whose traffic channel the tuner is presently on, or
    /// `Default` when parked on the control frequency.
    pub cur_talkgroup: TalkGroup,
    /// Group identifiers observed to carry encrypted voice; grows
    /// monotonically and is never pruned within a session.
    pub encrypted: HashSet<u16>,
}

impl P25Receiver {
    pub open spec fn wf(self) -> bool {
        self.channels.wf()
    }

    /// A candidate pair can be followed exactly when its group is not known
    /// encrypted and its channel's frequency is known.
    pub open spec fn spec_usable(self, tg: TalkGroup, ch: Channel) -> bool {
        &&& !tg_blocked(self.encrypted@, tg)
        &&& self.channels.spec_lookup(ch) is Some
    }

    /// Everything but the followed talkgroup is as in `pre`.
    pub open spec fn same_but_talkgroup(self, pre: P25Receiver) -> bool {
        &&& self.control_freq == pre.control_freq
        &&& self.channels == pre.channels
        &&& self.encrypted@ == pre.encrypted@
    }

    /// A fresh receiver: parked, control frequency 0, nothing learned.
    pub fn new() -> (r: P25Receiver)
        ensures
            r.wf(),
            r.control_freq == 0,
            r.cur_talkgroup == TalkGroup::Default,
            r.encrypted@ == Set::<u16>::empty(),
            forall|i: int| 0 <= i < 16 ==> #[trigger] r.channels.entries@[i] is None,
    {
        P25Receiver {
            control_freq: 0,
            channels: ChannelParamsMap::new(),
            cur_talkgroup: TalkGroup::Default,
            encrypted: HashSet::new(),
        }
    }

    /// Record a new control frequency. This command retunes nothing by
    /// itself: the new value is used by the next return-to-control
    /// transition.
    pub fn set_control_freq(&mut self, freq: u32)
        requires
            old(self).wf(),
        ensures
            final(self).wf(),
            final(self).control_freq == freq,
            final(self).channels == old(self).channels,
            final(self).cur_talkgroup == old(self).cur_talkgroup,
            final(self).encrypted@ == old(self).encrypted@,
    {
        self.control_freq = freq;
    }

    /// Emit the retune notifications for `freq`, status display first.
    fn set_freq(&self, freq: u32, actions: &mut Vec<Action>)
        ensures
            final(actions)@ == old(actions)@ + retune_actions(freq),
    {
        actions.push(Action::UiSetFreq(freq));
        actions.push(Action::SdrSetFreq(freq));
        proof {
            assert(final(actions)@ =~= old(actions)@ + retune_actions(freq));
        }
    }

    /// Return-to-control: retune to the stored control frequency.
    fn switch_control(&self, actions: &mut Vec<Action>)
        ensures
            final(actions)@ == old(actions)@ + retune_actions(self.control_freq),
    {
        self.set_freq(self.control_freq, actions);
    }

    /// Try to follow a candidate (talkgroup, channel) pair. Fails, changing
    /// nothing and emitting nothing, when the group is known encrypted or the
    /// channel's frequency is unknown; otherwise switches the followed group
    /// unconditionally and retunes to the computed frequency.
    pub fn use_talkgroup(&mut self, tg: TalkGroup, ch: Channel, actions: &mut Vec<Action>) -> (followed: bool)
        requires
            old(self).wf(),
        ensures
            final(self).wf(),
            followed == old(self).spec_usable(tg, ch),
            final(self).same_but_talkgroup(*old(self)),
            !followed ==> *final(self) == *old(self) && *final(actions) == *old(actions),
            followed ==> final(self).cur_talkgroup == tg && final(actions)@ == old(actions)@
                + retune_actions(old(self).channels.spec_lookup(ch)->Some_0) + seq![
                Action::UiSetTalkGroup(tg),
            ],
    {
        match tg {
            TalkGroup::Other(x) => {
                if self.encrypted.contains(&x) {
                    return false;
                }
            },
            TalkGroup::Default => {},
        }
        let freq = match self.channels.lookup_frequency(ch) {
            Some(f) => f,
            None => {
                return false;
            },
        };
        self.cur_talkgroup = tg;
        self.set_freq(freq, actions);
        actions.push(Action::UiSetTalkGroup(tg));
        proof {
            assert(final(actions)@ =~= old(actions)@ + retune_actions(
                old(self).channels.spec_lookup(ch)->Some_0,
            ) + seq![Action::UiSetTalkGroup(tg)]);
        }
        true
    }

    /// Crypto-detected transition: for any algorithm other than
    /// `Unencrypted`, bail back to the control frequency, resynchronize the
    /// decoder, and remember the followed group (if concrete) as encrypted.
    pub fn handle_crypto(&mut self, alg: CryptoAlgorithm, actions: &mut Vec<Action>)
        requires
            old(self).wf(),
        ensures
            final(self).wf(),
            spec_crypto_step(*old(self), *final(self), alg, old(actions)@, final(actions)@),
    {
        match alg {
            CryptoAlgorithm::Unencrypted => {
                return ;
            },
            _ => {},
        }
        self.switch_control(actions);
        actions.push(Action::Resync);
        match self.cur_talkgroup {
            TalkGroup::Other(x) => {
                self.encrypted.insert(x);
            },
            TalkGroup::Default => {},
        }
        proof {
            assert(final(actions)@ =~= old(actions)@ + retune_actions(old(self).control_freq)
                + seq![Action::Resync]);
        }
    }

    /// Route one decoded message event: the per-event policy of the core.
    /// Returns the actions to deliver, in order, before the next sample is
    /// considered.
    pub fn handle_message(&mut self, event: MessageEvent) -> (actions: Vec<Action>)
        requires
            old(self).wf(),
            event.wf(),
        ensures
            final(self).wf(),
            final(self).control_freq == old(self).control_freq,
            old(self).encrypted@.subset_of(final(self).encrypted@),
            spec_message_step(*old(self), *final(self), event, actions@),
    {
        let mut actions: Vec<Action> = Vec::new();
        match event {
            MessageEvent::Error => {},
            MessageEvent::PacketNid(du) => {
                if du.is_voice_end() {
                    self.switch_control(&mut actions);
                    actions.push(Action::AudioEndTransmission);
                    actions.push(Action::Resync);
                    proof {
                        assert(actions@ =~= voice_ended_actions(old(self).control_freq));
                    }
                }
            },
            MessageEvent::VoiceHeader(alg) => {
                self.handle_crypto(alg, &mut actions);
            },
            MessageEvent::LinkControl => {},
            MessageEvent::CryptoControl(alg) => {
                self.handle_crypto(alg, &mut actions);
            },
            MessageEvent::LowSpeedDataFragment => {},
            MessageEvent::VoiceFrame => {
                actions.push(Action::AudioVoiceFrame);
                proof {
                    assert(actions@ =~= seq![Action::AudioVoiceFrame]);
                }
            },
            MessageEvent::TrunkingControl(tsbk) => {
                self.handle_trunking(&tsbk, &mut actions);
            },
            MessageEvent::VoiceTerm => {},
        }
        actions
    }

    /// Validate a trunking control block and dispatch its opcode. Rejected or
    /// ignored blocks change nothing and emit nothing.
    fn handle_trunking(&mut self, tsbk: &TsbkFields, actions: &mut Vec<Action>)
        requires
            old(self).wf(),
            tsbk.wf(),
            old(actions)@.len() == 0,
        ensures
            final(self).wf(),
            final(self).control_freq == old(self).control_freq,
            old(self).encrypted@.subset_of(final(self).encrypted@),
            spec_trunking_step(*old(self), *final(self), *tsbk, final(actions)@),
    {
        proof {
            assert(old(actions)@ =~= Seq::<Action>::empty());
        }
        if tsbk.mfg != 0 {
            return ;
        }
        if !tsbk.crc_ok {
            return ;
        }
        let opcode = match opcode_from(tsbk.opcode) {
            Some(o) => o,
            None => {
                return ;
            },
        };
        match opcode {
            TsbkOpcode::GroupVoiceUpdate => {
                let updates = decode_group_traffic(&tsbk.payload);
                let (ch0, tg0) = updates[0];
                let (ch1, tg1) = updates[1];
                if self.use_talkgroup(tg0, ch0, actions) {
                    actions.push(Action::Resync);
                    proof {
                        assert(actions@ =~= retune_actions(
                            old(self).channels.spec_lookup(ch0)->Some_0,
                        ) + seq![Action::UiSetTalkGroup(tg0), Action::Resync]);
                    }
                } else if self.use_talkgroup(tg1, ch1, actions) {
                    actions.push(Action::Resync);
                    proof {
                        assert(actions@ =~= retune_actions(
                            old(self).channels.spec_lookup(ch1)->Some_0,
                        ) + seq![Action::UiSetTalkGroup(tg1), Action::Resync]);
                    }
                }
            },
            TsbkOpcode::ChannelParamsUpdate => {
                match decode_channel_params(&tsbk.payload) {
                    Some((id, params)) => {
                        self.channels.set(id, params);
                    },
                    None => {},
                }
            },
            _ => {},
        }
    }
}

/// What the crypto-detected transition does: nothing for unencrypted traffic;
/// otherwise retune to the stored control frequency, resynchronize, and mark
/// the followed group (if concrete) encrypted, touching nothing else.
pub open spec fn spec_crypto_step(
    pre: P25Receiver,
    post: P25Receiver,
    alg: CryptoAlgorithm,
    emitted_pre: Seq<Action>,
    emitted_post: Seq<Action>,
) -> bool {
    if alg == CryptoAlgorithm::Unencrypted {
        post == pre && emitted_post == emitted_pre
    } else {
        &&& emitted_post == emitted_pre + retune_actions(pre.control_freq) + seq![Action::Resync]
        &&& post.control_freq == pre.control_freq
        &&& post.channels == pre.channels
        &&& post.cur_talkgroup == pre.cur_talkgroup
        &&& post.encrypted@ == match pre.cur_talkgroup {
            TalkGroup::Other(x) => pre.encrypted@.insert(x),
            TalkGroup::Default => pre.encrypted@,
        }
    }
}

/// What a successful follow of `(tg, ch)` does: only the followed talkgroup
/// changes, and the emitted actions retune to the channel's computed
/// frequency, announce the group, and resynchronize the decoder.
pub open spec fn spec_followed(
    pre: P25Receiver,
    post: P25Receiver,
    tg: TalkGroup,
    ch: Channel,
    emitted: Seq<Action>,
) -> bool {
    &&& post.same_but_talkgroup(pre)
    &&& post.cur_talkgroup == tg
    &&& emitted == retune_actions(pre.channels.spec_lookup(ch)->Some_0) + seq![
        Action::UiSetTalkGroup(tg),
        Action::Resync,
    ]
}

/// What a group traffic update does: follow the first of its two listed
/// pairs that is usable, in list order, and change nothing when neither is.
pub open spec fn spec_group_update_step(
    pre: P25Receiver,
    post: P25Receiver,
    payload: Seq<u8>,
    emitted: Seq<Action>,
) -> bool {
    let ch0 = Channel(spec_be16(payload, 0) as u16);
    let tg0 = TalkGroup::spec_from_raw(spec_be16(payload, 2) as u16);
    let ch1 = Channel(spec_be16(payload, 4) as u16);
    let tg1 = TalkGroup::spec_from_raw(spec_be16(payload, 6) as u16);
    if pre.spec_usable(tg0, ch0) {
        spec_followed(pre, post, tg0, ch0, emitted)
    } else if pre.spec_usable(tg1, ch1) {
        spec_followed(pre, post, tg1, ch1, emitted)
    } else {
        post == pre && emitted == Seq::<Action>::empty()
    }
}

/// What a channel parameters update does: learn the decoded entry, touching
/// nothing else and emitting nothing; a malformed update changes nothing.
pub open spec fn spec_params_update_step(
    pre: P25Receiver,
    post: P25Receiver,
    payload: Seq<u8>,
    emitted: Seq<Action>,
) -> bool {
    &&& emitted == Seq::<Action>::empty()
    &&& post.control_freq == pre.control_freq
    &&& post.cur_talkgroup == pre.cur_talkgroup
    &&& post.encrypted@ == pre.encrypted@
    &&& if spec_params_fit(payload) {
        post.channels.entries@ == pre.channels.entries@.update(
            spec_id_field(payload) as int,
            Some(spec_decoded_params(payload)),
        )
    } else {
        post == pre
    }
}

/// What a trunking control block does: blocks with a non-zero manufacturer
/// code, a failed integrity check or an unrecognized opcode are dropped with
/// no state change; recognized opcodes other than the two updates are
/// ignored.
pub open spec fn spec_trunking_step(
    pre: P25Receiver,
    post: P25Receiver,
    tsbk: TsbkFields,
    emitted: Seq<Action>,
) -> bool {
    if tsbk.mfg != 0 || !tsbk.crc_ok || spec_opcode_from(tsbk.opcode) is None {
        post == pre && emitted == Seq::<Action>::empty()
    } else {
        match spec_opcode_from(tsbk.opcode)->Some_0 {
            TsbkOpcode::GroupVoiceUpdate => spec_group_update_step(pre, post, tsbk.payload@, emitted),
            TsbkOpcode::ChannelParamsUpdate => spec_params_update_step(
                pre,
                post,
                tsbk.payload@,
                emitted,
            ),
            _ => post == pre && emitted == Seq::<Action>::empty(),
        }
    }
}

/// The routing policy, per event kind: errors, link control, low-speed data
/// and non-ended voice terminators are ignored; a "voice ended" boundary
/// returns to the control channel and ends the audio transmission; crypto
/// fields run the crypto-detected transition; voice frames are forwarded to
/// audio; trunking control blocks are validated and dispatched.
pub open spec fn spec_message_step(
    pre: P25Receiver,
    post: P25Receiver,
    event: MessageEvent,
    emitted: Seq<Action>,
) -> bool {
    match event {
        MessageEvent::Error => post == pre && emitted == Seq::<Action>::empty(),
        MessageEvent::PacketNid(du) => if du.spec_is_voice_end() {
            post == pre && emitted == voice_ended_actions(pre.control_freq)
        } else {
            post == pre && emitted == Seq::<Action>::empty()
        },
        MessageEvent::VoiceHeader(alg) => spec_crypto_step(pre, post, alg, Seq::empty(), emitted),
        MessageEvent::LinkControl => post == pre && emitted == Seq::<Action>::empty(),
        MessageEvent::CryptoControl(alg) => spec_crypto_step(pre, post, alg, Seq::empty(), emitted),
        MessageEvent::LowSpeedDataFragment => post == pre && emitted == Seq::<Action>::empty(),
        MessageEvent::VoiceFrame => post == pre && emitted == seq![Action::AudioVoiceFrame],
        MessageEvent::TrunkingControl(tsbk) => spec_trunking_step(pre, post, tsbk, emitted),
        MessageEvent::VoiceTerm => post == pre && emitted == Seq::<Action>::empty(),
    }
}

/// Law: once a group identifier is in the encrypted set, no candidate pair
/// carrying that group is usable, whatever the channel table holds, so every
/// `use_talkgroup` call for it reports failure.
pub proof fn lemma_encrypted_group_never_followed(s: P25Receiver, ch: Channel, g: u16)
    requires
        s.encrypted@.contains(g),
    ensures
        !s.spec_usable(TalkGroup::Other(g), ch),
{
}

/// Law: an identifier in the encrypted set stays there across every message
/// step: the set is never pruned within a session, so a blocked group can
/// only be retried after a process restart.
pub proof fn lemma_encrypted_persists_across_step(
    pre: P25Receiver,
    post: P25Receiver,
    event: MessageEvent,
    emitted: Seq<Action>,
    g: u16,
)
    requires
        spec_message_step(pre, post, event, emitted),
        pre.encrypted@.contains(g),
    ensures
        post.encrypted@.contains(g),
{
}

/// Law: the encrypted set only grows across transitions, so a blocked group
/// stays blocked in every later state.
pub proof fn lemma_blocked_is_stable(pre: Set<u16>, post: Set<u16>, g: u16)
    requires
        pre.subset_of(post),
        pre.contains(g),
    ensures
        tg_blocked(post, TalkGroup::Other(g)),
{
}

/// Law: a crypto-detected event while a concrete group is followed retunes to
/// the stored control frequency, records that group as encrypted, and leaves
/// the channel parameter table untouched.
pub proof fn lemma_crypto_detected_records_group(
    pre: P25Receiver,
    post: P25Receiver,
    alg: CryptoAlgorithm,
    g: u16,
    emitted: Seq<Action>,
)
    requires
        alg != CryptoAlgorithm::Unencrypted,
        pre.cur_talkgroup == TalkGroup::Other(g),
        spec_crypto_step(pre, post, alg, Seq::empty(), emitted),
    ensures
        emitted == retune_actions(pre.control_freq) + seq![Action::Resync],
        post.encrypted@.contains(g),
        post.channels == pre.channels,
{
    assert(emitted =~= retune_actions(pre.control_freq) + seq![Action::Resync]);
}

/// Number of end-of-transmission notifications in a sequence of actions.
pub open spec fn count_eot(s: Seq<Action>) -> int
    decreases s.len(),
{
    if s.len() == 0 {
        0
    } else {
        count_eot(s.drop_last()) + if s.last() == Action::AudioEndTransmission {
            1int
        } else {
            0int
        }
    }
}

/// Law: the "voice ended" transition retunes to the stored control frequency
/// and notifies the audio output of the end of transmission exactly once,
/// whatever the receiver state.
pub proof fn lemma_voice_ended_single_eot(control_freq: u32)
    ensures
        voice_ended_actions(control_freq).subrange(0, 2) == retune_actions(control_freq),
        count_eot(voice_ended_actions(control_freq)) == 1,
{
    let f = control_freq;
    let s4 = voice_ended_actions(f);
    let s3 = seq![Action::UiSetFreq(f), Action::SdrSetFreq(f), Action::AudioEndTransmission];
    let s2 = retune_actions(f);
    let s1 = seq![Action::UiSetFreq(f)];
    assert(s4.subrange(0, 2) =~= s2);
    assert(s4.drop_last() =~= s3);
    assert(s3.drop_last() =~= s2);
    assert(s2.drop_last() =~= s1);
    assert(s1.drop_last() =~= Seq::<Action>::empty());
    assert(count_eot(Seq::<Action>::empty()) == 0);
    assert(count_eot(s1) == 0);
    assert(count_eot(s2) == 0);
    assert(count_eot(s3) == 1);
    assert(count_eot(s4) == 1);
}

/// Law: a control-frequency change is deferred. It leaves the follow policy
/// untouched (exactly the same pairs stay usable), and takes effect only
/// through a later return-to-control transition, whose retune actions then
/// target the newly stored frequency.
pub proof fn lemma_set_control_freq_defers(
    s: P25Receiver,
    s2: P25Receiver,
    freq: u32,
    tg: TalkGroup,
    ch: Channel,
)
    requires
        s2.control_freq == freq,
        s2.channels == s.channels,
        s2.cur_talkgroup == s.cur_talkgroup,
        s2.encrypted@ == s.encrypted@,
    ensures
        s2.spec_usable(tg, ch) == s.spec_usable(tg, ch),
        voice_ended_actions(s2.control_freq) == retune_actions(freq) + seq![
            Action::AudioEndTransmission,
            Action::Resync,
        ],
{
}

} // verus!
