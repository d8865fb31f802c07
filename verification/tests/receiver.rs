use p25rx::fields::{Channel, ChannelParams, TalkGroup};
use p25rx::message::{Action, CryptoAlgorithm, DataUnit, MessageEvent, TsbkFields};
use p25rx::recv::{P25Receiver, WriteSamples};

const CONTROL_FREQ: u32 = 851_062_500;

/// A receiver parked on a control frequency that has learned the parameters
/// for table entry 2.
fn parked_receiver() -> P25Receiver {
    let mut rx = P25Receiver::new();
    rx.set_control_freq(CONTROL_FREQ);
    rx.channels.set(2, ChannelParams { base: 852_000_000, spacing: 12_500 });
    rx
}

fn group_update(payload: Vec<u8>) -> MessageEvent {
    MessageEvent::TrunkingControl(TsbkFields { mfg: 0, crc_ok: true, opcode: 0x02, payload })
}

#[test]
fn ignored_events_change_nothing() {
    let mut rx = parked_receiver();
    for event in [
        MessageEvent::Error,
        MessageEvent::LinkControl,
        MessageEvent::LowSpeedDataFragment,
        MessageEvent::VoiceTerm,
        MessageEvent::PacketNid(DataUnit::TrunkingSignaling),
        MessageEvent::PacketNid(DataUnit::VoiceHeader),
    ] {
        let actions = rx.handle_message(event);
        assert!(actions.is_empty());
    }
    assert_eq!(rx.cur_talkgroup, TalkGroup::Default);
    assert_eq!(rx.control_freq, CONTROL_FREQ);
}

#[test]
fn voice_frame_is_forwarded() {
    let mut rx = parked_receiver();
    let actions = rx.handle_message(MessageEvent::VoiceFrame);
    assert_eq!(actions, vec![Action::AudioVoiceFrame]);
}

#[test]
fn voice_ended_returns_to_control_with_one_eot() {
    // Regardless of prior state: try both while parked and while following.
    let mut rx = parked_receiver();
    for terminator in [DataUnit::VoiceLCTerminator, DataUnit::VoiceSimpleTerminator] {
        let actions = rx.handle_message(MessageEvent::PacketNid(terminator));
        assert_eq!(
            actions,
            vec![
                Action::UiSetFreq(CONTROL_FREQ),
                Action::SdrSetFreq(CONTROL_FREQ),
                Action::AudioEndTransmission,
                Action::Resync,
            ]
        );
        let eots = actions.iter().filter(|a| **a == Action::AudioEndTransmission).count();
        assert_eq!(eots, 1);
    }

    // Now while following a traffic channel.
    let payload = vec![0x20, 0x14, 0x00, 0xC8, 0x00, 0x00, 0x00, 0x00];
    rx.handle_message(group_update(payload));
    assert_eq!(rx.cur_talkgroup, TalkGroup::Other(0xC8));
    let actions = rx.handle_message(MessageEvent::PacketNid(DataUnit::VoiceLCTerminator));
    let eots = actions.iter().filter(|a| **a == Action::AudioEndTransmission).count();
    assert_eq!(eots, 1);
    assert_eq!(actions[0], Action::UiSetFreq(CONTROL_FREQ));
    assert_eq!(actions[1], Action::SdrSetFreq(CONTROL_FREQ));
}

#[test]
fn group_update_skips_unknown_channel_and_follows_second_pair() {
    let mut rx = parked_receiver();
    // chA has id 1 (unlearned), chB has id 2 (learned); g2 is not encrypted.
    let payload = vec![0x10, 0x0A, 0x00, 0x65, 0x20, 0x14, 0x00, 0xC8];
    let actions = rx.handle_message(group_update(payload));

    let expected_freq = 852_000_000 + 12_500 * 0x014;
    assert_eq!(
        actions,
        vec![
            Action::UiSetFreq(expected_freq),
            Action::SdrSetFreq(expected_freq),
            Action::UiSetTalkGroup(TalkGroup::Other(0xC8)),
            Action::Resync,
        ]
    );
    assert_eq!(rx.cur_talkgroup, TalkGroup::Other(0xC8));
}

#[test]
fn group_update_follows_first_usable_pair() {
    let mut rx = parked_receiver();
    // Both channels known: the first pair wins even though the second is valid.
    let payload = vec![0x20, 0x0A, 0x00, 0x65, 0x20, 0x14, 0x00, 0xC8];
    let actions = rx.handle_message(group_update(payload));
    let expected_freq = 852_000_000 + 12_500 * 0x00A;
    assert_eq!(actions[0], Action::UiSetFreq(expected_freq));
    assert_eq!(actions[2], Action::UiSetTalkGroup(TalkGroup::Other(0x65)));
    assert_eq!(rx.cur_talkgroup, TalkGroup::Other(0x65));
}

#[test]
fn group_update_with_no_usable_pair_changes_nothing() {
    let mut rx = parked_receiver();
    // Both channel ids unlearned.
    let payload = vec![0x10, 0x0A, 0x00, 0x65, 0x30, 0x14, 0x00, 0xC8];
    let actions = rx.handle_message(group_update(payload));
    assert!(actions.is_empty());
    assert_eq!(rx.cur_talkgroup, TalkGroup::Default);
}

#[test]
fn use_talkgroup_switches_between_groups_without_comparing() {
    let mut rx = parked_receiver();
    let mut actions = Vec::new();
    assert!(rx.use_talkgroup(TalkGroup::Other(0x65), Channel(0x200A), &mut actions));
    assert_eq!(rx.cur_talkgroup, TalkGroup::Other(0x65));

    // Already following: a new usable pair always switches.
    let mut actions = Vec::new();
    assert!(rx.use_talkgroup(TalkGroup::Other(0xC8), Channel(0x2014), &mut actions));
    assert_eq!(rx.cur_talkgroup, TalkGroup::Other(0xC8));
}

#[test]
fn crypto_detection_bails_to_control_and_blocks_group() {
    let mut rx = parked_receiver();
    let payload = vec![0x20, 0x14, 0x00, 0xC8, 0x00, 0x00, 0x00, 0x00];
    rx.handle_message(group_update(payload));
    assert_eq!(rx.cur_talkgroup, TalkGroup::Other(0xC8));

    let actions = rx.handle_message(MessageEvent::CryptoControl(CryptoAlgorithm::Des));
    // (1) retune to the stored control frequency,
    assert_eq!(
        actions,
        vec![
            Action::UiSetFreq(CONTROL_FREQ),
            Action::SdrSetFreq(CONTROL_FREQ),
            Action::Resync,
        ]
    );
    // (2) the group id is now in the encrypted set,
    assert!(rx.encrypted.contains(&0xC8));
    // (3) the channel parameter table is untouched.
    assert_eq!(
        rx.channels.lookup_frequency(Channel(0x2014)),
        Some(852_000_000 + 12_500 * 0x014)
    );
}

#[test]
fn encrypted_group_is_never_followed_again() {
    let mut rx = parked_receiver();
    let payload = vec![0x20, 0x14, 0x00, 0xC8, 0x00, 0x00, 0x00, 0x00];
    rx.handle_message(group_update(payload));
    rx.handle_message(MessageEvent::VoiceHeader(CryptoAlgorithm::Aes));
    assert!(rx.encrypted.contains(&0xC8));

    // Direct attempts fail on a perfectly valid channel.
    let mut actions = Vec::new();
    assert!(!rx.use_talkgroup(TalkGroup::Other(0xC8), Channel(0x2014), &mut actions));
    assert!(actions.is_empty());
    // The failed attempt changes nothing; the crypto transition itself had
    // left the followed group in place.
    assert_eq!(rx.cur_talkgroup, TalkGroup::Other(0xC8));

    // A group update listing the blocked group first falls through to the
    // second pair.
    let payload = vec![0x20, 0x14, 0x00, 0xC8, 0x20, 0x0A, 0x00, 0x65];
    let actions = rx.handle_message(group_update(payload));
    assert_eq!(rx.cur_talkgroup, TalkGroup::Other(0x65));
    assert_eq!(actions[2], Action::UiSetTalkGroup(TalkGroup::Other(0x65)));

    // Another crypto hit while following a different group does not unblock.
    rx.handle_message(MessageEvent::CryptoControl(CryptoAlgorithm::Other(0x81)));
    assert!(rx.encrypted.contains(&0xC8));
    assert!(rx.encrypted.contains(&0x65));
}

#[test]
fn unencrypted_crypto_field_is_ignored() {
    let mut rx = parked_receiver();
    let actions = rx.handle_message(MessageEvent::VoiceHeader(CryptoAlgorithm::Unencrypted));
    assert!(actions.is_empty());
    assert!(rx.encrypted.is_empty());
}

#[test]
fn crypto_while_parked_blocks_nothing() {
    let mut rx = parked_receiver();
    let actions = rx.handle_message(MessageEvent::CryptoControl(CryptoAlgorithm::TripleDes));
    // Still bails to control, but there is no concrete group to remember.
    assert_eq!(actions.len(), 3);
    assert!(rx.encrypted.is_empty());
}

#[test]
fn rejected_blocks_mutate_nothing() {
    // A payload that would otherwise decode to a valid group update.
    let follow_payload = vec![0x20, 0x14, 0x00, 0xC8, 0x00, 0x00, 0x00, 0x00];
    // And one that would otherwise learn table entry 5.
    let params_payload = vec![0x50, 0x00, 0x00, 0x64, 0x0A, 0x21, 0xFE, 0x80];

    for (mfg, crc_ok, opcode) in [
        (0x90u8, true, 0x02u8),  // non-zero manufacturer code
        (0x00, false, 0x02),     // failing integrity check
        (0x00, true, 0x3F),      // unrecognized opcode
        (0x00, true, 0x00),      // recognized but ignored opcode
    ] {
        let mut rx = parked_receiver();
        let actions = rx.handle_message(MessageEvent::TrunkingControl(TsbkFields {
            mfg,
            crc_ok,
            opcode,
            payload: follow_payload.clone(),
        }));
        assert!(actions.is_empty());
        assert_eq!(rx.cur_talkgroup, TalkGroup::Default);
        assert!(rx.encrypted.is_empty());

        let mut rx = parked_receiver();
        let opcode = if opcode == 0x02 { 0x3D } else { opcode };
        let actions = rx.handle_message(MessageEvent::TrunkingControl(TsbkFields {
            mfg,
            crc_ok,
            opcode,
            payload: params_payload.clone(),
        }));
        assert!(actions.is_empty());
        assert_eq!(rx.channels.lookup_frequency(Channel(0x5000)), None);
    }
}

#[test]
fn channel_params_update_learns_entry() {
    let mut rx = parked_receiver();
    let payload = vec![0x50, 0x00, 0x00, 0x64, 0x0A, 0x21, 0xFE, 0x80];
    let actions = rx.handle_message(MessageEvent::TrunkingControl(TsbkFields {
        mfg: 0,
        crc_ok: true,
        opcode: 0x3D,
        payload,
    }));
    assert!(actions.is_empty());
    assert_eq!(
        rx.channels.lookup_frequency(Channel(0x5003)),
        Some(850_000_000 + 12_500 * 3)
    );
}

#[test]
fn set_control_freq_defers_until_next_return_to_control() {
    let mut rx = parked_receiver();
    let payload = vec![0x20, 0x14, 0x00, 0xC8, 0x00, 0x00, 0x00, 0x00];
    rx.handle_message(group_update(payload));
    assert_eq!(rx.cur_talkgroup, TalkGroup::Other(0xC8));

    // While following: the command only stores the frequency; it emits no
    // retune and leaves the followed group alone.
    let new_freq = 859_987_500;
    rx.set_control_freq(new_freq);
    assert_eq!(rx.control_freq, new_freq);
    assert_eq!(rx.cur_talkgroup, TalkGroup::Other(0xC8));

    // The next return-to-control transition targets the new frequency.
    let actions = rx.handle_message(MessageEvent::PacketNid(DataUnit::VoiceSimpleTerminator));
    assert_eq!(actions[0], Action::UiSetFreq(new_freq));
    assert_eq!(actions[1], Action::SdrSetFreq(new_freq));
}

#[test]
fn new_receiver_starts_parked_at_zero() {
    let rx = P25Receiver::new();
    assert_eq!(rx.control_freq, 0);
    assert_eq!(rx.cur_talkgroup, TalkGroup::Default);
    assert!(rx.encrypted.is_empty());
    for id in 0..16u16 {
        assert_eq!(rx.channels.lookup_frequency(Channel(id << 12)), None);
    }
}

#[test]
fn write_samples_wraps_stream() {
    let sink: Vec<u8> = Vec::new();
    let ws = WriteSamples::new(sink);
    assert!(ws.stream.is_empty());
}
