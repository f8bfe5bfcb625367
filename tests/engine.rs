use std::collections::{HashMap, VecDeque};

use linuxblaster_control::engine::{create_payload, Action, EngineError, Event, Feature, Session, MAX_READ_ATTEMPTS};
use linuxblaster_control::registry::FeatureId;

const ONE: u32 = 0x3f80_0000;

/// A simulated device: generic values by feature byte, the global-profile
/// bitmask and the output route; it answers writes with an ack and
/// queries with the current value.
struct Device {
    generic: HashMap<u8, u32>,
    mask: u8,
    route: u8,
    replies: VecDeque<Vec<u8>>,
    sent: Vec<Vec<u8>>,
    stale_before_each_reply: bool,
    fail_sends_after: Option<usize>,
    mute: bool,
}

fn pad(mut v: Vec<u8>) -> Vec<u8> {
    v.resize(64, 0);
    v
}

impl Device {
    fn new() -> Device {
        Device {
            generic: HashMap::new(),
            mask: 0,
            route: 0x02,
            replies: VecDeque::new(),
            sent: Vec::new(),
            stale_before_each_reply: false,
            fail_sends_after: None,
            mute: false,
        }
    }

    fn receive(&mut self, p: &[u8]) -> bool {
        if let Some(n) = self.fail_sends_after {
            if self.sent.len() >= n {
                return false;
            }
        }
        self.sent.push(p.to_vec());
        assert_eq!(p.len(), 65);
        assert_eq!(p[1], 0x5a);
        let reply = match (p[2], p[4]) {
            (0x12, _) => {
                let bits = u32::from_le_bytes([p[7], p[8], p[9], p[10]]);
                self.generic.insert(p[6], bits);
                pad(vec![0x5a, 0x02, 0x0a, 0x12])
            }
            (0x11, _) => {
                let bits = *self.generic.get(&p[6]).unwrap_or(&0);
                let mut r = vec![0x5a, 0x11, 0x08, 0x01, 0x00, p[5], p[6]];
                r.extend_from_slice(&bits.to_le_bytes());
                pad(r)
            }
            (0x26, 0x07) => {
                if p[7] != 0 {
                    self.mask |= p[5];
                } else {
                    self.mask &= !p[5];
                }
                pad(vec![0x5a, 0x02, 0x0a, 0x26])
            }
            (0x26, 0x08) => pad(vec![0x5a, 0x26, 0x0b, 0x08, 0xff, 0xff, self.mask]),
            (0x2c, 0x00) => {
                self.route = p[5];
                pad(vec![0x5a, 0x02, 0x0a, 0x2c])
            }
            (0x2c, 0x01) => pad(vec![0x5a, 0x2c, 0x05, 0x01, self.route]),
            _ => panic!("unexpected packet {:02x?}", &p[..8]),
        };
        if !self.mute {
            if self.stale_before_each_reply {
                self.replies.push_back(pad(vec![0x5a, 0x11, 0x08, 0x01, 0x00, 0x96, 0x55, 1, 2, 3, 4]));
            }
            self.replies.push_back(reply);
        }
        true
    }
}

fn run(session: &mut Session, dev: &mut Device) -> Result<(), EngineError> {
    let mut event = Event::Ready;
    for _ in 0..100_000 {
        match session.step(event) {
            Action::Transmit(p) => {
                event = if dev.receive(&p) { Event::Sent } else { Event::SendFailed };
            }
            Action::Poll => {
                event = match dev.replies.pop_front() {
                    Some(r) => Event::Received(r),
                    None => Event::Silence,
                };
            }
            Action::Continue => event = Event::Ready,
            Action::Finished(r) => return r,
        }
    }
    panic!("operation did not finish");
}

fn synced(dev: &mut Device) -> Session {
    let mut s = Session::new();
    s.begin_refresh();
    assert_eq!(run(&mut s, dev), Ok(()));
    dev.sent.clear();
    s
}

/// The writes among the packets sent, as (command, address byte, value byte or bits).
fn writes(sent: &[Vec<u8>]) -> Vec<(u8, u8)> {
    sent.iter()
        .filter(|p| p[2] == 0x12 || (p[2] == 0x26 && p[4] == 0x07) || (p[2] == 0x2c && p[4] == 0x00))
        .map(|p| if p[2] == 0x12 { (0x12, p[6]) } else { (p[2], p[5]) })
        .collect()
}

#[test]
fn eq_band_enables_master_then_equalizer_then_writes() {
    let mut dev = Device::new();
    let mut s = synced(&mut dev);
    assert_eq!(s.get(FeatureId::SbxMaster), Ok(0));
    assert_eq!(s.get(FeatureId::EqToggle), Ok(0));

    s.begin_set(FeatureId::Eq1kHz, Some(3.0f32.to_bits())).unwrap();
    assert_eq!(run(&mut s, &mut dev), Ok(()));

    assert_eq!(writes(&dev.sent), vec![(0x26, 0x01), (0x12, 0x09), (0x12, 0x10)]);
    assert_eq!(s.get(FeatureId::Eq1kHz), Ok(3.0f32.to_bits()));
    assert_eq!(s.get(FeatureId::EqToggle), Ok(ONE));
    assert_eq!(s.get(FeatureId::SbxMaster), Ok(ONE));
    assert!(s.is_idle());
    assert_eq!(s.unconfirmed(), 0);
}

#[test]
fn dependency_walk_is_two_enables_deep() {
    let mut dev = Device::new();
    let mut s = synced(&mut dev);
    s.begin_set(FeatureId::SurroundLevel, Some(0.5f32.to_bits())).unwrap();
    assert_eq!(run(&mut s, &mut dev), Ok(()));
    let w = writes(&dev.sent);
    assert_eq!(w.len(), 3);
    assert_eq!(w[0], (0x26, 0x01));
    assert_eq!(w[1], (0x12, 0x00));
    assert_eq!(w[2], (0x12, 0x01));

    // With the dependencies already on, only the target is written.
    dev.sent.clear();
    s.begin_set(FeatureId::SurroundLevel, Some(0.25f32.to_bits())).unwrap();
    assert_eq!(run(&mut s, &mut dev), Ok(()));
    assert_eq!(writes(&dev.sent), vec![(0x12, 0x01)]);
}

#[test]
fn output_write_refreshes_every_feature() {
    let mut dev = Device::new();
    let mut s = synced(&mut dev);
    // The headphone profile holds other values.
    dev.generic.insert(0x10, 2.0f32.to_bits());
    dev.mask = 0x01;
    s.begin_set(FeatureId::Output, Some(1.0f32.to_bits())).unwrap();
    assert_eq!(run(&mut s, &mut dev), Ok(()));
    assert_eq!(dev.sent[0][2], 0x2c);
    assert_eq!(dev.sent[0][5], 0x04);
    let queries = dev.sent.iter().filter(|p| p[2] == 0x11 || (p[2] == 0x26 && p[4] == 0x08) || (p[2] == 0x2c && p[4] == 0x01)).count();
    assert_eq!(queries, 27);
    assert_eq!(s.get(FeatureId::Output), Ok(ONE));
    assert_eq!(s.get(FeatureId::Eq1kHz), Ok(2.0f32.to_bits()));
    assert_eq!(s.get(FeatureId::SbxMaster), Ok(ONE));
}

#[test]
fn toggle_without_value_inverts_and_off_refreshes_dependents() {
    let mut dev = Device::new();
    let mut s = synced(&mut dev);
    s.begin_set(FeatureId::BassToggle, None).unwrap();
    assert_eq!(run(&mut s, &mut dev), Ok(()));
    assert_eq!(s.get(FeatureId::BassToggle), Ok(ONE));
    dev.sent.clear();
    s.begin_set(FeatureId::BassToggle, None).unwrap();
    assert_eq!(run(&mut s, &mut dev), Ok(()));
    assert_eq!(s.get(FeatureId::BassToggle), Ok(0));
    assert_eq!(writes(&dev.sent), vec![(0x12, 0x18)]);
    // Confirmation of the toggle, then the refresh of its slider.
    assert!(dev.sent.iter().any(|p| p[2] == 0x11 && p[6] == 0x19));
}

#[test]
fn refusals() {
    let mut dev = Device::new();
    let mut s = synced(&mut dev);
    assert_eq!(s.begin_set(FeatureId::BassLevel, None), Err(EngineError::InvalidInput));
    assert_eq!(s.begin_set(FeatureId::BassToggle, Some(0.5f32.to_bits())), Err(EngineError::InvalidInput));
    assert!(s.is_idle());

    let fresh = Session::new();
    assert_eq!(fresh.get(FeatureId::Eq1kHz), Ok(f32::NAN.to_bits()));
    let mut fresh = fresh;
    assert_eq!(fresh.begin_set(FeatureId::EqToggle, None), Err(EngineError::ProtocolViolation));

    let partial = Session::from_features(vec![Feature { id: FeatureId::BassLevel, value: 0 }]).unwrap();
    assert_eq!(partial.get(FeatureId::Eq1kHz), Err(EngineError::NotFound));
    let mut partial = partial;
    assert_eq!(partial.begin_set(FeatureId::Eq1kHz, Some(0)), Err(EngineError::NotFound));
    // A dependency missing from the registry ends the operation.
    partial.begin_set(FeatureId::BassLevel, Some(0)).unwrap();
    assert_eq!(run(&mut partial, &mut dev), Err(EngineError::NotFound));
    assert!(partial.is_idle());

    let dup = vec![Feature { id: FeatureId::Output, value: 0 }, Feature { id: FeatureId::Output, value: 0 }];
    assert!(Session::from_features(dup).is_none());
}

#[test]
fn corrupt_dependency_value_is_a_protocol_violation() {
    let mut dev = Device::new();
    let mut s = synced(&mut dev);
    dev.mask = 0;
    // The equalizer toggle reads back a value that is neither 0.0 nor 1.0.
    dev.generic.insert(0x09, 0.5f32.to_bits());
    s.begin_refresh();
    assert_eq!(run(&mut s, &mut dev), Ok(()));
    s.begin_set(FeatureId::Eq1kHz, Some(0)).unwrap();
    assert_eq!(run(&mut s, &mut dev), Err(EngineError::ProtocolViolation));
}

#[test]
fn stale_packets_are_discarded() {
    let mut dev = Device::new();
    dev.stale_before_each_reply = true;
    let mut s = synced(&mut dev);
    s.begin_set(FeatureId::Eq62Hz, Some((-3.0f32).to_bits())).unwrap();
    assert_eq!(run(&mut s, &mut dev), Ok(()));
    assert_eq!(s.get(FeatureId::Eq62Hz), Ok((-3.0f32).to_bits()));
    assert_eq!(s.unconfirmed(), 0);
}

#[test]
fn missing_confirmation_keeps_last_value() {
    let mut dev = Device::new();
    let mut s = synced(&mut dev);
    dev.mute = true;
    s.begin_set(FeatureId::Output, Some(1.0f32.to_bits())).unwrap();
    assert_eq!(run(&mut s, &mut dev), Ok(()));
    assert_eq!(s.get(FeatureId::Output), Ok(0));
    assert_eq!(s.unconfirmed(), 28);
    let _ = MAX_READ_ATTEMPTS;
}

#[test]
fn transport_failure_aborts() {
    let mut dev = Device::new();
    let mut s = synced(&mut dev);
    dev.fail_sends_after = Some(1);
    s.begin_set(FeatureId::Eq1kHz, Some(3.0f32.to_bits())).unwrap();
    assert_eq!(run(&mut s, &mut dev), Err(EngineError::Transport));
    assert!(s.is_idle());
    assert_eq!(s.get(FeatureId::Eq1kHz), Ok(0));
}

#[test]
fn reset_writes_defaults_then_rereads() {
    let mut dev = Device::new();
    let mut s = synced(&mut dev);
    s.begin_set(FeatureId::Eq1kHz, Some(3.0f32.to_bits())).unwrap();
    assert_eq!(run(&mut s, &mut dev), Ok(()));
    dev.sent.clear();
    s.begin_reset();
    assert_eq!(run(&mut s, &mut dev), Ok(()));
    let w = writes(&dev.sent);
    assert_eq!(w.len(), 26);
    // Sliders and values before toggles; the route is never written.
    assert_eq!(w[0], (0x12, 0x01));
    assert!(w.iter().all(|&(c, _)| c != 0x2c));
    assert_eq!(s.get(FeatureId::Eq1kHz), Ok(0));
    assert_eq!(s.get(FeatureId::SbxMaster), Ok(0));
    assert_eq!(s.get(FeatureId::EqToggle), Ok(0));
}

#[test]
fn payload_pairs_write_with_its_confirmation() {
    let p = create_payload(FeatureId::CrystalizerToggle, 1.0f32.to_bits());
    assert_eq!(p.data[..7], [0x00, 0x5a, 0x12, 0x07, 0x01, 0x96, 0x07]);
    assert_eq!(p.data[7..11], 1.0f32.to_le_bytes());
    assert_eq!(p.commit[..7], [0x00, 0x5a, 0x11, 0x03, 0x01, 0x96, 0x07]);
    let p = create_payload(FeatureId::ScoutMode, 1.0f32.to_bits());
    assert_eq!(p.data[..9], [0x00, 0x5a, 0x26, 0x05, 0x07, 0x02, 0x00, 0x01, 0x00]);
    assert_eq!(p.commit[..7], [0x00, 0x5a, 0x26, 0x03, 0x08, 0xff, 0xff]);
    let p = create_payload(FeatureId::Output, 0.0f32.to_bits());
    assert_eq!(p.data[..6], [0x00, 0x5a, 0x2c, 0x05, 0x00, 0x02]);
    assert_eq!(p.commit[..5], [0x00, 0x5a, 0x2c, 0x01, 0x01]);
}
