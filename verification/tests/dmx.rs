use qlcpp::dmx::{ChannelData, Control, Fixture, Universe, DMX};

fn fixture(name: &str, channels: Vec<(u8, u8)>) -> Fixture {
    Fixture {
        channels: channels
            .into_iter()
            .map(|(channel, value)| ChannelData { channel, value })
            .collect(),
        name: name.to_string(),
        controls: Vec::new(),
    }
}

#[test]
fn empty_patch_builds_no_packets() {
    let dmx = DMX::new();
    assert!(dmx.build_packet().is_empty());
}

#[test]
fn packet_carries_universe_number_and_values() {
    let dmx = DMX {
        universes: vec![Universe {
            universe: 3,
            name: "front".to_string(),
            fixtures: vec![fixture("par", vec![(0, 255), (1, 128), (7, 9)])],
        }],
    };
    let packets = dmx.build_packet();
    assert_eq!(packets.len(), 1);
    let (number, packet) = &packets[0];
    assert_eq!(*number, 3);
    assert_eq!(packet.len(), 512);
    assert_eq!(packet[0], 255);
    assert_eq!(packet[1], 128);
    assert_eq!(packet[7], 9);
    assert_eq!(packet[2], 0);
    assert_eq!(packet[511], 0);
}

#[test]
fn later_write_to_same_channel_wins() {
    let dmx = DMX {
        universes: vec![Universe {
            universe: 0,
            name: "u".to_string(),
            fixtures: vec![
                fixture("a", vec![(5, 10), (5, 20)]),
                fixture("b", vec![(5, 30)]),
            ],
        }],
    };
    let packets = dmx.build_packet();
    assert_eq!(packets[0].1[5], 30);
}

#[test]
fn each_universe_gets_its_own_packet() {
    let dmx = DMX {
        universes: vec![
            Universe {
                universe: 1,
                name: "a".to_string(),
                fixtures: vec![fixture("f", vec![(0, 11)])],
            },
            Universe {
                universe: 2,
                name: "b".to_string(),
                fixtures: vec![fixture("g", vec![(0, 22)])],
            },
        ],
    };
    let packets = dmx.build_packet();
    assert_eq!(packets.len(), 2);
    assert_eq!(packets[0].0, 1);
    assert_eq!(packets[0].1[0], 11);
    assert_eq!(packets[1].0, 2);
    assert_eq!(packets[1].1[0], 22);
}

#[test]
fn highest_channel_is_addressable() {
    let dmx = DMX {
        universes: vec![Universe {
            universe: 0,
            name: "u".to_string(),
            fixtures: vec![fixture("f", vec![(255, 77)])],
        }],
    };
    let packets = dmx.build_packet();
    assert_eq!(packets[0].1[255], 77);
}

#[test]
fn apply_control_leaves_fixture_unchanged() {
    let mut f = fixture("par", vec![(0, 1)]);
    let control = Control::Slider { name: "dim".to_string(), min: 0, max: 255 };
    f.apply_control(&control, 100);
    assert_eq!(f.channels.len(), 1);
    assert_eq!(f.channels[0].channel, 0);
    assert_eq!(f.channels[0].value, 1);
}
