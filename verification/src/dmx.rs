//! The fixture channel model: universes of fixtures, each fixture a
//! list of channel/value pairs, aggregated per frame into one 512-byte
//! packet per universe.

use vstd::prelude::*;

verus! {

/// One channel write: the channel number inside the universe and the
/// byte value driven onto it.
#[derive(Clone, Copy, Debug, PartialEq, Eq, Structural)]
pub struct ChannelData {
    pub channel: u8,
    pub value: u8,
}

/// A user-facing control of a fixture.
#[derive(Clone, Debug)]
pub enum Control {
    Slider { name: String, min: u8, max: u8 },
    Color { name: String },
}

/// An addressable light: its channel writes, display name and controls.
#[derive(Clone, Debug)]
pub struct Fixture {
    pub channels: Vec<ChannelData>,
    pub name: String,
    pub controls: Vec<Control>,
}

impl Fixture {
    /// Applying a control to a fixture; the channel mapping of controls
    /// is not decided yet, so the fixture is left as it is.
    pub fn apply_control(&mut self, control: &Control, value: u8)
        ensures
            *final(self) == *old(self),
    {
    }
}

/// A 512-slot output bus and the fixtures patched onto it.
#[derive(Clone, Debug)]
pub struct Universe {
    pub universe: u8,
    pub name: String,
    pub fixtures: Vec<Fixture>,
}

/// The value a run of channel writes leaves on channel `c`, starting
/// from `dflt`: the last write to `c` wins; `dflt` stands if none
/// touches it.
pub open spec fn spec_chan_byte(chans: Seq<ChannelData>, c: int, dflt: u8) -> u8
    decreases chans.len(),
{
    if chans.len() == 0 {
        dflt
    } else if chans.last().channel == c {
        chans.last().value
    } else {
        spec_chan_byte(chans.drop_last(), c, dflt)
    }
}

/// The value channel `c` holds after every fixture's writes are applied
/// in order over a zeroed packet: later fixtures overwrite earlier ones.
pub open spec fn spec_fixtures_byte(fixtures: Seq<Fixture>, c: int) -> u8
    decreases fixtures.len(),
{
    if fixtures.len() == 0 {
        0
    } else {
        spec_chan_byte(fixtures.last().channels@, c, spec_fixtures_byte(fixtures.drop_last(), c))
    }
}

/// The byte at channel `c` of the packet a universe builds.
pub open spec fn spec_packet_byte(u: Universe, c: int) -> u8 {
    spec_fixtures_byte(u.fixtures@, c)
}

/// The whole patch: every universe in use.
#[derive(Clone, Debug)]
pub struct DMX {
    pub universes: Vec<Universe>,
}

impl Default for DMX {
    fn default() -> (r: DMX)
        ensures
            r.universes@ == Seq::<Universe>::empty(),
    {
        DMX::new()
    }
}

impl DMX {
    pub fn new() -> (r: DMX)
        ensures
            r.universes@ == Seq::<Universe>::empty(),
    {
        DMX { universes: Vec::new() }
    }

    /// Builds one `(universe number, 512-byte packet)` pair per
    /// universe. Each packet starts zeroed; every fixture's channel
    /// writes are applied in order, so for each channel the last write
    /// wins and untouched channels stay zero.
    pub fn build_packet(&self) -> (r: Vec<(u8, [u8; 512])>)
        ensures
            r@.len() == self.universes@.len(),
            forall|i: int|
                0 <= i < r@.len() ==> (#[trigger] r@[i]).0 == self.universes@[i].universe,
            forall|i: int, c: int|
                0 <= i < r@.len() && 0 <= c < 512 ==> (#[trigger] r@[i].1@[c])
                    == spec_packet_byte(self.universes@[i], c),
    {
        let mut packets: Vec<(u8, [u8; 512])> = Vec::new();
        let mut ui: usize = 0;
        while ui < self.universes.len()
            invariant
                0 <= ui <= self.universes@.len(),
                packets@.len() == ui,
                forall|i: int|
                    0 <= i < ui ==> (#[trigger] packets@[i]).0 == self.universes@[i].universe,
                forall|i: int, c: int|
                    0 <= i < ui && 0 <= c < 512 ==> (#[trigger] packets@[i].1@[c])
                        == spec_packet_byte(self.universes@[i], c),
            decreases self.universes@.len() - ui,
        {
            let universe = &self.universes[ui];
            let mut packet: [u8; 512] = [0; 512];
            let mut fi: usize = 0;
            while fi < universe.fixtures.len()
                invariant
                    0 <= fi <= universe.fixtures@.len(),
                    forall|c: int|
                        0 <= c < 512 ==> (#[trigger] packet@[c]) == spec_fixtures_byte(
                            universe.fixtures@.subrange(0, fi as int),
                            c,
                        ),
                decreases universe.fixtures@.len() - fi,
            {
                let fixture = &universe.fixtures[fi];
                let mut ci: usize = 0;
                while ci < fixture.channels.len()
                    invariant
                        0 <= ci <= fixture.channels@.len(),
                        fixture == &universe.fixtures@[fi as int],
                        0 <= fi < universe.fixtures@.len(),
                        forall|c: int|
                            0 <= c < 512 ==> (#[trigger] packet@[c]) == spec_chan_byte(
                                fixture.channels@.subrange(0, ci as int),
                                c,
                                spec_fixtures_byte(
                                    universe.fixtures@.subrange(0, fi as int),
                                    c,
                                ),
                            ),
                    decreases fixture.channels@.len() - ci,
                {
                    let cd = fixture.channels[ci];
                    packet[cd.channel as usize] = cd.value;
                    proof {
                        assert(fixture.channels@.subrange(0, (ci + 1) as int).drop_last()
                            =~= fixture.channels@.subrange(0, ci as int));
                        assert(fixture.channels@.subrange(0, (ci + 1) as int).last()
                            == fixture.channels@[ci as int]);
                    }
                    ci = ci + 1;
                }
                proof {
                    assert(fixture.channels@.subrange(0, fixture.channels@.len() as int)
                        =~= fixture.channels@);
                    assert(universe.fixtures@.subrange(0, (fi + 1) as int).drop_last()
                        =~= universe.fixtures@.subrange(0, fi as int));
                    assert(universe.fixtures@.subrange(0, (fi + 1) as int).last()
                        == universe.fixtures@[fi as int]);
                }
                fi = fi + 1;
            }
            proof {
                assert(universe.fixtures@.subrange(0, universe.fixtures@.len() as int)
                    =~= universe.fixtures@);
            }
            packets.push((universe.universe, packet));
            ui = ui + 1;
        }
        packets
    }
}

} // verus!
