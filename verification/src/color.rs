//! The fixed mic-state palette and the command payload that applies it.

use vstd::prelude::*;

verus! {

/// One RGB triple, the only color representation the library speaks of.
#[derive(Clone, Copy, PartialEq, Eq, Structural, Debug)]
pub struct Rgb {
    pub r: u8,
    pub g: u8,
    pub b: u8,
}

/// The color applied while the microphone is active.
pub open spec fn active_color() -> Rgb {
    Rgb { r: 0, g: 255, b: 0 }
}

/// The color applied while the microphone is muted.
pub open spec fn inactive_color() -> Rgb {
    Rgb { r: 255, g: 0, b: 0 }
}

/// The color applied once at startup, before any mic event has been seen.
pub open spec fn default_color() -> Rgb {
    Rgb { r: 0, g: 0, b: 255 }
}

/// The color that a given microphone state calls for.
pub open spec fn color_for_state(mic_enabled: bool) -> Rgb {
    if mic_enabled {
        active_color()
    } else {
        inactive_color()
    }
}

/// Pick the color for the current microphone state: green when the mic is
/// live, red when it is muted.
pub fn select_color(mic_enabled: bool) -> (c: Rgb)
    ensures
        c == color_for_state(mic_enabled),
{
    if mic_enabled {
        Rgb { r: 0, g: 255, b: 0 }
    } else {
        Rgb { r: 255, g: 0, b: 0 }
    }
}

/// The exec counterpart of `default_color`.
pub fn get_default_color() -> (c: Rgb)
    ensures
        c == default_color(),
{
    Rgb { r: 0, g: 0, b: 255 }
}

/// The payload of one "set every LED" command: the same color repeated once
/// per addressable LED.
pub open spec fn led_payload(color: Rgb, num_leds: nat) -> Seq<Rgb> {
    Seq::new(num_leds, (|i: int| color))
}

/// Build the command payload that sets all `num_leds` LEDs of a device to
/// one uniform color.
pub fn build_led_payload(color: Rgb, num_leds: usize) -> (v: Vec<Rgb>)
    ensures
        v@ == led_payload(color, num_leds as nat),
{
    let mut v: Vec<Rgb> = Vec::new();
    let mut i: usize = 0;
    while i < num_leds
        invariant
            i <= num_leds,
            v@.len() == i,
            forall|k: int| 0 <= k < i ==> v@[k] == color,
        decreases num_leds - i,
    {
        v.push(color);
        i = i + 1;
    }
    proof {
        assert(v@ =~= led_payload(color, num_leds as nat));
    }
    v
}

/// Applying the same color to the same device twice in a row produces the
/// same command payload both times: the payload is a function of the color
/// and the LED count alone, with no hidden state that could skip or alter a
/// redundant write.
pub proof fn lemma_payload_idempotent(color: Rgb, num_leds: nat, first: Seq<Rgb>, second: Seq<Rgb>)
    requires
        first == led_payload(color, num_leds),
        second == led_payload(color, num_leds),
    ensures
        first == second,
{
}

/// The state-to-color map is a faithful round trip: an active mic always
/// yields the active color, a muted mic always yields the inactive color,
/// and the two are distinct.
pub proof fn lemma_state_color_round_trip(mic_enabled: bool)
    ensures
        mic_enabled ==> color_for_state(mic_enabled) == active_color(),
        !mic_enabled ==> color_for_state(mic_enabled) == inactive_color(),
        active_color() != inactive_color(),
{
}

} // verus!
