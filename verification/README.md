# trust_drone

A drone for a simulated network in which packets follow routes that their senders choose. The
decisions of the drone are verified with Verus; the program in `app/` gives it channels and random
numbers.

- `src/packet.rs`: the packets and their models.
- `src/action.rs`: commands to the drone, and the actions that it asks for.
- `src/rate.rs`: drop rates, held as the bits of an IEEE 754 binary32 number, and the test whether
  a drawn number calls for a drop.
- `src/protocol.rs`: the rules of the drone as spec functions.
- `src/drone.rs`: `TrustDrone`, which follows those rules.
- `src/laws.rs`, `src/journey.rs`: what holds of the rules, for one drone and for a network.
- `src/generator.rs`: the calls into `rand` that make a generator.

A packet is handled in at most two steps. `TrustDrone::handle_packet` either finishes it, or asks
for a random number (a fragment, which may be dropped) or for the extended trace (a flood request).
The second step, `handle_fragment` or `handle_flood_request`, takes what was asked for.

The program in `app/` also needs the crate `wg_2024`, which defines the packets and channels of the
simulated network; it comes from its own repository and is not in the registry. The library does
not use it: `app/convert.rs` converts between its packets and those of the library.
