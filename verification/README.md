# ranch_dsp

The verified core of the RanchSamples instruments (Botanica, the morph layers
and PhasePlan).

The instruments' audio path is floating-point. `src/` holds, in Verus, every
decision around it that is made on integers and flags, each with its contract
and the laws it keeps:

| module | what it decides |
|---|---|
| `envelope` | the ADSR stage machine (gate on/off, segment completion) |
| `modes` | waveforms, filter responses, the character filter kinds, parameter codes |
| `characters` | Botanica's ring of five characters: names and favoured filters |
| `noise` | the xorshift noise state and the seeded draws (never zero; draws below 2²³) |
| `pitch` | key masks, nearest in-key quantisation, chord voicing |
| `pool` | fixed grain and voice pools: first free slot, stealing the smallest stamp (oldest string voice, quietest arp voice), hard caps |
| `ring` | circular buffers: write heads, interpolation neighbours, centred freeze windows |
| `trigger` | refractory cooldowns and the onset hysteresis |
| `modmatrix` | the route list and which routes apply |
| `voice` | PhasePlan's modulation source/target layout |
| `params` | the host bridge's stable parameter ids |

`app/` is the `f32` signal path (oscillators, filters, envelopes' levels,
effects, the engines and the wasm bridge), calling into the library for those
decisions. `tests/` exercise the library on concrete values.
