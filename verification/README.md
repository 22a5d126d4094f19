# my_eq

A six-band parametric equaliser. The verified library in `src/` holds the parts
of the plugin that decide rather than compute on samples:

- `filter_type`: the five band responses and how a band's integer type
  parameter selects one;
- `routing`: whether a band filters a sample or lets it through, how many
  channels get filters, and how many channels of a buffer are filtered;
- `bank`: the per-channel bank of band filters, with one filter per band on
  every channel.

`app/` is the plugin around it: the parameters, the audio callback, the egui
editor, and the biquad filter, which works in `f32`.
