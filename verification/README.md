# LumaWave

A desktop real-time music spectrum visualiser, split into a verified core
(`src/`, checked by Verus) and the program around it (`app/`).

## Verified library (`src/`)

| Module | What is proved |
| --- | --- |
| `audio::buffer` | The PCM ring buffer: power-of-two capacity, FIFO order, what a write accepts when full, what a read returns. |
| `audio::engine`, `audio::source` | Source switching: a source that starts is installed and reported (format, description), one that fails to start leaves none. |
| `audio::capture` | Which input device is opened for a requested name. |
| `config` | `#RRGGBB` parsing and formatting, colour and palette sanitising, the integer ranges, panel parameter names, the configuration file's place. |
| `player` | The playlist's navigation, the player's track state, and the playback thread's decisions. |
| `spectrum::schedule` | The analysis thread's tick planning and shutdown. |
| `visualizer::palette` | Gradient stops from colour texts. |

Laws that relate several calls are public proof functions named `law_*`.

## Program (`app/`)

Device capture (cpal), file decoding (symphonia), the FFT (rustfft), the
floating-point signal chain and display state, configuration I/O (serde),
threads and logging. It hands the library plain values and follows its
decisions.
