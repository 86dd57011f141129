# skill_tts

The speech service of a desktop application, with two engines behind one set of
commands: KittenTTS (English, small) and NeuTTS (several languages, voice
cloning).

`src/` is the verified library. It decides and does no I/O:

| Module          | Decides                                                          |
|-----------------|------------------------------------------------------------------|
| `state`         | what the service remembers, and what settings change             |
| `paths`         | where files are kept                                             |
| `progress`      | what the user is told while a model loads                        |
| `loader`        | which files a NeuTTS model needs, and in which order             |
| `reference`     | where the reference of a NeuTTS voice comes from                 |
| `wav`           | how generated audio is named in the cache, and what a file plays |
| `speech`        | when an utterance is taken from the cache, and when synthesised  |
| `voices`        | the NeuTTS presets                                               |
| `kitten_worker` | how the KittenTTS worker serves its commands                     |
| `neutts_worker` | how the NeuTTS worker serves its commands                        |
| `espeak`        | where the phonemizer's data are                                  |
| `commands`      | which engine serves a request                                    |
| `text`          | comparison, digits, hexadecimal, suffixes, white space           |

The parts that alternate decisions and outside work are written as machines: a
`step` takes the outcome of the last action and names the next one. Each `step`
is proved to be a transition function on mathematical views, and the properties
of the whole are proved of those functions: that every command is answered once,
that a cached file belongs to its utterance, that audio is written before it is
played, that the shared state and the workers never disagree.

`app/` runs those machines with worker threads, the model hub, the audio device
and the user interface. `tests/` runs the library on concrete values.
