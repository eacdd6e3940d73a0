# storyboard

A command line that turns one video into a storyboard brief, built around a
library whose every decision is verified with Verus.

The library (`src/`) never touches a file, a clock or the network. It checks the
options, builds each request, reads each reply and says what to do next; a run is
a state machine that is asked for its pending action and told the answer. The
program (`app/`) performs the actions.

| module | what it holds |
|---|---|
| `text` | trimming, comparing and numerals over sequences of characters |
| `json` | values of `serde_json` and the contents that contracts speak of |
| `http` | requests as values, and what a reply comes to |
| `paths` | the file name of a path, under either reading of its separators |
| `input` | web address or path, media type, prompt, options, secrets |
| `parts` | how a large file is cut into parts |
| `client` | the service's addresses and the requests that it understands |
| `flow` | actions for the caller, and the caller's answers |
| `upload` | the upload of a local file: three ways, one after the other |
| `session` | one run, from the input to the storyboard |
| `report` | the note on the cost |
| `laws` | what holds of every run, whatever the caller answers |

What a path has for a file name is up to the machine's own rules for paths.
Everything that is floating point (the range of the temperature, the elapsed
seconds) and the reading of the service's JSON records into Rust types is left to
the program.
