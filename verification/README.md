# syncplaympv

Synchronized video playback with MPV. A relay server turns what one participant does
(play, pause, seek) into what every participant does at one moment of the server's clock.

- `src/` is the verified library. `text` reads and writes characters and numbers.
  `network` holds the wire protocol, the clocks, the relay server's decisions and the
  relay client's. `mpv` and `commands` deal with the player. `session` is the client that
  acts at deadlines, `sync` the plain protocol without deadlines. `laws` states what holds
  from one participant's player to everyone's.
- `app/` is the program: sockets, processes, the command line, and the conversion between
  seconds in floating point and milliseconds.
- `tests/` runs the library on concrete values.

The library trusts the system clock to give some number, and `serde_json` to write an
object with an array of three scalars in its compact form.
