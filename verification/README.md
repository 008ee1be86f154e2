# iqos

A library for controlling IQOS devices over BLE, verified with Verus.

The library (`src/`) holds everything that decides what goes over the wire
and what comes back: the protocol command builders and response parsers, the
typed device settings, the model capabilities, and the request/reply logic of
each device operation as small state machines (`session`, `operations`). It
also holds the decisions of the hardware tooling: which advertised device to
connect to (`scan`), the reversible read / change / verify / restore exercises
and the search for the experimental status-read commands (`exercise`,
`probe`), and the text of the status snapshot (`snapshot`). Each public
function states its result exactly in its contract; the laws that tie several
functions together (read-back of written settings, capability relations, what
an exercise writes and when it passes) are public proof functions.

`app/` is the command-line tool around it: BLE scanning and connection with
btleplug, the asynchronous transport, the loops that perform the requests the
library asks for, and printing.

`tests/` runs the library on concrete frames, models and device replies.
