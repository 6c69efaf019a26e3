# dbus

The decisions of a low-level D-Bus connection, written and proved in Verus.

* `src/` is the library. It works on plain values: messages, watches, and the numbers by
  which the C library answers.
  * `message` - messages and the two replies that one can be given
  * `error` - errors of the bus library, and errors that a method answers with
  * `reply` - the replies due to messages that nobody has handled
  * `context` - a method call that is being handled, and the one reply it is owed
  * `watch` - the file descriptors to watch
  * `channel` - what is asked of the C library, and what its answers mean
* `app/` is the connection itself: calls into libdbus-1 through its C interface.
* `tests/` runs the library.

The functions named `law_...` state what holds across several functions.
