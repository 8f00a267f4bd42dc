# anchor-wl-clipboard

Wayland clipboard access. It watches and writes clipboard data using Wayland data-control
protocols, with an X11/XWayland fallback when Wayland clipboard control is unavailable. It
supports UTF-8 text and PNG clipboard data.

## Layout

- `src/` is the library, verified with Verus. It decides what a watcher and a writer do, as
  functions and state machines without input or output:
  - `mime`, `content`, `error`, `text`, `optional`: the values that are passed around;
  - `builder`, `preference`: what a watcher wants, and which of the offered types serves it;
  - `backend`, `setup`, `globals`: finding and setting up a connection;
  - `offers`: following the selection of a Wayland compositor;
  - `last_seen`, `polling`, `x11`: watching a clipboard that can only be polled;
  - `writer`: putting content on the clipboard and handing it out;
  - `round_trip`: what is written is what is read.
- `app/` holds the connections, the channels and the threads around it.
- `tests/` runs the library on examples.

Functions whose names begin with `law_` state what holds of the library as a whole.

## Use

```rust
use app::{BuildWatcher, ClipboardEvent, ClipboardWatcherBuilder, ClipboardWriter};

fn main() -> Result<(), Box<dyn std::error::Error>> {
    let writer = ClipboardWriter::new()?;
    writer.set_text("Hello from Anchor")?;

    let watcher = ClipboardWatcherBuilder::new().build()?;
    while let Ok(event) = watcher.rx.recv() {
        if let ClipboardEvent::Changed(content) = event {
            println!("{} bytes of {}", content.data.len(), content.mime_type.as_str());
        }
    }
    Ok(())
}
```
