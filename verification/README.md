# gpui_ios

The decision logic of GPUI's iOS platform layer (and the pieces of its macOS
native-control layer that share it), written in Verus and proved against its
contracts.

UIKit and AppKit objects never appear here: an object is its address, a
position or size stays with the caller, and each function takes the plain
values the Objective-C side reads and returns what to do with them.

- `src/` — the verified library, one module per concern: text-input
  position arithmetic (`text_input`), hardware keyboard decoding
  (`keyboard`), GCD priorities and task timings (`dispatcher`), touches and
  drops (`input`), window lifecycle, frame options and teardown (`window`),
  the pasteboard (`clipboard`), platform services such as keychain results,
  pickers and the display identity (`platform`), URL schemes (`url_scheme`),
  native controls (`controls`, `ios_controls`, `mac_controls`, `panel`,
  `sidebar`), and the example app's logger, demo catalogue and demo state
  (`logging`, `demos`, `demo_state`).
- `tests/` — executable tests of the library.
- `app/` — the example app's host side: the logger's I/O, the C entry points
  the Swift host calls, and conversions to `log` and `anyhow` types.
