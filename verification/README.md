# gdcef

The logic of a Godot extension that embeds the Chromium Embedded Framework
(CEF), written in Verus with its behaviour stated as contracts and proved.

## Layout

- `src/` — the verified library:
  - `range`, `multipart`, `resource`, `url`, `mime`, `scheme`: serving
    `res://` and `user://` requests (URL decoding with path confinement,
    `Range` headers, single-range and `multipart/byteranges` bodies,
    response heads);
  - `keycode`, `input`, `browser_state`, `cursor`: translating Godot input
    into CEF events, IME and drag-and-drop state, cursor shapes;
  - `ipc`: the script that delivers a message from Godot to the page, the
    message escaped as a JSON string;
  - `frame`, `composite`: BGRA to RGBA conversion and popup compositing for
    software rendering;
  - `app_config`, `settings`, `backend`, `lifecycle`, `error`: the browser's
    command-line switches, project settings, renderer detection and the
    reference-counted CEF lifetime;
  - `gpu`, `device_select`, `vulkan_ext`: GPU identities (LUID, UUID),
    Vulkan device selection and the device extensions to inject;
  - `paths`, `plist`, `bundle`, `queue`, `text`: file locations, bundle
    metadata, build layout, queue draining and string helpers.
- `tests/` — tests run against the compiled library.
- `app/` — the unverified glue: CEF callbacks, Godot file access, process
  and file-system work, Vulkan enumeration through the loader, and the
  bundling tool.
